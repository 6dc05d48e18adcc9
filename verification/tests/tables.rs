use pathtracer::hashing::hash_bits;
use pathtracer::noise::{gradient_components, perlin_generate_perm};
use pathtracer::rng::RNG;

#[test]
fn hash_of_cancelling_words_is_zero() {
    // 1 ^ 2 ^ 3 == 0, and the mix maps zero to zero.
    assert_eq!(hash_bits(1, 2, 3), 0);
}

#[test]
fn hash_matches_reference_value() {
    // Bit patterns of the coordinates (1.5, -2.25, 0.0).
    let ix = 1.5f32.to_bits();
    let iy = (-2.25f32).to_bits();
    let iz = 0.0f32.to_bits();
    assert_eq!((ix, iy, iz), (1069547520, 3222274048, 0));
    assert_eq!(hash_bits(ix, iy, iz), 2113422707);
}

#[test]
fn hash_mixes_through_the_xor_of_its_inputs() {
    // The three words enter through their xor, so their order cannot matter...
    assert_eq!(hash_bits(1, 2, 4), hash_bits(2, 1, 4));
    // ...but any change of value does.
    assert_ne!(hash_bits(10, 20, 30), hash_bits(10, 20, 31));
}

#[test]
fn shuffled_table_is_a_permutation() {
    let mut rng = RNG::new(1234, 5678);
    let p = perlin_generate_perm(&mut rng);
    assert_eq!(p.len(), 256);
    let mut seen = [false; 256];
    for &v in p.iter() {
        assert!(v < 256);
        assert!(!seen[v]);
        seen[v] = true;
    }
}

#[test]
fn shuffle_depends_on_the_generator() {
    let mut rng_a = RNG::new(1234, 5678);
    let mut rng_b = RNG::new(4321, 8765);
    let a = perlin_generate_perm(&mut rng_a);
    let b = perlin_generate_perm(&mut rng_b);
    assert_ne!(a, b);
    // First entries for the fixed seed the noise generator uses.
    assert_eq!(&a[..10], &[47, 166, 160, 51, 105, 216, 149, 31, 32, 156]);
}

#[test]
fn gradients_use_low_four_bits_only() {
    for h in 0..16usize {
        assert_eq!(gradient_components(h), gradient_components(h + 16));
        assert_eq!(gradient_components(h), gradient_components(h + 240));
    }
}

#[test]
fn gradients_are_cube_edge_directions() {
    assert_eq!(gradient_components(0), (1, 1, 0));
    assert_eq!(gradient_components(7), (-1, 0, -1));
    assert_eq!(gradient_components(11), (0, -1, -1));
    assert_eq!(gradient_components(15), (0, -1, 1));
    for h in 0..16usize {
        let (x, y, z) = gradient_components(h);
        // Exactly one component is zero, the others are +/-1.
        let zeros = [x, y, z].iter().filter(|&&c| c == 0).count();
        assert_eq!(zeros, 1);
        assert!(x.abs() <= 1 && y.abs() <= 1 && z.abs() <= 1);
    }
}
