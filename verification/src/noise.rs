//! Integer tables behind the Perlin noise generator.
//!
//! Perlin noise hashes lattice points through shuffled permutation tables
//! and assigns each hash one of sixteen fixed lattice gradients. Building
//! those tables is pure integer work and lives here: the shuffle provably
//! returns a permutation, and the gradient table is pinned entry by entry.
//! Interpolating the lattice values is floating-point work done by the
//! renderer.

use vstd::prelude::*;

use crate::rng::{pcg_output, RNG};

verus! {

/// A Perlin permutation table: each value below 256 appears exactly once.
pub open spec fn is_permutation_table(s: Seq<usize>) -> bool {
    &&& s.len() == 256
    &&& forall|i: int| 0 <= i < 256 ==> #[trigger] s[i] < 256
    &&& forall|i: int, j: int| 0 <= i < j < 256 ==> s[i] != s[j]
}

/// The identity table: entry `i` holds `i`.
pub open spec fn identity_table() -> Seq<usize> {
    Seq::new(256, |i: int| i as usize)
}

/// `s` with the entries at `i` and `j` exchanged.
pub open spec fn swapped(s: Seq<usize>, i: int, j: int) -> Seq<usize>
    recommends
        0 <= i < s.len(),
        0 <= j < s.len(),
{
    s.update(i, s[j]).update(j, s[i])
}

/// The Fisher–Yates pass over `s`, positions `i` down to 1: each position
/// trades places with one drawn at or below it, one generator draw per
/// position.
pub open spec fn fisher_yates(s: Seq<usize>, r: RNG, i: int) -> Seq<usize>
    decreases i, when i >= 0
{
    if i < 1 {
        s
    } else {
        let target = (pcg_output(r.state) as int) % (i + 1);
        fisher_yates(swapped(s, i, target), r.stepped(), i - 1)
    }
}

/// Shuffle the identity table with `rng`: the result is exactly the
/// Fisher–Yates pass the generator's draws dictate, and in particular a
/// permutation table.
pub fn perlin_generate_perm(rng: &mut RNG) -> (p: Vec<usize>)
    ensures
        p@ == fisher_yates(identity_table(), *old(rng), 255),
        is_permutation_table(p@),
        *final(rng) == old(rng).stepped_n(255),
{
    let mut p: Vec<usize> = Vec::new();
    let mut k: usize = 0;
    while k < 256
        invariant
            k <= 256,
            p@.len() == k,
            forall|i: int| 0 <= i < k ==> #[trigger] p@[i] == i,
        decreases 256 - k,
    {
        p.push(k);
        k = k + 1;
    }
    proof {
        assert(p@ =~= identity_table());
    }

    let mut i: usize = 255;
    while i >= 1
        invariant
            i <= 255,
            p@.len() == 256,
            forall|a: int| 0 <= a < 256 ==> #[trigger] p@[a] < 256,
            forall|a: int, b: int| 0 <= a < b < 256 ==> p@[a] != p@[b],
            *rng == old(rng).stepped_n((255 - i) as nat),
            fisher_yates(p@, *rng, i as int) == fisher_yates(
                identity_table(),
                *old(rng),
                255,
            ),
        decreases i,
    {
        let ghost rng_before = *rng;
        let ghost p_before = p@;
        let draw: u32 = rng.next_u32();
        let target: usize = (draw as usize) % (i + 1);
        let high: usize = p[i];
        let low: usize = p[target];
        p.set(i, low);
        p.set(target, high);
        proof {
            assert(p@ =~= swapped(p_before, i as int, target as int));
            assert(fisher_yates(p_before, rng_before, i as int) == fisher_yates(
                p@,
                *rng,
                i as int - 1,
            ));
        }
        i = i - 1;
    }
    p
}

/// Hash a lattice point: each coordinate, wrapped to the table size, looks
/// up its own permutation table, and the three entries are xored. The
/// bitmask wraps negative coordinates the same way the two's-complement
/// representation does.
pub fn lattice_hash(
    perm_x: &Vec<usize>,
    perm_y: &Vec<usize>,
    perm_z: &Vec<usize>,
    i: i32,
    j: i32,
    k: i32,
) -> (h: usize)
    requires
        perm_x@.len() == 256,
        perm_y@.len() == 256,
        perm_z@.len() == 256,
    ensures
        h == (perm_x@[(i & 255) as int] ^ perm_y@[(j & 255) as int] ^ perm_z@[(k
            & 255) as int]),
{
    proof {
        assert(0 <= (i & 255) < 256 && 0 <= (j & 255) < 256 && 0 <= (k & 255) < 256)
            by (bit_vector);
    }
    let xi: usize = (i & 255) as usize;
    let yi: usize = (j & 255) as usize;
    let zi: usize = (k & 255) as usize;
    perm_x[xi] ^ perm_y[yi] ^ perm_z[zi]
}

/// The lattice gradient the Perlin generator assigns to a hash value: one
/// of twelve edge directions of a cube (four repeated to fill sixteen
/// slots), selected by the low four bits. Components are -1, 0 or 1; the
/// renderer scales them into its vector type unchanged.
pub open spec fn gradient_spec(hash: usize) -> (i8, i8, i8) {
    let h = hash & 15;
    if h == 0 {
        (1i8, 1i8, 0i8)
    } else if h == 1 {
        (-1i8, 1i8, 0i8)
    } else if h == 2 {
        (1i8, -1i8, 0i8)
    } else if h == 3 {
        (-1i8, -1i8, 0i8)
    } else if h == 4 {
        (1i8, 0i8, 1i8)
    } else if h == 5 {
        (-1i8, 0i8, 1i8)
    } else if h == 6 {
        (1i8, 0i8, -1i8)
    } else if h == 7 {
        (-1i8, 0i8, -1i8)
    } else if h == 8 {
        (0i8, 1i8, 1i8)
    } else if h == 9 {
        (0i8, -1i8, 1i8)
    } else if h == 10 {
        (0i8, 1i8, -1i8)
    } else if h == 11 {
        (0i8, -1i8, -1i8)
    } else if h == 12 {
        (1i8, 1i8, 0i8)
    } else if h == 13 {
        (-1i8, 1i8, 0i8)
    } else if h == 14 {
        (0i8, 1i8, 1i8)
    } else {
        (0i8, -1i8, 1i8)
    }
}

/// Look up the gradient components for a hash value.
pub fn gradient_components(hash: usize) -> (g: (i8, i8, i8))
    ensures
        g == gradient_spec(hash),
{
    let h: usize = hash & 15;
    if h == 0 {
        (1i8, 1i8, 0i8)
    } else if h == 1 {
        (-1i8, 1i8, 0i8)
    } else if h == 2 {
        (1i8, -1i8, 0i8)
    } else if h == 3 {
        (-1i8, -1i8, 0i8)
    } else if h == 4 {
        (1i8, 0i8, 1i8)
    } else if h == 5 {
        (-1i8, 0i8, 1i8)
    } else if h == 6 {
        (1i8, 0i8, -1i8)
    } else if h == 7 {
        (-1i8, 0i8, -1i8)
    } else if h == 8 {
        (0i8, 1i8, 1i8)
    } else if h == 9 {
        (0i8, -1i8, 1i8)
    } else if h == 10 {
        (0i8, 1i8, -1i8)
    } else if h == 11 {
        (0i8, -1i8, -1i8)
    } else if h == 12 {
        (1i8, 1i8, 0i8)
    } else if h == 13 {
        (-1i8, 1i8, 0i8)
    } else if h == 14 {
        (0i8, 1i8, 1i8)
    } else {
        (0i8, -1i8, 1i8)
    }
}

} // verus!
