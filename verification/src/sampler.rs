//! Stratified per-pixel sampler.
//!
//! Each pixel gets its own deterministic PCG32 stream, seeded from the pixel
//! coordinates, and its samples walk a grid of `x_samples` by `y_samples`
//! strata in row-major order. The jitter inside a stratum is floating-point
//! work done by the renderer; this module hands it the stratum cell and the
//! raw random words, both pinned down exactly.

use vstd::prelude::*;

use crate::rng::{pcg_output, pcg_seeded, RNG};

verus! {

/// Integer raster coordinates of a pixel.
#[derive(Clone, Copy, PartialEq, Eq, Structural, Debug)]
pub struct Point2i {
    pub x: i32,
    pub y: i32,
}

/// One stratified draw: the stratum cell the sample falls in and the two raw
/// random words that jitter it inside the cell.
#[derive(Clone, Copy, PartialEq, Eq, Structural, Debug)]
pub struct StratumSample {
    pub x_index: usize,
    pub y_index: usize,
    pub x_bits: u32,
    pub y_bits: u32,
}

/// The 64-bit stream seed a pixel hashes to: x in the high half, y in the
/// low half. Meaningful for non-negative coordinates.
pub open spec fn pixel_seed(p: Point2i) -> u64
    recommends
        0 <= p.x,
        0 <= p.y,
{
    (p.x * 0x1_0000_0000 + p.y) as u64
}

/// Stratified sampler state: grid dimensions, the per-pixel generator, the
/// pixel being sampled and how many samples of it were already drawn.
pub struct StratifiedSampler {
    pub x_samples: usize,
    pub y_samples: usize,
    pub rng: RNG,
    pub current_pixel: Point2i,
    pub current_sample: usize,
}

impl StratifiedSampler {
    /// A usable sampler has a non-empty grid whose sample count fits the
    /// platform, and never runs past that count within a pixel.
    pub open spec fn wf(self) -> bool {
        &&& 1 <= self.x_samples
        &&& 1 <= self.y_samples
        &&& self.x_samples * self.y_samples <= usize::MAX
        &&& self.current_sample <= self.x_samples * self.y_samples
    }

    /// Build a sampler for an `x_samples` by `y_samples` stratum grid,
    /// positioned at pixel (0, 0) with the stream that `start_pixel`
    /// re-seeds on every pixel anyway.
    pub fn new(x_samples: usize, y_samples: usize) -> (s: StratifiedSampler)
        requires
            1 <= x_samples,
            1 <= y_samples,
            x_samples * y_samples <= usize::MAX,
        ensures
            s.wf(),
            s.x_samples == x_samples,
            s.y_samples == y_samples,
            s.rng == pcg_seeded(0, 0),
            s.current_pixel == (Point2i { x: 0, y: 0 }),
            s.current_sample == 0,
    {
        StratifiedSampler {
            x_samples,
            y_samples,
            rng: RNG::new(0, 0),
            current_pixel: Point2i { x: 0, y: 0 },
            current_sample: 0,
        }
    }

    /// How many samples each pixel receives: one per stratum.
    pub fn samples_per_pixel(&self) -> (n: usize)
        requires
            self.x_samples * self.y_samples <= usize::MAX,
        ensures
            n == self.x_samples * self.y_samples,
    {
        self.x_samples * self.y_samples
    }

    /// Begin sampling pixel `p`: rewind the sample counter and re-seed the
    /// generator from the pixel coordinates, so every pixel's sample
    /// sequence is deterministic and independent of traversal order.
    pub fn start_pixel(&mut self, p: Point2i)
        requires
            0 <= p.x,
            0 <= p.y,
        ensures
            *final(self) == (StratifiedSampler {
                rng: pcg_seeded(pixel_seed(p), 1),
                current_pixel: p,
                current_sample: 0,
                ..*old(self)
            }),
            old(self).wf() ==> final(self).wf(),
    {
        self.current_pixel = p;
        self.current_sample = 0;
        let px: u64 = p.x as u64;
        let py: u64 = p.y as u64;
        let seed: u64 = (px << 32) | py;
        proof {
            assert((px << 32) | py == (px * 0x1_0000_0000 + py) as u64) by (bit_vector)
                requires
                    px < 0x8000_0000,
                    py < 0x8000_0000,
            ;
        }
        self.rng = RNG::new(seed, 1);
    }

    /// The stratum index the next draw will use: the sample counter, or zero
    /// again once every stratum of the pixel was visited.
    pub open spec fn next_stratum_index(self) -> int {
        if self.current_sample == self.x_samples * self.y_samples {
            0int
        } else {
            self.current_sample as int
        }
    }

    /// Draw the next stratified sample of the current pixel: pick the next
    /// stratum cell in row-major order (wrapping around once all strata were
    /// used) and two fresh random words for the jitter inside it.
    #[verifier::rlimit(30)]
    pub fn next_stratum(&mut self) -> (s: StratumSample)
        requires
            old(self).wf(),
        ensures
            final(self).wf(),
            s.x_index == old(self).next_stratum_index() % old(self).x_samples as int,
            s.y_index == old(self).next_stratum_index() / old(self).x_samples as int,
            s.x_index < old(self).x_samples,
            s.y_index < old(self).y_samples,
            s.x_bits == pcg_output(old(self).rng.state),
            s.y_bits == pcg_output(old(self).rng.stepped().state),
            final(self).x_samples == old(self).x_samples,
            final(self).y_samples == old(self).y_samples,
            final(self).current_pixel == old(self).current_pixel,
            final(self).current_sample == old(self).next_stratum_index() + 1,
            final(self).rng == old(self).rng.stepped().stepped(),
    {
        if self.current_sample >= self.samples_per_pixel() {
            self.current_sample = 0;
        }
        let ghost stratum: int = self.current_sample as int;

        let x_index: usize = self.current_sample % self.x_samples;
        let y_index: usize = self.current_sample / self.x_samples;
        proof {
            let xs = self.x_samples as int;
            let ys = self.y_samples as int;
            assert(1 <= xs * ys) by (nonlinear_arith)
                requires
                    1 <= xs,
                    1 <= ys,
            ;
            assert(stratum < old(self).x_samples * old(self).y_samples);
            vstd::arithmetic::div_mod::lemma_mod_bound(stratum, self.x_samples as int);
            vstd::arithmetic::div_mod::lemma_multiply_divide_lt(
                stratum,
                self.x_samples as int,
                self.y_samples as int,
            );
            assert(x_index == stratum % old(self).x_samples as int);
            assert(y_index == stratum / old(self).x_samples as int);
        }
        self.current_sample = self.current_sample + 1;

        let x_bits: u32 = self.rng.next_u32();
        let y_bits: u32 = self.rng.next_u32();

        StratumSample { x_index, y_index, x_bits, y_bits }
    }
}

} // verus!
