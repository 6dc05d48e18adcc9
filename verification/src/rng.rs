//! PCG32 pseudo-random number generator.
//!
//! A 64-bit linear congruential state is advanced once per draw; the output
//! stage xorshifts the high bits down and rotates them by the top five bits
//! of the state. Both stages are specified exactly, so callers can reason
//! about the precise stream a seed produces.

use vstd::prelude::*;

verus! {

/// Multiplier of the PCG32 linear congruential state update.
pub const PCG_MULTIPLIER: u64 = 6364136223846793005;

/// PCG32 generator: `state` is the evolving congruential state, `inc` the
/// stream-selecting increment (always odd for generators built by `new`).
#[derive(Clone, Copy, PartialEq, Eq, Structural, Debug)]
pub struct RNG {
    pub state: u64,
    pub inc: u64,
}

/// The congruential state that follows `state` on the stream with
/// increment `inc`: `state * PCG_MULTIPLIER + inc`, modulo 2^64.
pub open spec fn pcg_next_state(state: u64, inc: u64) -> u64 {
    state.wrapping_mul(PCG_MULTIPLIER).wrapping_add(inc)
}

/// `x` rotated right by `r` bit positions; meaningful for `r < 32`.
pub open spec fn rotate_right_u32(x: u32, r: u32) -> u32
    recommends
        r < 32,
{
    if r == 0 {
        x
    } else {
        (x >> r) | (x << ((32 - r) as u32))
    }
}

/// The word PCG32 outputs for a given congruential state: bits 27..59 of
/// `state ^ (state >> 18)`, rotated right by the top five bits of `state`.
pub open spec fn pcg_output(state: u64) -> u32 {
    rotate_right_u32(
        (((state >> 18) ^ state) >> 27) as u32,
        (state >> 59) as u32,
    )
}

/// The stream increment `new` derives from a sequence index: `2 * index + 1`,
/// truncated to 64 bits, hence always odd.
pub open spec fn pcg_stream_increment(seq_index: u64) -> u64 {
    (seq_index << 1) | 1
}

/// The generator `new(seed, seq_index)` returns: starting from state zero,
/// one advance mixes in the increment, the seed is added, and a second
/// advance scrambles it.
pub open spec fn pcg_seeded(seed: u64, seq_index: u64) -> RNG {
    let inc = pcg_stream_increment(seq_index);
    let warmed = pcg_next_state(0, inc);
    RNG { state: pcg_next_state(warmed.wrapping_add(seed), inc), inc }
}

impl RNG {
    /// The generator after one draw: the state advances, the stream stays.
    pub open spec fn stepped(self) -> RNG {
        RNG { state: pcg_next_state(self.state, self.inc), inc: self.inc }
    }

    /// The generator after `n` draws.
    pub open spec fn stepped_n(self, n: nat) -> RNG
        decreases n,
    {
        if n == 0 {
            self
        } else {
            self.stepped_n((n - 1) as nat).stepped()
        }
    }

    /// Build a deterministic generator for stream `seq_index`, mixed with
    /// `seed` exactly as `pcg_seeded` describes.
    pub fn new(seed: u64, seq_index: u64) -> (rng: RNG)
        ensures
            rng == pcg_seeded(seed, seq_index),
    {
        let mut rng = RNG { state: 0, inc: (seq_index << 1) | 1 };
        rng.next_u32();
        rng.state = rng.state.wrapping_add(seed);
        rng.next_u32();
        rng
    }

    /// Draw one 32-bit word: returns the output for the current state and
    /// advances the state by one congruential step.
    pub fn next_u32(&mut self) -> (r: u32)
        ensures
            *final(self) == old(self).stepped(),
            r == pcg_output(old(self).state),
    {
        let oldstate: u64 = self.state;
        self.state = oldstate.wrapping_mul(PCG_MULTIPLIER).wrapping_add(self.inc);
        let shifted: u64 = ((oldstate >> 18) ^ oldstate) >> 27;
        #[verifier::truncate]
        let xorshifted: u32 = shifted as u32;
        proof {
            assert(oldstate >> 59 < 32) by (bit_vector);
        }
        let rot: u32 = (oldstate >> 59) as u32;
        if rot == 0 {
            xorshifted
        } else {
            (xorshifted >> rot) | (xorshifted << (32 - rot))
        }
    }
}

} // verus!
