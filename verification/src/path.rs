//! Bounce-by-bounce control of the path-tracing loop.
//!
//! Per camera ray the renderer repeats: intersect, add emission, sample one
//! light, sample the BSDF, maybe apply Russian roulette, spawn the next ray.
//! All radiance arithmetic is floating-point work outside this library, but
//! which of those steps run and when the loop stops is decided here: the
//! renderer reports what each bounce found and this state machine tracks
//! depth, specular history and liveness with exact contracts.

use vstd::prelude::*;

verus! {

/// What one bounce of the path loop found: the ray left the scene, the hit
/// had no scattering material, BSDF sampling produced no usable direction
/// (zero pdf, zero spectrum or zero cosine), Russian roulette killed the
/// path, or the path scattered into a new direction. For a scatter,
/// `is_delta` records whether the sampled lobe was a Dirac delta (ideal
/// reflection or transmission).
pub enum BounceOutcome {
    Miss,
    Absorbed,
    SampleRejected,
    RouletteKilled,
    Scattered { is_delta: bool },
}

/// Control state of one camera-ray path: how many bounces happened, the
/// bounce budget, whether the previous scatter was specular, and whether
/// the path is still being traced.
#[derive(Clone, Copy, PartialEq, Eq, Structural, Debug)]
pub struct PathState {
    pub bounces: u32,
    pub max_depth: u32,
    pub specular_bounce: bool,
    pub alive: bool,
}

impl PathState {
    /// A live path always has bounce budget left.
    pub open spec fn wf(self) -> bool {
        self.alive ==> self.bounces < self.max_depth
    }

    /// A fresh path at its camera ray: no bounces yet, nothing specular
    /// behind it, live exactly when any bounces are budgeted at all.
    pub fn start(max_depth: u32) -> (p: PathState)
        ensures
            p == (PathState {
                bounces: 0,
                max_depth,
                specular_bounce: false,
                alive: 0 < max_depth,
            }),
            p.wf(),
    {
        PathState { bounces: 0, max_depth, specular_bounce: false, alive: 0 < max_depth }
    }

    /// Whether emission found at the current hit belongs in the radiance
    /// estimate: only on the primary hit or right after a specular bounce.
    /// On every other bounce, next-event estimation already counted the
    /// light, and adding its emission again would double-count it.
    pub fn counts_emission(&self) -> (b: bool)
        ensures
            b == (self.bounces == 0 || self.specular_bounce),
    {
        self.bounces == 0 || self.specular_bounce
    }

    /// Whether Russian roulette may terminate the path at this bounce:
    /// only once more than three bounces are behind it, so short paths
    /// keep their full contribution.
    pub fn roulette_active(&self) -> (b: bool)
        ensures
            b == (self.bounces > 3),
    {
        self.bounces > 3
    }

    /// Record what this bounce found. A scatter advances the bounce count,
    /// remembers whether the lobe was specular, and keeps the path alive
    /// exactly while the bounce budget lasts; every other outcome
    /// terminates the path and leaves the rest of the state as it was.
    pub fn advance(&mut self, outcome: BounceOutcome)
        requires
            old(self).alive,
            old(self).wf(),
            outcome is RouletteKilled ==> old(self).bounces > 3,
        ensures
            final(self).wf(),
            final(self).max_depth == old(self).max_depth,
            match outcome {
                BounceOutcome::Scattered { is_delta } => {
                    &&& final(self).bounces == old(self).bounces + 1
                    &&& final(self).specular_bounce == is_delta
                    &&& final(self).alive == (old(self).bounces + 1 < old(self).max_depth)
                },
                _ => {
                    &&& final(self).bounces == old(self).bounces
                    &&& final(self).specular_bounce == old(self).specular_bounce
                    &&& !final(self).alive
                },
            },
    {
        match outcome {
            BounceOutcome::Scattered { is_delta } => {
                self.bounces = self.bounces + 1;
                self.specular_bounce = is_delta;
                self.alive = self.bounces < self.max_depth;
            },
            _ => {
                self.alive = false;
            },
        }
    }
}

/// Map the scaled uniform light pick `floor(u * n_lights)`, computed by the
/// caller, to a valid index: the boundary draw `u == 1` lands one past the
/// end and is clamped to the last light.
pub fn choose_light(scaled: usize, n_lights: usize) -> (i: usize)
    requires
        1 <= n_lights,
    ensures
        i == if scaled < n_lights { scaled as int } else { (n_lights - 1) as int },
        i < n_lights,
{
    if scaled < n_lights {
        scaled
    } else {
        n_lights - 1
    }
}

} // verus!
