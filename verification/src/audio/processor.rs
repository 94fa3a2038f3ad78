//! The in-line signal pipeline.
//!
//! Kept minimal so that it can run inside the real-time capture callback: one
//! comparison-and-select per sample, no allocation, no state carried from one
//! sample to the next. Further stages would be applied in sequence ahead of
//! the limiter.

use vstd::prelude::*;
use crate::audio::sample::FULL_SCALE;

verus! {

/// The default limiter threshold, `0.98` in normalized amplitude.
pub const DEFAULT_LIMITER_THRESHOLD: i64 = 2_104_437_638;

/// Hard clipping of `sample` at `threshold`: values inside
/// `[-threshold, threshold]` pass unchanged, values outside become the
/// boundary they crossed.
pub open spec fn limit_spec(sample: int, threshold: int) -> int {
    if sample > threshold {
        threshold
    } else if sample < -threshold {
        -threshold
    } else {
        sample
    }
}

/// Per-sample processing applied to every captured mono amplitude.
pub struct AudioPipeline {
    limiter_threshold: i64,
}

impl AudioPipeline {
    #[verifier::type_invariant]
    spec fn threshold_in_range(&self) -> bool {
        0 <= self.limiter_threshold <= FULL_SCALE
    }

    /// The limiter threshold, as a normalized amplitude.
    pub closed spec fn threshold(&self) -> int {
        self.limiter_threshold as int
    }

    /// A pipeline with the default limiter threshold.
    pub fn new() -> (pipeline: Self)
        ensures
            pipeline.threshold() == DEFAULT_LIMITER_THRESHOLD,
    {
        Self { limiter_threshold: DEFAULT_LIMITER_THRESHOLD }
    }

    /// The limiter threshold, as a normalized amplitude.
    pub fn limiter_threshold(&self) -> (t: i64)
        ensures
            t == self.threshold(),
            0 <= t <= FULL_SCALE,
    {
        proof {
            use_type_invariant(self);
        }
        self.limiter_threshold
    }

    /// Runs one mono amplitude through the pipeline. The result never leaves
    /// `[-threshold, threshold]`, an amplitude inside that interval comes back
    /// as it went in, and the pipeline itself is left as it was.
    pub fn process_sample(&mut self, sample: i64) -> (processed: i64)
        ensures
            processed == limit_spec(sample as int, old(self).threshold()),
            -old(self).threshold() <= processed <= old(self).threshold(),
            -old(self).threshold() <= sample <= old(self).threshold() ==> processed == sample,
            *final(self) == *old(self),
    {
        self.apply_limiter(sample)
    }

    fn apply_limiter(&self, sample: i64) -> (limited: i64)
        ensures
            limited == limit_spec(sample as int, self.threshold()),
            -self.threshold() <= limited <= self.threshold(),
    {
        proof {
            use_type_invariant(self);
        }
        if sample > self.limiter_threshold {
            self.limiter_threshold
        } else if sample < -self.limiter_threshold {
            -self.limiter_threshold
        } else {
            sample
        }
    }
}

/// Limiting twice is limiting once.
pub proof fn lemma_limit_idempotent(sample: int, threshold: int)
    requires
        threshold >= 0,
    ensures
        limit_spec(limit_spec(sample, threshold), threshold) == limit_spec(sample, threshold),
{
}

} // verus!
