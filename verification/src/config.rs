//! What a limiter is configured with, and what can go wrong.

use crate::ieee::{is_negative32, less_than, lt, ZERO};
use vstd::prelude::*;

verus! {

/// The settings of one limiter. The two levels are binary32 bit patterns.
#[derive(Clone, Copy, Debug)]
pub struct LimiterParameters {
    /// The limiting threshold, in decibels.
    pub threshold: u32,
    /// The release rate, in decibels per second; not below zero.
    pub decay: u32,
    /// The size of the RMS window, in samples; above zero.
    pub rms_samples: usize,
}

/// A filter's configuration, tagged with the kind of filter it is meant for.
#[derive(Clone, Copy, Debug)]
pub enum Filter {
    Limiter { parameters: LimiterParameters },
    RMSLimiter { parameters: LimiterParameters },
}

/// Why a configuration is refused.
#[derive(Clone, Copy, Debug, PartialEq, Eq)]
pub enum ConfigError {
    /// The release rate is below zero: the gain would shrink while the signal
    /// is under the threshold.
    NegativeDecay,
}

impl ConfigError {
    /// The error in words.
    pub fn message(&self) -> (text: String)
        ensures
            text@ == "Decay (dB/s) cannot be negative"@,
    {
        "Decay (dB/s) cannot be negative".to_owned()
    }
}

/// Why a call on a limiter did nothing.
#[derive(Clone, Copy, Debug, PartialEq, Eq)]
pub enum Fault {
    /// The configuration handed in belongs to another kind of filter.
    InvalidConfigChange,
}

/// Whether a configuration is acceptable: all are but those with a release
/// rate below zero.
pub open spec fn config_valid(conf: LimiterParameters) -> bool {
    !is_negative32(conf.decay)
}

/// The two factors that a limiter works with, both derived from its
/// configuration and both binary64 bit patterns: the threshold as a voltage
/// ratio, `10^(threshold / 20)`, and the decay of one chunk,
/// `10^(decay * chunksize / samplerate / 20)`. A power of ten is never below
/// zero, and no value of this type is.
#[derive(Clone, Copy, Debug)]
pub struct Coefficients {
    threshold_voltage_ratio: u64,
    decay_per_chunk: u64,
}

impl Coefficients {
    #[verifier::type_invariant]
    spec fn inv(self) -> bool {
        !lt(self.threshold_voltage_ratio, ZERO) && !lt(self.decay_per_chunk, ZERO)
    }

    pub closed spec fn spec_threshold_voltage_ratio(&self) -> u64 {
        self.threshold_voltage_ratio
    }

    pub closed spec fn spec_decay_per_chunk(&self) -> u64 {
        self.decay_per_chunk
    }

    /// Whether two factors can be held: neither is below zero.
    pub open spec fn acceptable(threshold_voltage_ratio: u64, decay_per_chunk: u64) -> bool {
        !lt(threshold_voltage_ratio, ZERO) && !lt(decay_per_chunk, ZERO)
    }

    /// Holds the two factors, unless one is below zero.
    pub fn new(threshold_voltage_ratio: u64, decay_per_chunk: u64) -> (r: Option<Coefficients>)
        ensures
            r.is_some() == Self::acceptable(threshold_voltage_ratio, decay_per_chunk),
            r matches Some(c) ==> c.spec_threshold_voltage_ratio() == threshold_voltage_ratio
                && c.spec_decay_per_chunk() == decay_per_chunk,
    {
        if less_than(threshold_voltage_ratio, ZERO) || less_than(decay_per_chunk, ZERO) {
            None
        } else {
            Some(Coefficients { threshold_voltage_ratio, decay_per_chunk })
        }
    }

    #[verifier::when_used_as_spec(spec_threshold_voltage_ratio)]
    pub fn threshold_voltage_ratio(&self) -> (ratio: u64)
        ensures
            ratio == self.spec_threshold_voltage_ratio(),
            !lt(ratio, ZERO),
    {
        proof {
            use_type_invariant(self);
        }
        self.threshold_voltage_ratio
    }

    #[verifier::when_used_as_spec(spec_decay_per_chunk)]
    pub fn decay_per_chunk(&self) -> (ratio: u64)
        ensures
            ratio == self.spec_decay_per_chunk(),
            !lt(ratio, ZERO),
    {
        proof {
            use_type_invariant(self);
        }
        self.decay_per_chunk
    }
}

} // verus!
