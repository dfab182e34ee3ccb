//! The part of the system configuration that a peer consults.
use crate::time_types::{FrequencyTolerance, NtpDuration, PollIntervalLimits};
use vstd::prelude::*;

verus! {

/// Poll limits, clock tolerance and step policy shared by all peers.
#[derive(Debug, Clone, Copy)]
pub struct SystemConfig {
    pub poll_limits: PollIntervalLimits,
    pub frequency_tolerance: FrequencyTolerance,
    /// Total amount of stepping past which the daemon gives up.
    pub accumulated_threshold: Option<NtpDuration>,
}

impl Default for SystemConfig {
    fn default() -> (r: SystemConfig)
        ensures
            r.poll_limits.min.0 == 4,
            r.poll_limits.max.0 == 10,
            r.frequency_tolerance.ppm == 15,
            r.accumulated_threshold is None,
    {
        SystemConfig {
            poll_limits: PollIntervalLimits::default(),
            frequency_tolerance: FrequencyTolerance::ppm(15),
            accumulated_threshold: None,
        }
    }
}

} // verus!
