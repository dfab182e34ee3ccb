//! Per-server engine of an NTP client: reachability tracking, anti-replay
//! matching of responses, poll interval control, measurement extraction and
//! the synchronization admission rules.
use vstd::prelude::*;

pub mod config;
pub mod packet;
pub mod peer;
pub mod time_types;

pub use config::SystemConfig;
pub use packet::{NtpAssociationMode, NtpLeapIndicator, NtpPacket, ReferenceId, RequestIdentifier};
pub use peer::{
    fuzz_measurement_from_packet, AcceptSynchronizationError, IgnoreReason, Measurement, Peer,
    PeerSnapshot, PeerStatistics, PeerTimeSnapshot, PeerTimeState, Reach, RequestState,
    SystemSnapshot, TimeSnapshot, Update,
};
pub use time_types::{
    FrequencyTolerance, NtpDuration, NtpInstant, NtpTimestamp, PollInterval, PollIntervalLimits,
};

verus! {

} // verus!
