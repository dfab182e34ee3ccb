//! The per-server engine: reachability register, measurement extraction,
//! synchronization admission and the request/response state machine.
use crate::config::SystemConfig;
use crate::packet::{
    blank_packet, NtpAssociationMode, NtpLeapIndicator, NtpPacket, ReferenceId,
    RequestIdentifier, KISS_DENY, KISS_RATE, KISS_RSTR, REFERENCE_NONE,
};
use crate::time_types::{
    clamp_i64, div_trunc, exponent_duration, longer, nanos_duration, scaled_by_ppm, stepped,
    wrapping_diff, wrapping_shift, FrequencyTolerance, NtpDuration, NtpInstant, NtpTimestamp,
    PollInterval, MIN_DISPERSION, monotonic_now,
};
use vstd::prelude::*;
use vstd::std_specs::bits::{axiom_u8_leading_zeros, axiom_u8_trailing_zeros, u8_leading_zeros, u8_trailing_zeros};

verus! {

/// The highest stratum that a server may report.
pub const MAX_STRATUM: u8 = 16;

/// How long a request waits for its answer, in nanoseconds (5 s).
pub const POLL_WINDOW_NANOS: u64 = 5_000_000_000;

/// Whether a server has answered recently, as an 8-bit shift register.
///
/// Each poll shifts the register left by one bit and clears the rightmost
/// bit; each valid answer sets the rightmost bit. The server is reachable
/// while any bit is set.
#[derive(Debug, Clone, Copy, PartialEq, Eq, Default, Structural)]
pub struct Reach(pub u8);

/// The register `r` after `k` polls with no answer in between.
pub open spec fn polled(r: u8, k: nat) -> u8
    decreases k,
{
    if k == 0 {
        r
    } else {
        polled(r, (k - 1) as nat) << 1u8
    }
}

impl Reach {
    pub fn is_reachable(&self) -> (r: bool)
        ensures
            r == (self.0 != 0),
    {
        self.0 != 0
    }

    /// An answer has just arrived, so the server is reachable.
    pub fn received_packet(&mut self)
        ensures
            final(self).0 == old(self).0 | 1u8,
    {
        self.0 = self.0 | 1;
    }

    /// A poll has been sent: older answers count for one poll less.
    pub fn poll(&mut self)
        ensures
            final(self).0 == polled(old(self).0, 1),
    {
        proof {
            assert(polled(self.0, 1) == polled(self.0, 0) << 1u8);
        }
        self.0 = self.0 << 1u8;
    }

    /// Number of polls since the last answer.
    pub fn unanswered_polls(&self) -> (r: u32)
        ensures
            r == u8_leading_zeros(self.0),
            r <= 8,
            r == 8 <==> self.0 == 0,
    {
        proof {
            axiom_u8_leading_zeros(self.0);
        }
        self.0.leading_zeros()
    }

    /// Number of polls left until the server counts as unreachable.
    pub fn reachability_score(&self) -> (r: u32)
        ensures
            r == 8 - u8_trailing_zeros(self.0),
            r == 0 <==> self.0 == 0,
    {
        proof {
            axiom_u8_trailing_zeros(self.0);
        }
        8 - self.0.trailing_zeros()
    }
}

/// Eight polls without an answer make any register unreachable; after fewer
/// polls the register is still reachable when one of the bits that those
/// polls keep (the low `8 - k` bits) was set.
pub proof fn lemma_reach_decay(r: u8, k: nat)
    requires
        k <= 8,
    ensures
        k == 8 ==> polled(r, k) == 0,
        k < 8 && (r & (0xffu8 >> (k as u8))) != 0 ==> polled(r, k) != 0,
{
    lemma_polled_is_shift(r, k);
    let s = k as u8;
    assert(s == 8 ==> r << s == 0) by (bit_vector);
    assert(s < 8 && (r & (0xffu8 >> s)) != 0 ==> (r << s) != 0) by (bit_vector);
}

proof fn lemma_polled_is_shift(r: u8, k: nat)
    requires
        k <= 8,
    ensures
        polled(r, k) == r << (k as u8),
    decreases k,
{
    if k == 0 {
        assert(r << 0u8 == r) by (bit_vector);
    } else {
        lemma_polled_is_shift(r, (k - 1) as nat);
        let s = k as u8;
        assert(1 <= s <= 8 ==> (r << ((s - 1) as u8)) << 1u8 == r << s) by (bit_vector);
    }
}

/// One resolved sample of the offset and round-trip delay to a server.
#[derive(Debug, Clone, Copy, PartialEq, Eq, Structural)]
pub struct Measurement {
    pub delay: NtpDuration,
    pub offset: NtpDuration,
    pub localtime: NtpTimestamp,
    pub monotime: NtpInstant,
}

/// The measurement of one exchange (RFC 5905): the round trip less the
/// server's hold time, never below the local precision; the mean of the two
/// one-way offsets; and the local midpoint of the exchange.
pub open spec fn measurement_of(
    packet: NtpPacket,
    send: NtpTimestamp,
    recv: NtpTimestamp,
    local_clock_time: NtpInstant,
    precision: NtpDuration,
) -> Measurement {
    let round_trip = wrapping_diff(recv.timestamp, send.timestamp);
    let hold = wrapping_diff(packet.transmit_timestamp.timestamp, packet.receive_timestamp.timestamp);
    let raw_delay = clamp_i64(round_trip - hold);
    let offset = div_trunc(
        wrapping_diff(packet.receive_timestamp.timestamp, send.timestamp) + wrapping_diff(
            packet.transmit_timestamp.timestamp,
            recv.timestamp,
        ),
        2,
    );
    Measurement {
        delay: NtpDuration {
            duration: if raw_delay >= precision.duration {
                raw_delay as i64
            } else {
                precision.duration
            },
        },
        offset: NtpDuration { duration: offset as i64 },
        localtime: NtpTimestamp {
            timestamp: wrapping_shift(send.timestamp, div_trunc(round_trip, 2) as i64) as u64,
        },
        monotime: local_clock_time,
    }
}

impl Measurement {
    pub fn from_packet(
        packet: &NtpPacket,
        send_timestamp: NtpTimestamp,
        recv_timestamp: NtpTimestamp,
        local_clock_time: NtpInstant,
        precision: NtpDuration,
    ) -> (r: Measurement)
        ensures
            r == measurement_of(*packet, send_timestamp, recv_timestamp, local_clock_time, precision),
            r.delay.duration >= precision.duration,
    {
        let round_trip = recv_timestamp.since(send_timestamp);
        let hold = packet.transmit_timestamp().since(packet.receive_timestamp());
        let delay = round_trip.saturating_sub(hold).larger(precision);
        let outbound = packet.receive_timestamp().since(send_timestamp);
        let inbound = packet.transmit_timestamp().since(recv_timestamp);
        Measurement {
            delay,
            offset: outbound.mean(inbound),
            localtime: send_timestamp.shifted(round_trip.half()),
            monotime: local_clock_time,
        }
    }
}

/// Filtered statistics of a server's time.
#[derive(Debug, Clone, Copy, PartialEq, Eq, Default, Structural)]
pub struct PeerStatistics {
    pub offset: NtpDuration,
    pub delay: NtpDuration,
    pub dispersion: NtpDuration,
    pub jitter: NtpDuration,
}

/// Root distance without the term that grows with the age of the data:
/// half the total delay, but at least the minimum dispersion, plus the total
/// dispersion and the jitter, each sum saturated.
pub open spec fn distance_without_time(
    root_delay: int,
    root_dispersion: int,
    delay: int,
    dispersion: int,
    jitter: int,
) -> int {
    let half_delay = div_trunc(clamp_i64(root_delay + delay), 2);
    let floored = if MIN_DISPERSION >= half_delay {
        MIN_DISPERSION as int
    } else {
        half_delay
    };
    clamp_i64(clamp_i64(clamp_i64(floored + root_dispersion) + dispersion) + jitter)
}

/// Root distance: the part without time plus the drift that the clock may
/// have built up over `elapsed_nanos` at `ppm` parts per million.
pub open spec fn root_distance_of(without_time: int, elapsed_nanos: int, ppm: int) -> int {
    clamp_i64(without_time + scaled_by_ppm(nanos_duration(elapsed_nanos), ppm))
}

/// Nanoseconds between two instants.
pub open spec fn nanos_between(a: NtpInstant, b: NtpInstant) -> int {
    if a.nanos >= b.nanos {
        a.nanos - b.nanos
    } else {
        b.nanos - a.nanos
    }
}

/// The accepted view of a server's timekeeping.
#[derive(Debug, Clone, Copy, PartialEq, Eq, Structural)]
pub struct PeerTimeState {
    pub statistics: PeerStatistics,
    pub last_packet: NtpPacket,
    pub time: NtpInstant,
}

impl PeerTimeState {
    pub open spec fn spec_without_time(self) -> int {
        distance_without_time(
            self.last_packet.root_delay.duration as int,
            self.last_packet.root_dispersion.duration as int,
            self.statistics.delay.duration as int,
            self.statistics.dispersion.duration as int,
            self.statistics.jitter.duration as int,
        )
    }

    /// Takes what the clock filter made of a new measurement: new statistics
    /// and the instant they hold for, or nothing when it rejected the sample.
    /// A rejected sample leaves the state unchanged.
    pub fn update(&mut self, packet: NtpPacket, filtered: Option<(PeerStatistics, NtpInstant)>) -> (r:
        Option<()>)
        ensures
            match filtered {
                Some((statistics, time)) => r is Some && *final(self) == (PeerTimeState {
                    statistics,
                    last_packet: packet,
                    time,
                }),
                None => r is None && *final(self) == *old(self),
            },
    {
        match filtered {
            Some((statistics, time)) => {
                self.statistics = statistics;
                self.last_packet = packet;
                self.time = time;
                Some(())
            },
            None => None,
        }
    }

    /// Root distance without the `(local_clock_time - self.time) * PHI` term.
    pub fn root_distance_without_time(&self) -> (r: NtpDuration)
        ensures
            r.duration == self.spec_without_time(),
    {
        let total_delay = self.last_packet.root_delay().saturating_add(self.statistics.delay);
        NtpDuration::min_dispersion().larger(total_delay.half()).saturating_add(
            self.last_packet.root_dispersion(),
        ).saturating_add(self.statistics.dispersion).saturating_add(self.statistics.jitter)
    }

    /// The largest error of the local clock relative to the primary source
    /// if it followed this server: half the total delay plus the total
    /// dispersion plus jitter, plus the drift since the last update.
    pub fn root_distance(&self, local_clock_time: NtpInstant, frequency_tolerance: FrequencyTolerance) -> (r:
        NtpDuration)
        ensures
            r.duration == root_distance_of(
                self.spec_without_time(),
                nanos_between(local_clock_time, self.time),
                frequency_tolerance.ppm as int,
            ),
    {
        self.root_distance_without_time().saturating_add(
            NtpInstant::abs_diff(local_clock_time, self.time).mul_tolerance(frequency_tolerance),
        )
    }

    /// Clears the measurement data; the instant of the last update stays.
    pub fn reset_measurements(&mut self)
        ensures
            final(self).statistics == PeerStatistics::spec_zero(),
            final(self).last_packet == blank_packet(),
            final(self).time == old(self).time,
    {
        self.statistics = PeerStatistics::zero();
        self.last_packet = NtpPacket::test();
    }

    /// A state with no measurements, last updated at `instant`.
    pub fn test_timestate(instant: NtpInstant) -> (r: PeerTimeState)
        ensures
            r.statistics == PeerStatistics::spec_zero(),
            r.last_packet == blank_packet(),
            r.time == instant,
    {
        PeerTimeState { statistics: PeerStatistics::zero(), last_packet: NtpPacket::test(), time: instant }
    }
}

impl PeerStatistics {
    pub open spec fn spec_zero() -> PeerStatistics {
        PeerStatistics {
            offset: NtpDuration { duration: 0 },
            delay: NtpDuration { duration: 0 },
            dispersion: NtpDuration { duration: 0 },
            jitter: NtpDuration { duration: 0 },
        }
    }

    /// Statistics with every value zero.
    pub fn zero() -> (r: PeerStatistics)
        ensures
            r == PeerStatistics::spec_zero(),
    {
        PeerStatistics {
            offset: NtpDuration::zero(),
            delay: NtpDuration::zero(),
            dispersion: NtpDuration::zero(),
            jitter: NtpDuration::zero(),
        }
    }
}

/// Root distance never decreases when any of its inputs grows: the measured
/// delay, dispersion and jitter, the server's root delay and root dispersion,
/// and the time elapsed since the last update.
pub proof fn lemma_root_distance_monotone(
    root_delay: (int, int),
    root_dispersion: (int, int),
    delay: (int, int),
    dispersion: (int, int),
    jitter: (int, int),
    elapsed_nanos: (nat, nat),
    ppm: u32,
)
    requires
        root_delay.0 <= root_delay.1,
        root_dispersion.0 <= root_dispersion.1,
        delay.0 <= delay.1,
        dispersion.0 <= dispersion.1,
        jitter.0 <= jitter.1,
        elapsed_nanos.0 <= elapsed_nanos.1,
    ensures
        root_distance_of(
            distance_without_time(root_delay.0, root_dispersion.0, delay.0, dispersion.0, jitter.0),
            elapsed_nanos.0 as int,
            ppm as int,
        ) <= root_distance_of(
            distance_without_time(root_delay.1, root_dispersion.1, delay.1, dispersion.1, jitter.1),
            elapsed_nanos.1 as int,
            ppm as int,
        ),
{
    let t0 = clamp_i64(root_delay.0 + delay.0);
    let t1 = clamp_i64(root_delay.1 + delay.1);
    assert(t0 <= t1);
    assert(div_trunc(t0, 2) <= div_trunc(t1, 2)) by (nonlinear_arith)
        requires
            t0 <= t1,
            div_trunc(t0, 2) == (if t0 >= 0 { t0 / 2 } else { -((-t0) / 2) }),
            div_trunc(t1, 2) == (if t1 >= 0 { t1 / 2 } else { -((-t1) / 2) }),
    ;
    let n0 = elapsed_nanos.0 as int;
    let n1 = elapsed_nanos.1 as int;
    assert(n0 * 0x1_0000_0000 / 1_000_000_000 <= n1 * 0x1_0000_0000 / 1_000_000_000)
        by (nonlinear_arith)
        requires
            0 <= n0 <= n1,
    ;
    let d0 = nanos_duration(n0);
    let d1 = nanos_duration(n1);
    assert(0 <= n0 * 0x1_0000_0000 / 1_000_000_000) by (nonlinear_arith)
        requires
            0 <= n0,
    ;
    assert(0 <= d0 <= d1);
    let p = ppm as int;
    assert(d0 * p / 1_000_000 <= d1 * p / 1_000_000) by (nonlinear_arith)
        requires
            0 <= d0 <= d1,
            0 <= p,
    ;
    assert(0 <= d0 * p) by (nonlinear_arith)
        requires
            0 <= d0,
            0 <= p,
    ;
}

/// A point-in-time view of a server's timekeeping, for admission.
#[derive(Debug, Clone, Copy, PartialEq, Eq, Structural)]
pub struct PeerTimeSnapshot {
    pub root_distance_without_time: NtpDuration,
    pub statistics: PeerStatistics,
    pub time: NtpInstant,
    pub stratum: u8,
    pub leap_indicator: NtpLeapIndicator,
    pub root_delay: NtpDuration,
    pub root_dispersion: NtpDuration,
}

/// Why a server's time may not steer the local clock.
#[derive(Debug, Clone, Copy, PartialEq, Eq, Hash, Structural)]
pub enum AcceptSynchronizationError {
    ServerUnreachable,
    Loop,
    Distance,
    Stratum,
}

impl PeerTimeSnapshot {
    pub open spec fn spec_root_distance(self, local_clock_time: NtpInstant, ppm: int) -> int {
        root_distance_of(
            self.root_distance_without_time.duration as int,
            nanos_between(local_clock_time, self.time),
            ppm,
        )
    }

    /// The time-level admission rule: a server that was never synchronized
    /// fails on stratum; one whose root distance exceeds the threshold plus
    /// one system poll interval of drift fails on distance.
    pub open spec fn admission(
        self,
        local_clock_time: NtpInstant,
        frequency_tolerance: FrequencyTolerance,
        distance_threshold: NtpDuration,
        system_poll: PollInterval,
    ) -> Result<(), AcceptSynchronizationError> {
        if self.leap_indicator is Unknown {
            Err(AcceptSynchronizationError::Stratum)
        } else if self.spec_root_distance(local_clock_time, frequency_tolerance.ppm as int)
            > clamp_i64(
            distance_threshold.duration + scaled_by_ppm(
                exponent_duration(system_poll.0 as int),
                frequency_tolerance.ppm as int,
            ),
        ) {
            Err(AcceptSynchronizationError::Distance)
        } else {
            Ok(())
        }
    }

    pub fn root_distance(&self, local_clock_time: NtpInstant, frequency_tolerance: FrequencyTolerance) -> (r:
        NtpDuration)
        ensures
            r.duration == self.spec_root_distance(local_clock_time, frequency_tolerance.ppm as int),
    {
        self.root_distance_without_time.saturating_add(
            NtpInstant::abs_diff(local_clock_time, self.time).mul_tolerance(frequency_tolerance),
        )
    }

    pub fn from_timestate(timestate: &PeerTimeState) -> (r: PeerTimeSnapshot)
        ensures
            r.root_distance_without_time.duration == timestate.spec_without_time(),
            r.statistics == timestate.statistics,
            r.time == timestate.time,
            r.stratum == timestate.last_packet.stratum,
            r.leap_indicator == timestate.last_packet.leap,
            r.root_delay == timestate.last_packet.root_delay,
            r.root_dispersion == timestate.last_packet.root_dispersion,
    {
        PeerTimeSnapshot {
            root_distance_without_time: timestate.root_distance_without_time(),
            statistics: timestate.statistics,
            time: timestate.time,
            stratum: timestate.last_packet.stratum(),
            leap_indicator: timestate.last_packet.leap(),
            root_delay: timestate.last_packet.root_delay(),
            root_dispersion: timestate.last_packet.root_dispersion(),
        }
    }

    pub fn accept_synchronization(
        &self,
        local_clock_time: NtpInstant,
        frequency_tolerance: FrequencyTolerance,
        distance_threshold: NtpDuration,
        system_poll: PollInterval,
    ) -> (r: Result<(), AcceptSynchronizationError>)
        ensures
            r == self.admission(local_clock_time, frequency_tolerance, distance_threshold, system_poll),
    {
        if !self.leap_indicator.is_synchronized() {
            return Err(AcceptSynchronizationError::Stratum);
        }
        let distance = self.root_distance(local_clock_time, frequency_tolerance);
        let limit = distance_threshold.saturating_add(
            system_poll.as_duration().mul_tolerance(frequency_tolerance),
        );
        if distance.duration > limit.duration {
            return Err(AcceptSynchronizationError::Distance);
        }
        Ok(())
    }
}

/// The system's own timekeeping state.
#[derive(Debug, Clone, Copy, PartialEq, Eq, Structural)]
pub struct TimeSnapshot {
    /// Desired poll interval
    pub poll_interval: PollInterval,
    /// Precision of the local clock
    pub precision: NtpDuration,
    /// Current root delay
    pub root_delay: NtpDuration,
    /// Current root dispersion
    pub root_dispersion: NtpDuration,
    /// Current leap indicator state
    pub leap_indicator: NtpLeapIndicator,
    /// Total amount that the clock has stepped
    pub accumulated_steps: NtpDuration,
}

impl Default for TimeSnapshot {
    fn default() -> (r: TimeSnapshot)
        ensures
            r.poll_interval.0 == 4,
            r.precision.duration == exponent_duration(-18),
            r.root_delay.duration == 0,
            r.root_dispersion.duration == 0,
            r.leap_indicator is Unknown,
            r.accumulated_steps.duration == 0,
    {
        TimeSnapshot {
            poll_interval: PollInterval::default(),
            precision: NtpDuration::from_exponent(-18),
            root_delay: NtpDuration::zero(),
            root_dispersion: NtpDuration::zero(),
            leap_indicator: NtpLeapIndicator::Unknown,
            accumulated_steps: NtpDuration::zero(),
        }
    }
}

/// The system's identity and timekeeping, handed to every peer call.
#[derive(Debug, Clone, Copy)]
pub struct SystemSnapshot {
    /// Stratum of the local clock
    pub stratum: u8,
    /// Reference ID of current primary time source
    pub reference_id: ReferenceId,
    /// Crossing this amount of stepping makes the daemon give up
    pub accumulated_steps_threshold: Option<NtpDuration>,
    /// Timekeeping data
    pub time_snapshot: TimeSnapshot,
}

impl SystemSnapshot {
    /// Takes in new timekeeping data and configuration; the first of the
    /// peers in use, if any, becomes the system's source, one stratum below it.
    pub fn update(&mut self, used_peers: &[PeerSnapshot], timedata: TimeSnapshot, config: &SystemConfig)
        ensures
            final(self).time_snapshot == timedata,
            final(self).accumulated_steps_threshold == config.accumulated_threshold,
            used_peers@.len() == 0 ==> final(self).stratum == old(self).stratum
                && final(self).reference_id == old(self).reference_id,
            used_peers@.len() > 0 ==> final(self).stratum == (if used_peers@[0].stratum < 255 {
                used_peers@[0].stratum + 1
            } else {
                255
            }) && final(self).reference_id == used_peers@[0].reference_id,
    {
        self.time_snapshot = timedata;
        self.accumulated_steps_threshold = config.accumulated_threshold;
        if used_peers.len() > 0 {
            let source = used_peers[0];
            self.stratum = if source.stratum < 255 {
                source.stratum + 1
            } else {
                255
            };
            self.reference_id = source.reference_id;
        }
    }
}

impl Default for SystemSnapshot {
    fn default() -> (r: SystemSnapshot)
        ensures
            r.stratum == 16,
            r.reference_id.0 == REFERENCE_NONE,
            r.accumulated_steps_threshold is None,
            r.time_snapshot.poll_interval.0 == 4,
            r.time_snapshot.precision.duration == exponent_duration(-18),
            r.time_snapshot.leap_indicator is Unknown,
    {
        SystemSnapshot {
            stratum: 16,
            reference_id: ReferenceId::none(),
            accumulated_steps_threshold: None,
            time_snapshot: TimeSnapshot::default(),
        }
    }
}

/// Why an incoming packet was not used.
#[derive(Debug, Clone, Copy, PartialEq, Eq, Hash, Structural)]
pub enum IgnoreReason {
    /// The association mode is not one that this peer supports
    InvalidMode,
    /// The NTP version is not one that this implementation supports
    InvalidVersion,
    /// The stratum of the server is too high
    InvalidStratum,
    /// The packet does not answer our outstanding request, or came too late
    InvalidPacketTime,
    /// A Kiss-o'-Death that asks for no more than to be ignored (or to slow down)
    KissIgnore,
    /// A DENY or RSTR Kiss-o'-Death: the association must be demobilized
    KissDemobilize,
    /// The best packet is older than the peer's current time
    TooOld,
}

/// A point-in-time view of a peer's association, for admission.
#[derive(Debug, Clone, Copy, PartialEq, Eq, Structural)]
pub struct PeerSnapshot {
    pub peer_id: ReferenceId,
    pub our_id: ReferenceId,
    pub poll_interval: PollInterval,
    pub reach: Reach,
    pub stratum: u8,
    pub reference_id: ReferenceId,
}

impl PeerSnapshot {
    /// The peer-level admission rule, checked in this order: a stratum not
    /// below ours; a loop through us (not for stratum 1 sources); an
    /// unreachable server.
    pub open spec fn admission(self, local_stratum: u8) -> Result<(), AcceptSynchronizationError> {
        if self.stratum >= local_stratum {
            Err(AcceptSynchronizationError::Stratum)
        } else if self.stratum != 1 && self.reference_id == self.our_id {
            Err(AcceptSynchronizationError::Loop)
        } else if self.reach.0 == 0 {
            Err(AcceptSynchronizationError::ServerUnreachable)
        } else {
            Ok(())
        }
    }

    pub fn accept_synchronization(&self, local_stratum: u8) -> (r: Result<(), AcceptSynchronizationError>)
        ensures
            r == self.admission(local_stratum),
    {
        if self.stratum >= local_stratum {
            return Err(AcceptSynchronizationError::Stratum);
        }
        if self.stratum != 1 && self.reference_id.0 == self.our_id.0 {
            return Err(AcceptSynchronizationError::Loop);
        }
        if !self.reach.is_reachable() {
            return Err(AcceptSynchronizationError::ServerUnreachable);
        }
        Ok(())
    }

    pub fn from_peer(peer: &Peer) -> (r: PeerSnapshot)
        ensures
            r == snapshot_of(*peer),
    {
        PeerSnapshot {
            peer_id: peer.peer_id,
            our_id: peer.our_id,
            stratum: peer.stratum,
            reference_id: peer.reference_id,
            reach: peer.reach,
            poll_interval: peer.last_poll_interval,
        }
    }
}

/// The view of a peer that `PeerSnapshot::from_peer` takes.
pub open spec fn snapshot_of(peer: Peer) -> PeerSnapshot {
    PeerSnapshot {
        peer_id: peer.peer_id,
        our_id: peer.our_id,
        poll_interval: peer.last_poll_interval,
        reach: peer.reach,
        stratum: peer.stratum,
        reference_id: peer.reference_id,
    }
}

/// What an accepted packet hands to the rest of the system.
#[derive(Debug, Clone, Copy, PartialEq, Eq, Structural)]
pub enum Update {
    BareUpdate(PeerSnapshot),
    NewMeasurement(PeerSnapshot, Measurement, NtpPacket),
}

/// Whether a request is outstanding, and what its answer must echo.
#[derive(Debug, Clone, Copy, PartialEq, Eq, Structural)]
pub enum RequestState {
    Idle,
    AwaitingResponse { identifier: RequestIdentifier, expiry: NtpInstant },
}

/// One association with a remote time server.
#[derive(Debug, Clone, Copy)]
pub struct Peer {
    /// Poll interval dictated by unreachability backoff
    pub backoff_interval: PollInterval,
    /// Poll interval used when sending the last poll message
    pub last_poll_interval: PollInterval,
    /// The poll interval the server asks for; raised by the RATE kiss code
    pub remote_min_poll_interval: PollInterval,
    /// The outstanding request, matched against every response to guard
    /// against replay and reordering
    pub request: RequestState,
    pub stratum: u8,
    pub reference_id: ReferenceId,
    pub peer_id: ReferenceId,
    pub our_id: ReferenceId,
    pub reach: Reach,
    pub system_config: SystemConfig,
    /// Origin of the monotonic clock on which the answer window is measured
    pub clock_origin: std::time::Instant,
}

/// The poll interval of a peer: the longest of the system's, the backoff and
/// the server's minimum.
pub open spec fn poll_interval_of(peer: Peer, system: SystemSnapshot) -> PollInterval {
    longer(longer(system.time_snapshot.poll_interval, peer.backoff_interval), peer.remote_min_poll_interval)
}

/// The end of the window in which the answer to a request sent at `now` is
/// taken.
pub open spec fn expiry_after(now: NtpInstant) -> NtpInstant {
    NtpInstant {
        nanos: if now.nanos + POLL_WINDOW_NANOS > u64::MAX {
            u64::MAX
        } else {
            (now.nanos + POLL_WINDOW_NANOS) as u64
        },
    }
}

/// The peer after sending a poll whose answer must echo `identifier`.
pub open spec fn after_poll(
    peer: Peer,
    system: SystemSnapshot,
    config: SystemConfig,
    identifier: RequestIdentifier,
    expiry: NtpInstant,
) -> Peer {
    Peer {
        reach: Reach(polled(peer.reach.0, 1)),
        request: RequestState::AwaitingResponse { identifier, expiry },
        backoff_interval: stepped(poll_interval_of(peer, system), config.poll_limits),
        ..peer
    }
}

/// Whether `message` echoes the outstanding request, leaving time aside.
pub open spec fn answers_request(peer: Peer, message: NtpPacket) -> bool {
    match peer.request {
        RequestState::AwaitingResponse { identifier, expiry } => message.origin_timestamp
            == identifier.expected_origin_timestamp,
        RequestState::Idle => false,
    }
}

/// Whether `message` echoes the outstanding request within its window.
pub open spec fn answers_in_time(peer: Peer, message: NtpPacket, now: NtpInstant) -> bool {
    match peer.request {
        RequestState::AwaitingResponse { identifier, expiry } => expiry.nanos >= now.nanos
            && message.origin_timestamp == identifier.expected_origin_timestamp,
        RequestState::Idle => false,
    }
}

/// The reason, if any, to ignore a message; `matched` says whether it
/// answers the outstanding request in time.
pub open spec fn rejection(message: NtpPacket, matched: bool) -> Option<IgnoreReason> {
    let kiss = message.stratum == 0;
    let code = message.reference_id.0;
    if !matched {
        Some(IgnoreReason::InvalidPacketTime)
    } else if kiss && code == KISS_RATE {
        Some(IgnoreReason::KissIgnore)
    } else if kiss && (code == KISS_RSTR || code == KISS_DENY) {
        Some(IgnoreReason::KissDemobilize)
    } else if kiss {
        Some(IgnoreReason::KissIgnore)
    } else if message.stratum > MAX_STRATUM {
        Some(IgnoreReason::InvalidStratum)
    } else if !(message.mode is Server) {
        Some(IgnoreReason::InvalidMode)
    } else {
        None
    }
}

/// The peer after taking `message` as a valid answer.
pub open spec fn after_accept(peer: Peer, message: NtpPacket) -> Peer {
    Peer {
        reach: Reach(peer.reach.0 | 1u8),
        backoff_interval: peer.system_config.poll_limits.min,
        request: RequestState::Idle,
        stratum: message.stratum,
        reference_id: message.reference_id,
        ..peer
    }
}

/// The peer after handling `message`: a matched RATE kiss raises the server's
/// minimum poll interval, an accepted answer is taken, anything else leaves
/// the peer as it was.
pub open spec fn after_incoming(peer: Peer, message: NtpPacket, matched: bool) -> Peer {
    if matched && message.stratum == 0 && message.reference_id.0 == KISS_RATE {
        Peer {
            remote_min_poll_interval: longer(
                stepped(peer.remote_min_poll_interval, peer.system_config.poll_limits),
                peer.last_poll_interval,
            ),
            ..peer
        }
    } else if rejection(message, matched) is None {
        after_accept(peer, message)
    } else {
        peer
    }
}

/// What `handle_incoming` returns for `message`.
pub open spec fn incoming_result(
    peer: Peer,
    system: SystemSnapshot,
    message: NtpPacket,
    local_clock_time: NtpInstant,
    send_time: NtpTimestamp,
    recv_time: NtpTimestamp,
    matched: bool,
) -> Result<Update, IgnoreReason> {
    match rejection(message, matched) {
        Some(reason) => Err(reason),
        None => Ok(
            Update::NewMeasurement(
                snapshot_of(after_incoming(peer, message, matched)),
                measurement_of(
                    message,
                    send_time,
                    recv_time,
                    local_clock_time,
                    system.time_snapshot.precision,
                ),
                message,
            ),
        ),
    }
}

impl Peer {
    pub fn new(
        our_id: ReferenceId,
        peer_id: ReferenceId,
        local_clock_time: NtpInstant,
        system_config: SystemConfig,
    ) -> (r: Peer)
        ensures
            r == (Peer {
                backoff_interval: system_config.poll_limits.min,
                last_poll_interval: system_config.poll_limits.min,
                remote_min_poll_interval: system_config.poll_limits.min,
                request: RequestState::Idle,
                stratum: 16,
                reference_id: ReferenceId(REFERENCE_NONE),
                peer_id,
                our_id,
                reach: Reach(0),
                system_config,
                clock_origin: r.clock_origin,
            }),
    {
        Peer {
            last_poll_interval: system_config.poll_limits.min,
            backoff_interval: system_config.poll_limits.min,
            remote_min_poll_interval: system_config.poll_limits.min,
            request: RequestState::Idle,
            our_id,
            peer_id,
            reach: Reach(0),
            stratum: 16,
            reference_id: ReferenceId::none(),
            system_config,
            clock_origin: monotonic_now(),
        }
    }

    pub fn update_config(&mut self, system_config: SystemConfig)
        ensures
            *final(self) == (Peer { system_config, ..*old(self) }),
    {
        self.system_config = system_config;
    }

    /// The longest of the system's desired interval, the backoff interval
    /// and the server's minimum.
    pub fn current_poll_interval(&self, system: SystemSnapshot) -> (r: PollInterval)
        ensures
            r == poll_interval_of(*self, system),
            r.0 >= system.time_snapshot.poll_interval.0,
            r.0 >= self.backoff_interval.0,
            r.0 >= self.remote_min_poll_interval.0,
    {
        system.time_snapshot.poll_interval.longer(self.backoff_interval).longer(
            self.remote_min_poll_interval,
        )
    }

    /// Sends a poll at `now` with the given request: the register shifts,
    /// the request is remembered until its window closes, and the backoff
    /// grows one step.
    pub fn record_poll(
        &mut self,
        system: SystemSnapshot,
        system_config: &SystemConfig,
        identifier: RequestIdentifier,
        now: NtpInstant,
    )
        ensures
            *final(self) == after_poll(*old(self), system, *system_config, identifier, expiry_after(now)),
    {
        self.reach.poll();
        let poll_interval = self.current_poll_interval(system);
        self.request = RequestState::AwaitingResponse {
            identifier,
            expiry: now.add_nanos(POLL_WINDOW_NANOS),
        };
        self.backoff_interval = poll_interval.inc(system_config.poll_limits);
    }

    /// Builds the next poll request, with a fresh random identifier, and
    /// records it as outstanding from the present instant of the peer's
    /// monotonic clock.
    pub fn generate_poll_message(&mut self, system: SystemSnapshot, system_config: &SystemConfig) -> (r:
        NtpPacket)
        ensures
            r == crate::packet::poll_packet(poll_interval_of(*old(self), system), r.transmit_timestamp),
            exists|now: NtpInstant|
                *final(self) == after_poll(
                    *old(self),
                    system,
                    *system_config,
                    RequestIdentifier { expected_origin_timestamp: r.transmit_timestamp },
                    #[trigger] expiry_after(now),
                ),
    {
        let poll_interval = self.current_poll_interval(system);
        let (packet, identifier) = NtpPacket::poll_message(poll_interval);
        let now = NtpInstant::since_origin(&self.clock_origin);
        self.record_poll(system, system_config, identifier, now);
        packet
    }

    /// Handles a packet from the server, received when the clock reads
    /// `now`. Checks run in this order: the packet must answer the
    /// outstanding request within its window; a RATE kiss raises the
    /// server's minimum poll interval; RSTR and DENY kisses ask for
    /// demobilization; other kisses are ignored; the stratum must be at most
    /// 16 and the mode Server. An accepted packet yields a measurement.
    pub fn handle_incoming_at(
        &mut self,
        system: SystemSnapshot,
        message: NtpPacket,
        local_clock_time: NtpInstant,
        send_time: NtpTimestamp,
        recv_time: NtpTimestamp,
        now: NtpInstant,
    ) -> (r: Result<Update, IgnoreReason>)
        ensures
            r == incoming_result(
                *old(self),
                system,
                message,
                local_clock_time,
                send_time,
                recv_time,
                answers_in_time(*old(self), message, now),
            ),
            *final(self) == after_incoming(*old(self), message, answers_in_time(*old(self), message, now)),
    {
        let matched = match self.request {
            RequestState::AwaitingResponse { identifier, expiry } => expiry.nanos >= now.nanos
                && message.valid_server_response(identifier),
            RequestState::Idle => false,
        };
        if !matched {
            // Checked first: a kiss that answers no request of ours must not
            // be able to slow down or tear down the association.
            Err(IgnoreReason::InvalidPacketTime)
        } else if message.is_kiss_rate() {
            // The timestamps of a kiss are not trusted; only its code is used.
            let raised = self.remote_min_poll_interval.inc(self.system_config.poll_limits);
            self.remote_min_poll_interval = raised.longer(self.last_poll_interval);
            Err(IgnoreReason::KissIgnore)
        } else if message.is_kiss_rstr() || message.is_kiss_deny() {
            Err(IgnoreReason::KissDemobilize)
        } else if message.is_kiss() {
            Err(IgnoreReason::KissIgnore)
        } else if message.stratum() > MAX_STRATUM {
            Err(IgnoreReason::InvalidStratum)
        } else if !matches!(message.mode(), NtpAssociationMode::Server) {
            Err(IgnoreReason::InvalidMode)
        } else {
            Ok(self.process_message(system, message, local_clock_time, send_time, recv_time))
        }
    }

    /// Handles a packet from the server at the present instant of the peer's
    /// monotonic clock; see
    /// `handle_incoming_at`. A packet that does not echo the outstanding
    /// request is always ignored, whatever the time.
    pub fn handle_incoming(
        &mut self,
        system: SystemSnapshot,
        message: NtpPacket,
        local_clock_time: NtpInstant,
        send_time: NtpTimestamp,
        recv_time: NtpTimestamp,
    ) -> (r: Result<Update, IgnoreReason>)
        ensures
            (r == incoming_result(*old(self), system, message, local_clock_time, send_time, recv_time, false)
                && *final(self) == after_incoming(*old(self), message, false)) || (answers_request(
                *old(self),
                message,
            ) && r == incoming_result(
                *old(self),
                system,
                message,
                local_clock_time,
                send_time,
                recv_time,
                true,
            ) && *final(self) == after_incoming(*old(self), message, true)),
    {
        let now = NtpInstant::since_origin(&self.clock_origin);
        self.handle_incoming_at(system, message, local_clock_time, send_time, recv_time, now)
    }

    fn process_message(
        &mut self,
        system: SystemSnapshot,
        message: NtpPacket,
        local_clock_time: NtpInstant,
        send_time: NtpTimestamp,
        recv_time: NtpTimestamp,
    ) -> (r: Update)
        ensures
            *final(self) == after_accept(*old(self), message),
            r == Update::NewMeasurement(
                snapshot_of(*final(self)),
                measurement_of(message, send_time, recv_time, local_clock_time, system.time_snapshot.precision),
                message,
            ),
    {
        self.reach.received_packet();
        // An answer came, so no backoff is needed
        self.backoff_interval = self.system_config.poll_limits.min;
        // Answers that echo this request again are not taken
        self.request = RequestState::Idle;
        self.stratum = message.stratum();
        self.reference_id = message.reference_id();
        let measurement = Measurement::from_packet(
            &message,
            send_time,
            recv_time,
            local_clock_time,
            system.time_snapshot.precision,
        );
        Update::NewMeasurement(PeerSnapshot::from_peer(self), measurement, message)
    }

    /// Forgets the outstanding request, so that answers in flight are ignored.
    pub fn reset(&mut self)
        ensures
            *final(self) == (Peer { request: RequestState::Idle, ..*old(self) }),
    {
        self.request = RequestState::Idle;
    }

    /// A peer with default intervals and configuration, whose ids are both 0.
    pub fn test_peer() -> (r: Peer)
        ensures
            r == (Peer {
                backoff_interval: PollInterval(4),
                last_poll_interval: PollInterval(4),
                remote_min_poll_interval: PollInterval(4),
                request: RequestState::Idle,
                stratum: 0,
                reference_id: ReferenceId(0),
                peer_id: ReferenceId(0),
                our_id: ReferenceId(0),
                reach: Reach(0),
                system_config: r.system_config,
                clock_origin: r.clock_origin,
            }),
            r.system_config.poll_limits.min.0 == 4,
            r.system_config.poll_limits.max.0 == 10,
            r.system_config.frequency_tolerance.ppm == 15,
    {
        Peer {
            last_poll_interval: PollInterval::default(),
            backoff_interval: PollInterval::default(),
            remote_min_poll_interval: PollInterval::default(),
            request: RequestState::Idle,
            peer_id: ReferenceId::from_int(0),
            our_id: ReferenceId::from_int(0),
            reach: Reach(0),
            stratum: 0,
            reference_id: ReferenceId::from_int(0),
            system_config: SystemConfig::default(),
            clock_origin: monotonic_now(),
        }
    }
}

/// A packet that does not echo the outstanding request is ignored as
/// `InvalidPacketTime` and leaves the peer unchanged, whatever its other
/// fields and whenever it arrives.
pub proof fn lemma_unmatched_rejected(
    peer: Peer,
    system: SystemSnapshot,
    message: NtpPacket,
    local_clock_time: NtpInstant,
    send_time: NtpTimestamp,
    recv_time: NtpTimestamp,
    now: NtpInstant,
)
    requires
        !answers_request(peer, message),
    ensures
        !answers_in_time(peer, message, now),
        incoming_result(peer, system, message, local_clock_time, send_time, recv_time, false)
            == Err::<Update, IgnoreReason>(IgnoreReason::InvalidPacketTime),
        after_incoming(peer, message, false) == peer,
{
}

/// The server's minimum poll interval never decreases when a packet is
/// handled, whatever the packet and whether or not it matched.
pub proof fn lemma_remote_min_never_decreases(peer: Peer, message: NtpPacket, matched: bool)
    ensures
        after_incoming(peer, message, matched).remote_min_poll_interval.0
            >= peer.remote_min_poll_interval.0,
{
}

/// The peer after handling each of `messages` in turn, the i-th matching
/// the outstanding request when `matched[i]` holds.
pub open spec fn after_all(peer: Peer, messages: Seq<NtpPacket>, matched: Seq<bool>) -> Peer
    decreases messages.len(),
{
    if messages.len() == 0 || matched.len() == 0 {
        peer
    } else {
        after_all(after_incoming(peer, messages[0], matched[0]), messages.drop_first(), matched.drop_first())
    }
}

/// Over any sequence of packets, adversarial ones included, the server's
/// minimum poll interval never decreases.
pub proof fn lemma_remote_min_monotone(peer: Peer, messages: Seq<NtpPacket>, matched: Seq<bool>)
    ensures
        after_all(peer, messages, matched).remote_min_poll_interval.0 >= peer.remote_min_poll_interval.0,
    decreases messages.len(),
{
    if messages.len() > 0 && matched.len() > 0 {
        lemma_remote_min_never_decreases(peer, messages[0], matched[0]);
        lemma_remote_min_monotone(
            after_incoming(peer, messages[0], matched[0]),
            messages.drop_first(),
            matched.drop_first(),
        );
    }
}

/// Builds a server answer from raw fixed-point values and measures it, as
/// captured at instant zero; the delay is never negative.
pub fn fuzz_measurement_from_packet(
    client: u64,
    client_interval: u32,
    server: u64,
    server_interval: u32,
    client_precision: i8,
    server_precision: i8,
) -> (r: Measurement)
    ensures
        r.delay.duration >= 0,
        r.delay == measurement_of(
            fuzz_packet(client, server, server_interval, server_precision),
            NtpTimestamp { timestamp: client },
            NtpTimestamp { timestamp: wrapping_shift(client, client_interval as i64) as u64 },
            r.monotime,
            NtpDuration { duration: exponent_duration(client_precision as int) as i64 },
        ).delay,
{
    let mut packet = NtpPacket::test();
    packet.set_origin_timestamp(NtpTimestamp::from_fixed_int(client));
    packet.set_receive_timestamp(NtpTimestamp::from_fixed_int(server));
    packet.set_transmit_timestamp(
        NtpTimestamp::from_fixed_int(server).shifted(NtpDuration::from_fixed_int(server_interval as i64)),
    );
    packet.set_precision(server_precision);
    let send = NtpTimestamp::from_fixed_int(client);
    let recv = send.shifted(NtpDuration::from_fixed_int(client_interval as i64));
    Measurement::from_packet(
        &packet,
        send,
        recv,
        NtpInstant::from_nanos(0),
        NtpDuration::from_exponent(client_precision),
    )
}

/// The answer that `fuzz_measurement_from_packet` measures.
pub open spec fn fuzz_packet(client: u64, server: u64, server_interval: u32, server_precision: i8) -> NtpPacket {
    NtpPacket {
        origin_timestamp: NtpTimestamp { timestamp: client },
        receive_timestamp: NtpTimestamp { timestamp: server },
        transmit_timestamp: NtpTimestamp {
            timestamp: wrapping_shift(server, server_interval as i64) as u64,
        },
        precision: server_precision,
        ..blank_packet()
    }
}

} // verus!
