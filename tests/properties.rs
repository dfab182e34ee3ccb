use ntp_proto::{
    fuzz_measurement_from_packet, AcceptSynchronizationError, FrequencyTolerance, IgnoreReason,
    NtpAssociationMode, NtpDuration, NtpInstant, NtpLeapIndicator, NtpPacket, NtpTimestamp, Peer,
    PeerSnapshot, PeerStatistics, PeerTimeSnapshot, PeerTimeState, PollInterval,
    PollIntervalLimits, Reach, ReferenceId, RequestIdentifier, RequestState, SystemConfig,
    SystemSnapshot, TimeSnapshot, Update,
};

fn server_answer(origin: u64) -> NtpPacket {
    let mut packet = NtpPacket::test();
    packet.set_stratum(1);
    packet.set_mode(NtpAssociationMode::Server);
    packet.set_origin_timestamp(NtpTimestamp::from_fixed_int(origin));
    packet.set_receive_timestamp(NtpTimestamp::from_fixed_int(100));
    packet.set_transmit_timestamp(NtpTimestamp::from_fixed_int(200));
    packet
}

fn polled_peer(origin: u64, now: NtpInstant) -> Peer {
    let mut peer = Peer::test_peer();
    let identifier = RequestIdentifier {
        expected_origin_timestamp: NtpTimestamp::from_fixed_int(origin),
    };
    peer.record_poll(SystemSnapshot::default(), &SystemConfig::default(), identifier, now);
    peer
}

#[test]
fn eight_polls_make_any_register_unreachable() {
    for bits in 0..=255u8 {
        let mut reach = Reach(bits);
        for _ in 0..8 {
            reach.poll();
        }
        assert!(!reach.is_reachable());
    }
}

#[test]
fn fewer_polls_keep_a_fresh_answer() {
    for k in 0..8 {
        let mut reach = Reach(0b1000_0000);
        reach.received_packet();
        for _ in 0..k {
            reach.poll();
        }
        assert!(reach.is_reachable());
    }
    let mut reach = Reach(0b1000_0000);
    reach.poll();
    assert!(!reach.is_reachable());
}

#[test]
fn reach_counters() {
    let reach = Reach(0b0000_0100);
    assert_eq!(reach.unanswered_polls(), 5);
    assert_eq!(reach.reachability_score(), 6);
    assert_eq!(Reach(0).unanswered_polls(), 8);
    assert_eq!(Reach(0).reachability_score(), 0);
    assert_eq!(Reach(1).reachability_score(), 8);
}

#[test]
fn poll_interval_is_at_least_each_input() {
    for desired in [0i8, 4, 7, 10, 17] {
        for backoff in [0i8, 4, 9, 12] {
            for remote in [0i8, 5, 10, 20] {
                let mut peer = Peer::test_peer();
                peer.backoff_interval = PollInterval(backoff);
                peer.remote_min_poll_interval = PollInterval(remote);
                let mut system = SystemSnapshot::default();
                system.time_snapshot.poll_interval = PollInterval(desired);
                let p = peer.current_poll_interval(system);
                assert!(p.0 >= desired && p.0 >= backoff && p.0 >= remote);
                assert_eq!(p.0, desired.max(backoff).max(remote));
            }
        }
    }
}

#[test]
fn mismatched_origin_is_always_invalid_packet_time() {
    let now = NtpInstant::from_nanos(1_000);
    let refs = [
        ReferenceId::kiss_rate(),
        ReferenceId::kiss_deny(),
        ReferenceId::kiss_rstr(),
        ReferenceId::from_int(7),
    ];
    for stratum in [0u8, 1, 2, 16, 17, 255] {
        for reference in refs {
            for mode in [NtpAssociationMode::Server, NtpAssociationMode::Client] {
                let mut peer = polled_peer(77, now);
                let before = peer.remote_min_poll_interval;
                let mut packet = server_answer(78);
                packet.set_stratum(stratum);
                packet.set_reference_id(reference);
                packet.set_mode(mode);
                let r = peer.handle_incoming_at(
                    SystemSnapshot::default(),
                    packet,
                    now,
                    NtpTimestamp::from_fixed_int(0),
                    NtpTimestamp::from_fixed_int(400),
                    now,
                );
                assert_eq!(r, Err(IgnoreReason::InvalidPacketTime));
                assert_eq!(peer.remote_min_poll_interval, before);
            }
        }
    }
}

#[test]
fn answer_after_window_is_rejected() {
    let sent = NtpInstant::from_nanos(1_000);
    let mut peer = polled_peer(77, sent);
    let r = peer.handle_incoming_at(
        SystemSnapshot::default(),
        server_answer(77),
        sent,
        NtpTimestamp::from_fixed_int(0),
        NtpTimestamp::from_fixed_int(400),
        sent.add_nanos(5_000_000_001),
    );
    assert_eq!(r, Err(IgnoreReason::InvalidPacketTime));

    let mut peer = polled_peer(77, sent);
    let r = peer.handle_incoming_at(
        SystemSnapshot::default(),
        server_answer(77),
        sent,
        NtpTimestamp::from_fixed_int(0),
        NtpTimestamp::from_fixed_int(400),
        sent.add_nanos(5_000_000_000),
    );
    assert!(r.is_ok());
}

#[test]
fn remote_minimum_never_decreases() {
    let now = NtpInstant::from_nanos(0);
    let mut peer = polled_peer(5, now);
    let mut previous = peer.remote_min_poll_interval;
    for round in 0..20u64 {
        let identifier = RequestIdentifier {
            expected_origin_timestamp: NtpTimestamp::from_fixed_int(round),
        };
        peer.record_poll(SystemSnapshot::default(), &SystemConfig::default(), identifier, now);
        let mut packet = server_answer(round + (round % 3));
        packet.set_stratum(0);
        packet.set_reference_id(if round % 2 == 0 {
            ReferenceId::kiss_rate()
        } else {
            ReferenceId::kiss_deny()
        });
        let _ = peer.handle_incoming_at(
            SystemSnapshot::default(),
            packet,
            now,
            NtpTimestamp::from_fixed_int(0),
            NtpTimestamp::from_fixed_int(1),
            now,
        );
        assert!(peer.remote_min_poll_interval >= previous);
        previous = peer.remote_min_poll_interval;
    }
    assert_eq!(peer.remote_min_poll_interval, PollInterval(8));
}

#[test]
fn accepted_answer_yields_measurement() {
    let now = NtpInstant::from_nanos(50);
    let mut peer = polled_peer(77, now);
    let r = peer.handle_incoming_at(
        SystemSnapshot::default(),
        server_answer(77),
        now,
        NtpTimestamp::from_fixed_int(0),
        NtpTimestamp::from_fixed_int(400),
        now,
    );
    match r {
        Ok(Update::NewMeasurement(snapshot, measurement, packet)) => {
            assert_eq!(snapshot.stratum, 1);
            // the round trip of 300 is below the local precision of 2^-18 s
            assert_eq!(measurement.delay, NtpDuration::from_fixed_int(1 << 14));
            assert_eq!(measurement.offset, NtpDuration::from_fixed_int(-50));
            assert_eq!(measurement.localtime, NtpTimestamp::from_fixed_int(200));
            assert_eq!(measurement.monotime, now);
            assert_eq!(packet, server_answer(77));
        }
        _ => panic!("answer not accepted"),
    }
    assert_eq!(peer.stratum, 1);
    assert_eq!(peer.request, RequestState::Idle);
    assert_eq!(peer.backoff_interval, PollInterval(4));
    assert!(peer.reach.is_reachable());
}

#[test]
fn stratum_bounds() {
    let now = NtpInstant::from_nanos(0);
    let mut peer = polled_peer(9, now);
    let mut packet = server_answer(9);
    packet.set_stratum(17);
    let r = peer.handle_incoming_at(
        SystemSnapshot::default(),
        packet,
        now,
        NtpTimestamp::from_fixed_int(0),
        NtpTimestamp::from_fixed_int(400),
        now,
    );
    assert_eq!(r, Err(IgnoreReason::InvalidStratum));

    // stratum 0 marks a kiss; with no known code it is ignored as such
    packet.set_stratum(0);
    let r = peer.handle_incoming_at(
        SystemSnapshot::default(),
        packet,
        now,
        NtpTimestamp::from_fixed_int(0),
        NtpTimestamp::from_fixed_int(400),
        now,
    );
    assert_eq!(r, Err(IgnoreReason::KissIgnore));

    packet.set_stratum(16);
    let r = peer.handle_incoming_at(
        SystemSnapshot::default(),
        packet,
        now,
        NtpTimestamp::from_fixed_int(0),
        NtpTimestamp::from_fixed_int(400),
        now,
    );
    assert!(r.is_ok());
}

#[test]
fn wrong_mode_is_invalid_mode() {
    let now = NtpInstant::from_nanos(0);
    let mut peer = polled_peer(9, now);
    let mut packet = server_answer(9);
    packet.set_mode(NtpAssociationMode::SymmetricActive);
    let r = peer.handle_incoming_at(
        SystemSnapshot::default(),
        packet,
        now,
        NtpTimestamp::from_fixed_int(0),
        NtpTimestamp::from_fixed_int(400),
        now,
    );
    assert_eq!(r, Err(IgnoreReason::InvalidMode));
}

#[test]
fn rate_kiss_raises_remote_minimum() {
    let now = NtpInstant::from_nanos(0);
    let mut peer = polled_peer(9, now);
    let before = peer.remote_min_poll_interval;
    let mut packet = server_answer(9);
    packet.set_stratum(0);
    packet.set_reference_id(ReferenceId::kiss_rate());
    let r = peer.handle_incoming_at(
        SystemSnapshot::default(),
        packet,
        now,
        NtpTimestamp::from_fixed_int(0),
        NtpTimestamp::from_fixed_int(400),
        now,
    );
    assert_eq!(r, Err(IgnoreReason::KissIgnore));
    assert!(peer.remote_min_poll_interval > before);
    assert_eq!(peer.remote_min_poll_interval, PollInterval(5));
}

#[test]
fn deny_and_rstr_demobilize_only_when_matched() {
    let now = NtpInstant::from_nanos(0);
    for code in [ReferenceId::kiss_deny(), ReferenceId::kiss_rstr()] {
        let mut packet = server_answer(9);
        packet.set_stratum(0);
        packet.set_reference_id(code);

        let mut peer = polled_peer(9, now);
        let r = peer.handle_incoming_at(
            SystemSnapshot::default(),
            packet,
            now,
            NtpTimestamp::from_fixed_int(0),
            NtpTimestamp::from_fixed_int(400),
            now,
        );
        assert_eq!(r, Err(IgnoreReason::KissDemobilize));

        let mut fresh = Peer::test_peer();
        let r = fresh.handle_incoming_at(
            SystemSnapshot::default(),
            packet,
            now,
            NtpTimestamp::from_fixed_int(0),
            NtpTimestamp::from_fixed_int(400),
            now,
        );
        assert_eq!(r, Err(IgnoreReason::InvalidPacketTime));
    }
}

#[test]
fn reset_drops_outstanding_request() {
    let now = NtpInstant::from_nanos(0);
    let mut peer = polled_peer(9, now);
    peer.reset();
    assert_eq!(peer.request, RequestState::Idle);
    let r = peer.handle_incoming_at(
        SystemSnapshot::default(),
        server_answer(9),
        now,
        NtpTimestamp::from_fixed_int(0),
        NtpTimestamp::from_fixed_int(400),
        now,
    );
    assert_eq!(r, Err(IgnoreReason::InvalidPacketTime));
}

#[test]
fn poll_records_request_and_backs_off() {
    let now = NtpInstant::from_nanos(10);
    let mut peer = Peer::test_peer();
    peer.reach.received_packet();
    let packet = peer.generate_poll_message(SystemSnapshot::default(), &SystemConfig::default());
    assert_eq!(peer.reach, Reach(0b10));
    assert_eq!(peer.backoff_interval, PollInterval(5));
    assert_eq!(packet.poll, 4);
    assert_eq!(packet.mode, NtpAssociationMode::Client);
    match peer.request {
        RequestState::AwaitingResponse { identifier, .. } => {
            assert_eq!(identifier.expected_origin_timestamp, packet.transmit_timestamp())
        }
        RequestState::Idle => panic!("no request recorded"),
    }

    let peer = polled_peer(3, now);
    assert_eq!(
        peer.request,
        RequestState::AwaitingResponse {
            identifier: RequestIdentifier {
                expected_origin_timestamp: NtpTimestamp::from_fixed_int(3)
            },
            expiry: NtpInstant::from_nanos(5_000_000_010),
        }
    );
}

#[test]
fn poll_identifiers_are_fresh() {
    let (a, ida) = NtpPacket::poll_message(PollInterval(4));
    let (b, idb) = NtpPacket::poll_message(PollInterval(4));
    assert_ne!(a.transmit_timestamp(), b.transmit_timestamp());
    assert_eq!(ida.expected_origin_timestamp, a.transmit_timestamp());
    assert_eq!(idb.expected_origin_timestamp, b.transmit_timestamp());
}

#[test]
fn answer_window_runs_on_the_peer_clock() {
    // the peer's clock starts at its creation, so a poll sent at once
    // expires about five seconds after that origin
    let mut peer = Peer::test_peer();
    let packet = peer.generate_poll_message(SystemSnapshot::default(), &SystemConfig::default());
    match peer.request {
        RequestState::AwaitingResponse { identifier, expiry } => {
            assert_eq!(identifier.expected_origin_timestamp, packet.transmit_timestamp());
            assert!(expiry.nanos >= 5_000_000_000);
            assert!(expiry.nanos < 65_000_000_000);
        }
        RequestState::Idle => panic!("no request recorded"),
    }
}

#[test]
fn peer_admission_order() {
    let mut peer = Peer::new(
        ReferenceId::from_int(1),
        ReferenceId::from_int(2),
        NtpInstant::from_nanos(0),
        SystemConfig::default(),
    );
    assert_eq!(peer.stratum, 16);
    assert_eq!(peer.reference_id, ReferenceId::none());
    peer.stratum = 3;
    peer.reference_id = ReferenceId::from_int(1);
    // a loop is reported before unreachability
    assert_eq!(
        PeerSnapshot::from_peer(&peer).accept_synchronization(16),
        Err(AcceptSynchronizationError::Loop)
    );
    // stratum 1 sources are not checked for loops
    peer.stratum = 1;
    assert_eq!(
        PeerSnapshot::from_peer(&peer).accept_synchronization(16),
        Err(AcceptSynchronizationError::ServerUnreachable)
    );
    peer.reach.received_packet();
    assert_eq!(PeerSnapshot::from_peer(&peer).accept_synchronization(16), Ok(()));
    assert_eq!(
        PeerSnapshot::from_peer(&peer).accept_synchronization(1),
        Err(AcceptSynchronizationError::Stratum)
    );
}

#[test]
fn time_admission_accepts_close_source() {
    let now = NtpInstant::from_nanos(0);
    let mut timestate = PeerTimeState::test_timestate(now);
    timestate.last_packet.set_leap(NtpLeapIndicator::NoWarning);
    let snapshot = PeerTimeSnapshot::from_timestate(&timestate);
    assert_eq!(
        snapshot.root_distance_without_time,
        NtpDuration::from_fixed_int(21474836)
    );
    assert_eq!(
        snapshot.accept_synchronization(
            now,
            FrequencyTolerance::ppm(15),
            NtpDuration::one(),
            PollInterval(4)
        ),
        Ok(())
    );
}

#[test]
fn root_distance_formula() {
    let mut packet = NtpPacket::test();
    packet.set_root_delay(NtpDuration::from_fixed_int(100_000_000));
    packet.set_root_dispersion(NtpDuration::from_fixed_int(1_000));
    let state = PeerTimeState {
        statistics: PeerStatistics {
            delay: NtpDuration::from_fixed_int(20_000_000),
            dispersion: NtpDuration::from_fixed_int(300),
            jitter: NtpDuration::from_fixed_int(40),
            ..Default::default()
        },
        last_packet: packet,
        time: NtpInstant::from_nanos(0),
    };
    assert_eq!(
        state.root_distance_without_time(),
        NtpDuration::from_fixed_int(60_000_000 + 1_000 + 300 + 40)
    );
    // one second at 15 ppm: 2^32 * 15 / 10^6, rounded down
    assert_eq!(
        state.root_distance(NtpInstant::from_nanos(1_000_000_000), FrequencyTolerance::ppm(15)),
        NtpDuration::from_fixed_int(60_000_000 + 1_340 + 64424)
    );
}

#[test]
fn minimum_dispersion_floors_half_delay() {
    // half of the total delay (15 000 000) is below the 5 ms floor
    let mut packet = NtpPacket::test();
    packet.set_root_delay(NtpDuration::from_fixed_int(30_000_000));
    let state = PeerTimeState {
        last_packet: packet,
        ..PeerTimeState::test_timestate(NtpInstant::from_nanos(0))
    };
    assert_eq!(state.root_distance_without_time(), NtpDuration::from_fixed_int(21474836));

    // above the floor, the half delay counts as it is
    packet.set_root_delay(NtpDuration::from_fixed_int(50_000_000));
    packet.set_root_dispersion(NtpDuration::from_fixed_int(7));
    let state = PeerTimeState {
        last_packet: packet,
        ..PeerTimeState::test_timestate(NtpInstant::from_nanos(0))
    };
    assert_eq!(state.root_distance_without_time(), NtpDuration::from_fixed_int(25_000_007));
}

#[test]
fn duration_arithmetic() {
    assert_eq!(NtpDuration::from_exponent(0), NtpDuration::one());
    assert_eq!(NtpDuration::from_exponent(-32), NtpDuration::from_fixed_int(1));
    assert_eq!(NtpDuration::from_exponent(-33), NtpDuration::zero());
    assert_eq!(NtpDuration::from_exponent(30), NtpDuration::from_fixed_int(1 << 62));
    assert_eq!(NtpDuration::from_exponent(31), NtpDuration::from_fixed_int(i64::MAX));
    assert_eq!(NtpDuration::from_fixed_int(-7).half(), NtpDuration::from_fixed_int(-3));
    assert_eq!(
        NtpDuration::from_fixed_int(i64::MAX).saturating_add(NtpDuration::one()),
        NtpDuration::from_fixed_int(i64::MAX)
    );
    assert_eq!(
        NtpDuration::from_fixed_int(i64::MAX).mean(NtpDuration::from_fixed_int(i64::MAX)),
        NtpDuration::from_fixed_int(i64::MAX)
    );
    assert_eq!(
        NtpDuration::one().mul_tolerance(FrequencyTolerance::ppm(15)),
        NtpDuration::from_fixed_int(64424)
    );
    assert_eq!(
        NtpInstant::abs_diff(NtpInstant::from_nanos(3_000_000_000), NtpInstant::from_nanos(1_000_000_000)),
        NtpDuration::from_fixed_int(2 << 32)
    );
    assert_eq!(PollInterval(10).inc(PollIntervalLimits::default()), PollInterval(10));
    assert_eq!(PollInterval(9).inc(PollIntervalLimits::default()), PollInterval(10));
    assert_eq!(PollInterval(6).as_duration(), NtpDuration::from_fixed_int(64 << 32));
}

#[test]
fn timestamps_wrap() {
    let late = NtpTimestamp::from_fixed_int(u64::MAX);
    let early = NtpTimestamp::from_fixed_int(1);
    assert_eq!(early.since(late), NtpDuration::from_fixed_int(2));
    assert_eq!(late.since(early), NtpDuration::from_fixed_int(-2));
    assert_eq!(late.shifted(NtpDuration::from_fixed_int(2)), early);
}

#[test]
fn fuzz_delay_is_never_negative() {
    for (client, ci, server, si, cp, sp) in [
        (0u64, 0u32, 0u64, u32::MAX, -128i8, 0i8),
        (u64::MAX, 10, 5, 0, 127, -20),
        (1 << 63, u32::MAX, 3, 7, -32, 5),
    ] {
        let m = fuzz_measurement_from_packet(client, ci, server, si, cp, sp);
        assert!(m.delay >= NtpDuration::zero());
    }
}

#[test]
fn system_snapshot_update_takes_first_peer() {
    let mut system = SystemSnapshot::default();
    let mut peer = Peer::test_peer();
    peer.stratum = 2;
    peer.reference_id = ReferenceId::from_int(99);
    let used = [PeerSnapshot::from_peer(&peer)];
    let mut config = SystemConfig::default();
    config.accumulated_threshold = Some(NtpDuration::one());
    system.update(&used, TimeSnapshot::default(), &config);
    assert_eq!(system.stratum, 3);
    assert_eq!(system.reference_id, ReferenceId::from_int(99));
    assert_eq!(system.accumulated_steps_threshold, Some(NtpDuration::one()));

    system.update(&[], TimeSnapshot::default(), &SystemConfig::default());
    assert_eq!(system.stratum, 3);
    assert_eq!(system.accumulated_steps_threshold, None);
}

#[test]
fn time_state_update_and_reset() {
    let mut state = PeerTimeState::test_timestate(NtpInstant::from_nanos(5));
    let packet = server_answer(1);
    assert_eq!(state.update(packet, None), None);
    assert_eq!(state, PeerTimeState::test_timestate(NtpInstant::from_nanos(5)));
    let stats = PeerStatistics {
        delay: NtpDuration::one(),
        ..Default::default()
    };
    assert_eq!(state.update(packet, Some((stats, NtpInstant::from_nanos(9)))), Some(()));
    assert_eq!(state.statistics, stats);
    assert_eq!(state.time, NtpInstant::from_nanos(9));
    state.reset_measurements();
    assert_eq!(state, PeerTimeState::test_timestate(NtpInstant::from_nanos(9)));
}
