use satlink::telemetry::Telemetry;
use satlink::transmitter::{should_log, should_pause, AfterSend, Mode, Transmitter};

#[test]
fn a_normal_run_sends_nominal_readings_only() {
    let mut tx = Transmitter::new(0);
    for index in 0..200 {
        let out = tx.next_packet(Mode::Normal, index, index * 10, true);
        assert!(!out.is_edge_case);
        assert!(!out.telemetry.is_edge_case());
        assert_eq!(out.telemetry.timestamp_ms, index * 10);
        assert_eq!(out.packet, out.telemetry.to_bytes());
        assert_eq!(Telemetry::from_bytes(&out.packet), Some(out.telemetry));
    }
}

#[test]
fn an_edge_case_run_cycles_through_the_kinds_by_the_low_byte_of_the_turn() {
    let mut tx = Transmitter::new(0);
    for index in [0u64, 1, 2, 3, 4, 5, 6, 255, 256, 257, 1000] {
        let out = tx.next_packet(Mode::EdgeCase, index, 3, false);
        assert!(out.is_edge_case);
        let expected = tx.generator.generate_edge_case(3, (index % 256) as u8);
        assert_eq!(out.telemetry, expected);
        assert_eq!(out.packet, expected.to_bytes());
    }
    assert_eq!(tx.next_packet(Mode::EdgeCase, 256, 3, false).telemetry.temperature, -50);
    assert_eq!(tx.next_packet(Mode::EdgeCase, 255, 3, false).telemetry.battery_mv, 0);
}

#[test]
fn a_mixed_run_follows_the_draw() {
    let mut tx = Transmitter::new(0);
    let edge = tx.next_packet(Mode::Mixed, 4, 0, true);
    assert!(edge.is_edge_case);
    assert_eq!(edge.telemetry.antenna_angle, -90);
    let nominal = tx.next_packet(Mode::Mixed, 4, 0, false);
    assert!(!nominal.is_edge_case);
    assert!(!nominal.telemetry.is_edge_case());
}

#[test]
fn a_continuous_run_sends_an_edge_case_every_fifty_turns_but_not_at_the_start() {
    let mut tx = Transmitter::new(0);
    let mut edge_turns = Vec::new();
    for index in 0..=300u64 {
        let out = tx.next_packet(Mode::Continuous, index, 0, index % 2 == 0);
        if out.is_edge_case {
            edge_turns.push((index, out.telemetry.temperature, out.telemetry.battery_mv, out.telemetry.antenna_angle));
        }
    }
    assert_eq!(
        edge_turns,
        vec![
            (50, 20, 2000, 0),
            (100, 20, 8000, -90),
            (150, -50, 8000, 0),
            (200, 20, 2000, 0),
            (250, 20, 8000, -90),
            (300, -50, 8000, 0),
        ]
    );
}

#[test]
fn logging_follows_the_mode() {
    assert!(should_log(Mode::Normal, 0, 100, false));
    assert!(!should_log(Mode::Normal, 5, 100, false));
    assert!(should_log(Mode::Normal, 90, 100, false));
    assert!(should_log(Mode::Normal, 99, 100, false));
    assert!(!should_log(Mode::Normal, 98, 100, false));
    assert!(should_log(Mode::EdgeCase, 7, 100, true));
    assert!(should_log(Mode::Mixed, 7, 100, true));
    assert!(!should_log(Mode::Mixed, 7, 100, false));
    assert!(should_log(Mode::Mixed, 20, 100, false));
    assert!(!should_log(Mode::Mixed, 99, 100, false));
    assert!(should_log(Mode::Continuous, 0, 0, false));
    assert!(should_log(Mode::Continuous, 300, 0, false));
    assert!(!should_log(Mode::Continuous, 50, 0, true));
    assert!(!should_log(Mode::Normal, u64::MAX, 0, false));
}

#[test]
fn a_pause_follows_every_turn_but_the_last() {
    assert!(should_pause(Mode::Normal, 0, 3));
    assert!(should_pause(Mode::Normal, 1, 3));
    assert!(!should_pause(Mode::Normal, 2, 3));
    assert!(!should_pause(Mode::EdgeCase, 0, 1));
    assert!(!should_pause(Mode::Mixed, 0, 0));
    assert!(!should_pause(Mode::Mixed, u64::MAX, u64::MAX));
    assert!(should_pause(Mode::Continuous, 0, 0));
    assert!(should_pause(Mode::Continuous, u64::MAX, 0));
}

#[test]
fn sent_packets_are_counted_once() {
    let mut tx = Transmitter::new(0);
    let out = tx.next_packet(Mode::EdgeCase, 0, 0, false);
    assert_eq!(tx.metrics.packets_sent, 0);
    assert!(tx.can_record_sent(120, out.packet.len(), out.is_edge_case));
    let next = tx.record_sent(Mode::EdgeCase, 0, 2, 120, out.packet.len(), out.is_edge_case);
    assert_eq!(next, AfterSend { log: true, pause: true });
    assert_eq!(tx.metrics.packets_sent, 1);
    assert_eq!(tx.metrics.total_bytes_sent, 14);
    assert_eq!(tx.metrics.send_latency_us, 120);
    assert_eq!(tx.metrics.edge_case_count, 1);
    let next = tx.record_sent(Mode::Normal, 1, 2, 80, 14, false);
    assert_eq!(next, AfterSend { log: true, pause: false });
    assert_eq!(tx.metrics.packets_sent, 2);
    assert_eq!(tx.metrics.edge_case_count, 1);
}

#[test]
fn a_failed_send_counts_nothing() {
    let tx = Transmitter::new(0);
    assert_eq!(tx.send_failed(Mode::Normal, 0, 5), AfterSend { log: false, pause: true });
    assert_eq!(tx.send_failed(Mode::Normal, 4, 5), AfterSend { log: false, pause: false });
    assert_eq!(tx.metrics.packets_sent, 0);
}
