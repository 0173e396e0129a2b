use satlink::fault::Fault;
use satlink::link::{GCSPerformanceMetrics, PacketReport};

const QUIET: PacketReport = PacketReport { decode_latency_exceeded: false, loss_of_contact: false };

#[test]
fn fresh_counters_are_all_zero() {
    let m = GCSPerformanceMetrics::new(1_000);
    let s = m.report(1_000);
    assert_eq!(s.elapsed_us, 0);
    assert_eq!(s.packets_received, 0);
    assert_eq!(s.valid_packets, 0);
    assert_eq!(s.invalid_packets, 0);
    assert_eq!(s.packets_lost, 0);
    assert_eq!(s.consecutive_lost, 0);
    assert_eq!(s.loss_of_contact_count, 0);
    assert_eq!(s.total_bytes_received, 0);
    assert_eq!(s.packets_per_second_x100, 0);
    assert_eq!(s.avg_decode_us, 0);
    assert_eq!(s.min_decode_us, u64::MAX);
    assert_eq!(s.max_decode_us, 0);
    assert_eq!(s.avg_jitter_us, 0);
    assert_eq!(s.avg_fault_response_ms, 0);
    assert_eq!(s.faults_detected, 0);
    assert!(s.realtime_constraints_met);
}

#[test]
fn three_losses_in_a_row_raise_loss_of_contact_once() {
    let mut m = GCSPerformanceMetrics::new(0);
    assert!(!m.record_packet_lost());
    assert!(!m.record_packet_lost());
    assert!(m.record_packet_lost());
    assert_eq!(m.report(0).loss_of_contact_count, 1);
    assert_eq!(m.consecutive_lost(), 3);
}

#[test]
fn a_fourth_loss_in_a_row_raises_nothing() {
    let mut m = GCSPerformanceMetrics::new(0);
    for _ in 0..3 {
        m.record_packet_lost();
    }
    assert!(!m.record_packet_lost());
    assert!(!m.record_packet_lost());
    let s = m.report(0);
    assert_eq!(s.loss_of_contact_count, 1);
    assert_eq!(s.consecutive_lost, 5);
    assert_eq!(s.packets_lost, 5);
}

#[test]
fn a_success_and_three_more_losses_raise_loss_of_contact_again() {
    let mut m = GCSPerformanceMetrics::new(0);
    let mut raised = 0;
    for _ in 0..4 {
        if m.record_packet_lost() {
            raised += 1;
        }
    }
    m.record_packet_ack();
    assert_eq!(m.consecutive_lost(), 0);
    for _ in 0..3 {
        if m.record_packet_lost() {
            raised += 1;
        }
    }
    assert_eq!(raised, 2);
    assert_eq!(m.report(0).loss_of_contact_count, 2);
}

#[test]
fn two_losses_then_a_success_raise_nothing() {
    let mut m = GCSPerformanceMetrics::new(0);
    assert!(!m.record_packet_lost());
    assert!(!m.record_packet_lost());
    m.record_packet_ack();
    assert!(!m.record_packet_lost());
    assert!(!m.record_packet_lost());
    assert_eq!(m.report(0).loss_of_contact_count, 0);
}

#[test]
fn invalid_packets_count_as_losses() {
    let mut m = GCSPerformanceMetrics::new(0);
    assert_eq!(m.record_packet_received(10, 5, 0, false, false, false), QUIET);
    assert_eq!(m.record_packet_received(20, 5, 0, false, false, false), QUIET);
    assert_eq!(
        m.record_packet_received(30, 5, 0, false, false, false),
        PacketReport { decode_latency_exceeded: false, loss_of_contact: true }
    );
    assert_eq!(m.record_packet_received(40, 5, 0, false, false, false), QUIET);
    let s = m.report(40);
    assert_eq!(s.packets_received, 4);
    assert_eq!(s.invalid_packets, 4);
    assert_eq!(s.valid_packets, 0);
    assert_eq!(s.packets_lost, 4);
    assert_eq!(s.consecutive_lost, 4);
    assert_eq!(s.loss_of_contact_count, 1);
}

#[test]
fn decode_latency_is_flagged_above_3000_microseconds_only() {
    let mut m = GCSPerformanceMetrics::new(0);
    assert!(!m.record_packet_received(0, 14, 3000, true, false, false).decode_latency_exceeded);
    assert!(m.record_packet_received(0, 14, 3001, true, false, false).decode_latency_exceeded);
    assert!(!m.record_packet_received(0, 14, 9000, false, false, false).decode_latency_exceeded);
}

#[test]
fn decode_latency_statistics_are_exact() {
    let mut m = GCSPerformanceMetrics::new(0);
    for latency in [120, 80, 400, 7] {
        m.record_packet_received(0, 14, latency, true, false, false);
    }
    m.record_packet_received(0, 3, 1, false, false, false);
    let s = m.report(0);
    assert_eq!(s.avg_decode_us, 151);
    assert_eq!(s.min_decode_us, 7);
    assert_eq!(s.max_decode_us, 400);
    assert_eq!(s.total_bytes_received, 59);
    assert!(s.realtime_constraints_met);
}

#[test]
fn realtime_constraints_are_met_below_3000_microseconds() {
    let mut m = GCSPerformanceMetrics::new(0);
    m.record_packet_received(0, 14, 2999, true, false, false);
    assert!(m.report(0).realtime_constraints_met);
    m.record_packet_received(0, 14, 3000, true, false, false);
    assert!(!m.report(0).realtime_constraints_met);
}

#[test]
fn jitter_is_the_distance_from_the_500_ms_cadence() {
    let mut m = GCSPerformanceMetrics::new(0);
    m.record_packet_received(1_000_000, 14, 10, true, false, false);
    assert_eq!(m.report(0).avg_jitter_us, 0);
    m.record_packet_received(1_500_000, 14, 10, true, false, false);
    assert_eq!(m.report(0).avg_jitter_us, 0);
    m.record_packet_received(2_100_000, 14, 10, true, false, false);
    assert_eq!(m.report(0).avg_jitter_us, 50_000);
    m.record_packet_received(2_400_000, 14, 10, true, false, false);
    assert_eq!(m.report(0).avg_jitter_us, 100_000);
    m.record_packet_received(2_400_000, 14, 10, true, false, false);
    assert_eq!(m.report(0).avg_jitter_us, 200_000);
}

#[test]
fn an_arrival_stamped_before_the_previous_one_counts_as_no_interval() {
    let mut m = GCSPerformanceMetrics::new(0);
    m.record_packet_received(5_000_000, 14, 10, true, false, false);
    m.record_packet_received(4_000_000, 14, 10, true, false, false);
    assert_eq!(m.report(0).avg_jitter_us, 500_000);
}

#[test]
fn edge_cases_and_critical_events_are_counted_apart() {
    let mut m = GCSPerformanceMetrics::new(0);
    m.record_packet_received(0, 14, 1, true, true, true);
    m.record_packet_received(0, 14, 1, true, true, false);
    m.record_packet_received(0, 14, 1, true, false, false);
    let s = m.report(0);
    assert_eq!(s.edge_cases_detected, 2);
    assert_eq!(s.critical_events, 1);
    assert_eq!(s.packets_received, 3);
}

#[test]
fn packet_rate_is_in_hundredths_per_second() {
    let mut m = GCSPerformanceMetrics::new(1_000_000);
    for _ in 0..3 {
        m.record_packet_received(0, 14, 1, true, false, false);
    }
    assert_eq!(m.report(3_000_000).packets_per_second_x100, 150);
    assert_eq!(m.report(3_000_000).elapsed_us, 2_000_000);
    assert_eq!(m.report(1_000_001).packets_per_second_x100, 300_000_000);
    assert_eq!(m.report(8_000_000).packets_per_second_x100, 42);
}

#[test]
fn packet_rate_is_zero_when_no_time_has_elapsed() {
    let mut m = GCSPerformanceMetrics::new(1_000_000);
    m.record_packet_received(0, 14, 1, true, false, false);
    assert_eq!(m.report(1_000_000).packets_per_second_x100, 0);
    assert_eq!(m.report(999_999).packets_per_second_x100, 0);
    assert_eq!(m.report(999_999).elapsed_us, 0);
}

#[test]
fn command_counters_follow_the_recordings() {
    let mut m = GCSPerformanceMetrics::new(0);
    m.record_command_received();
    m.record_command_received();
    assert!(!m.record_command_dispatched(2000, false));
    assert!(m.record_command_dispatched(2001, true));
    m.record_command_rejected("unknown command kind");
    let s = m.report(0);
    assert_eq!(s.commands_received, 2);
    assert_eq!(s.commands_dispatched, 2);
    assert_eq!(s.commands_overdue, 1);
    assert_eq!(s.commands_rejected, 1);
}

#[test]
fn fault_responses_are_flagged_above_100_ms_only() {
    let mut m = GCSPerformanceMetrics::new(0);
    assert!(!m.record_fault_response(100));
    assert!(m.record_fault_response(101));
    assert!(!m.record_fault_response(0));
    assert_eq!(m.report(0).avg_fault_response_ms, 67);
}

#[test]
fn faults_and_interlocks_are_counted() {
    let mut m = GCSPerformanceMetrics::new(0);
    m.record_fault(&Fault::HighTemperature(120));
    m.record_fault(&Fault::LowBattery(2000));
    m.record_fault(&Fault::AntennaMisalignment(-90));
    m.record_fault(&Fault::PacketLoss(1));
    m.record_fault(&Fault::LossOfContact);
    m.record_interlock("mode change refused while a fault is active");
    let s = m.report(0);
    assert_eq!(s.faults_detected, 5);
    assert_eq!(s.interlock_count, 1);
}

#[test]
fn averages_of_very_large_samples_do_not_overflow() {
    let mut m = GCSPerformanceMetrics::new(0);
    for _ in 0..4 {
        m.record_fault_response(u64::MAX);
        m.record_packet_received(0, 14, u64::MAX, true, false, false);
    }
    let s = m.report(0);
    assert_eq!(s.avg_fault_response_ms, u64::MAX as u128);
    assert_eq!(s.avg_decode_us, u64::MAX as u128);
}

#[test]
fn no_counter_decreases_over_a_mixed_run_of_recordings() {
    let mut m = GCSPerformanceMetrics::new(0);
    let mut before = m.report(0);
    for step in 0..200u64 {
        match step % 9 {
            0 => {
                m.record_packet_received(step * 400_000, 14, step, true, step % 2 == 0, false);
            }
            1 => {
                m.record_packet_received(step * 400_000, 5, 0, false, false, false);
            }
            2 => {
                m.record_packet_lost();
            }
            3 => m.record_packet_ack(),
            4 => m.record_command_received(),
            5 => {
                m.record_command_dispatched(step, step % 4 == 1);
            }
            6 => m.record_fault(&Fault::PacketLoss(1)),
            7 => {
                m.record_fault_response(step);
            }
            _ => m.record_interlock("held"),
        }
        let after = m.report(0);
        assert_eq!(after.packets_received, after.valid_packets + after.invalid_packets);
        assert!(after.packets_received >= before.packets_received);
        assert!(after.valid_packets >= before.valid_packets);
        assert!(after.invalid_packets >= before.invalid_packets);
        assert!(after.packets_lost >= before.packets_lost);
        assert!(after.loss_of_contact_count >= before.loss_of_contact_count);
        assert!(after.edge_cases_detected >= before.edge_cases_detected);
        assert!(after.critical_events >= before.critical_events);
        assert!(after.total_bytes_received >= before.total_bytes_received);
        assert!(after.max_decode_us >= before.max_decode_us);
        assert!(after.commands_received >= before.commands_received);
        assert!(after.commands_dispatched >= before.commands_dispatched);
        assert!(after.commands_overdue >= before.commands_overdue);
        assert!(after.faults_detected >= before.faults_detected);
        assert!(after.interlock_count >= before.interlock_count);
        before = after;
    }
}

#[test]
fn taking_a_report_changes_nothing() {
    let mut m = GCSPerformanceMetrics::new(0);
    m.record_packet_received(100, 14, 50, true, true, false);
    m.record_packet_lost();
    let first = m.report(500);
    let second = m.report(500);
    assert_eq!(first, second);
}

#[test]
fn room_checks_hold_for_fresh_counters() {
    let m = GCSPerformanceMetrics::new(0);
    assert!(m.can_record_packet(true));
    assert!(m.can_record_packet(false));
    assert!(m.can_record_loss());
    assert!(m.can_record_fault());
    assert!(m.can_record_dispatch());
    assert_eq!(m.packets_received(), 0);
}
