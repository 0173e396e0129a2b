use satlink::fault::Fault;
use satlink::gcs::{DatagramOutcome, FaultResponse, GCS};
use satlink::telemetry::Telemetry;

fn normal(timestamp_ms: u64) -> Telemetry {
    Telemetry { timestamp_ms, temperature: 20, battery_mv: 7998, antenna_angle: 2 }
}

#[test]
fn hundred_datagrams_with_one_truncated() {
    let mut gcs = GCS::new(0);
    let mut now = 0;
    for i in 0..50 {
        now += 500_000;
        let outcome = gcs.process_datagram(now, &normal(i).to_bytes(), 40);
        assert_eq!(outcome.telemetry, Some(normal(i)));
        assert_eq!(outcome.fault, None);
    }
    now += 500_000;
    let truncated = gcs.process_datagram(now, &normal(50).to_bytes()[..5], 40);
    assert_eq!(
        truncated,
        DatagramOutcome {
            telemetry: None,
            is_edge_case: false,
            is_critical: false,
            decode_latency_exceeded: false,
            fault: Some(Fault::PacketLoss(1)),
            report_due: false,
        }
    );
    for i in 0..49 {
        now += 500_000;
        gcs.process_datagram(now, &normal(51 + i).to_bytes(), 40);
    }
    let s = gcs.report(now);
    assert_eq!(s.packets_received, 100);
    assert_eq!(s.invalid_packets, 1);
    assert_eq!(s.valid_packets, 99);
    assert_eq!(s.loss_of_contact_count, 0);
    assert_eq!(s.packets_lost, 1);
    assert_eq!(s.consecutive_lost, 0);
    assert_eq!(s.faults_detected, 1);
    assert_eq!(s.total_bytes_received, 99 * 14 + 5);
    assert_eq!(s.avg_jitter_us, 0);
    assert_eq!(s.avg_decode_us, 40);
}

#[test]
fn three_receive_errors_then_a_success() {
    let mut gcs = GCS::new(0);
    assert_eq!(gcs.on_receive_error(10), None);
    assert_eq!(gcs.on_receive_error(20), None);
    assert_eq!(gcs.on_receive_error(30), Some(Fault::LossOfContact));
    assert_eq!(gcs.report(30).consecutive_lost, 3);
    let outcome = gcs.process_datagram(40, &normal(1).to_bytes(), 5);
    assert_eq!(outcome.fault, None);
    let s = gcs.report(40);
    assert_eq!(s.loss_of_contact_count, 1);
    assert_eq!(s.faults_detected, 1);
    assert_eq!(s.consecutive_lost, 0);
    assert_eq!(s.packets_lost, 3);
    assert_eq!(s.packets_received, 1);
}

#[test]
fn loss_of_contact_is_raised_once_per_run_of_errors() {
    let mut gcs = GCS::new(0);
    let mut raised = Vec::new();
    for i in 0..4 {
        raised.push(gcs.on_receive_error(i));
    }
    assert_eq!(raised, vec![None, None, Some(Fault::LossOfContact), None]);
    gcs.process_datagram(10, &normal(1).to_bytes(), 5);
    let mut again = Vec::new();
    for i in 0..3 {
        again.push(gcs.on_receive_error(20 + i));
    }
    assert_eq!(again, vec![None, None, Some(Fault::LossOfContact)]);
    assert_eq!(gcs.report(30).loss_of_contact_count, 2);
    assert_eq!(gcs.report(30).faults_detected, 2);
}

#[test]
fn truncated_datagrams_never_add_up_to_loss_of_contact() {
    let mut gcs = GCS::new(0);
    for i in 0..5 {
        let outcome = gcs.process_datagram(i, &[1, 2, 3], 0);
        assert_eq!(outcome.fault, Some(Fault::PacketLoss(1)));
    }
    let s = gcs.report(5);
    assert_eq!(s.invalid_packets, 5);
    assert_eq!(s.packets_lost, 5);
    assert_eq!(s.consecutive_lost, 1);
    assert_eq!(s.loss_of_contact_count, 0);
    assert_eq!(s.faults_detected, 5);
}

#[test]
fn a_critical_reading_raises_a_temperature_fault() {
    let mut gcs = GCS::new(0);
    let hot = Telemetry { timestamp_ms: 1, temperature: 125, battery_mv: 8000, antenna_angle: 0 };
    let outcome = gcs.process_datagram(1, &hot.to_bytes(), 3001);
    assert_eq!(
        outcome,
        DatagramOutcome {
            telemetry: Some(hot),
            is_edge_case: true,
            is_critical: true,
            decode_latency_exceeded: true,
            fault: Some(Fault::HighTemperature(125)),
            report_due: false,
        }
    );
    let s = gcs.report(1);
    assert_eq!(s.critical_events, 1);
    assert_eq!(s.edge_cases_detected, 1);
    assert_eq!(s.faults_detected, 1);
}

#[test]
fn a_low_battery_reading_is_reported_as_a_temperature_fault() {
    let mut gcs = GCS::new(0);
    let low = Telemetry { timestamp_ms: 1, temperature: 20, battery_mv: 2000, antenna_angle: 0 };
    let outcome = gcs.process_datagram(1, &low.to_bytes(), 1);
    assert_eq!(outcome.fault, Some(Fault::HighTemperature(20)));
}

#[test]
fn an_antenna_edge_case_raises_no_fault() {
    let mut gcs = GCS::new(0);
    let off = Telemetry { timestamp_ms: 1, temperature: 20, battery_mv: 8000, antenna_angle: 90 };
    let outcome = gcs.process_datagram(1, &off.to_bytes(), 1);
    assert!(outcome.is_edge_case);
    assert!(!outcome.is_critical);
    assert_eq!(outcome.fault, None);
    assert!(!gcs.fault_active());
}

#[test]
fn a_report_is_due_every_fifty_packets() {
    let mut gcs = GCS::new(0);
    let mut due = Vec::new();
    for i in 1..=120u64 {
        if gcs.process_datagram(i, &normal(i).to_bytes(), 1).report_due {
            due.push(i);
        }
    }
    assert_eq!(due, vec![50, 100]);
}

#[test]
fn process_decoded_agrees_with_process_datagram() {
    let mut a = GCS::new(0);
    let mut b = GCS::new(0);
    let bytes = normal(7).to_bytes();
    let from_bytes = a.process_datagram(9, &bytes, 12);
    let from_value = b.process_decoded(9, bytes.len(), Telemetry::from_bytes(&bytes), 12);
    assert_eq!(from_bytes, from_value);
    assert_eq!(a.report(9), b.report(9));
}

#[test]
fn the_response_clock_runs_from_the_first_unanswered_fault() {
    let mut gcs = GCS::new(0);
    assert!(!gcs.fault_active());
    assert_eq!(gcs.resolve_fault(5), None);
    gcs.process_datagram(1_000, &[0; 4], 0);
    assert!(gcs.fault_active());
    gcs.process_datagram(51_000, &[0; 4], 0);
    assert_eq!(gcs.resolve_fault(101_999), Some(FaultResponse { response_time_ms: 100, late: false }));
    assert!(!gcs.fault_active());
    assert_eq!(gcs.resolve_fault(200_000), None);
    gcs.process_datagram(300_000, &[0; 4], 0);
    assert_eq!(gcs.resolve_fault(401_000), Some(FaultResponse { response_time_ms: 101, late: true }));
    assert_eq!(gcs.report(401_000).avg_fault_response_ms, 100);
}

#[test]
fn room_checks_hold_for_a_fresh_station() {
    let gcs = GCS::new(0);
    assert!(gcs.can_process(true));
    assert!(gcs.can_process(false));
    assert!(gcs.can_take_receive_error());
    assert!(gcs.can_record_dispatch());
}

#[test]
fn the_station_counts_rejections_and_interlocks() {
    let mut gcs = GCS::new(0);
    gcs.reject_command("unknown command kind");
    gcs.reject_command("state conflict");
    gcs.record_interlock("mode change refused while a fault is active");
    let s = gcs.report(0);
    assert_eq!(s.commands_rejected, 2);
    assert_eq!(s.interlock_count, 1);
    assert_eq!(s.commands_received, 0);
}
