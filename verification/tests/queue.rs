use satlink::command::{Command, CommandExecutor, MAX_COMMAND_QUEUE_SIZE};
use satlink::gcs::GCS;

fn command(id: u32, priority: u8) -> Command {
    Command::new(id, "SET_MODE", priority, 0, 1_000_000)
}

#[test]
fn new_command_holds_what_it_was_given() {
    let c = Command::new(7, "PING", 3, 1234, 5678);
    assert_eq!(c.command_id, 7);
    assert_eq!(c.command_type, "PING");
    assert_eq!(c.priority, 3);
    assert_eq!(c.timestamp, 1234);
    assert_eq!(c.deadline, 5678);
}

#[test]
fn zero_deadline_is_overdue_after_any_delay() {
    let c = Command::new(1, "PING", 1, 1_000, 0);
    assert!(!c.is_overdue(1_000));
    assert!(c.is_overdue(1_001));
    assert!(c.is_overdue(u64::MAX));
}

#[test]
fn one_hour_deadline_is_not_overdue_at_once() {
    let hour: u64 = 3_600_000_000;
    let c = Command::new(1, "PING", 1, 1_000, hour);
    assert!(!c.is_overdue(1_000));
    assert!(!c.is_overdue(1_000 + hour));
    assert!(c.is_overdue(1_001 + hour));
}

#[test]
fn a_command_is_not_overdue_before_its_issue() {
    let c = Command::new(1, "PING", 1, 1_000, 0);
    assert!(!c.is_overdue(0));
    assert!(!c.is_overdue(999));
}

#[test]
fn priorities_5_1_5_3_dispatch_in_order_of_urgency_then_arrival() {
    let mut q = CommandExecutor::new();
    for (id, priority) in [(1, 5), (2, 1), (3, 5), (4, 3)] {
        assert_eq!(q.add_command(command(id, priority)), None);
    }
    let mut order = Vec::new();
    while let Some((c, _)) = q.dispatch_next(0) {
        order.push((c.command_id, c.priority));
    }
    assert_eq!(order, vec![(1, 5), (3, 5), (4, 3), (2, 1)]);
    assert_eq!(q.queue_len(), 0);
}

#[test]
fn equal_priorities_dispatch_in_order_of_arrival() {
    let mut q = CommandExecutor::new();
    for id in 1..=10 {
        q.add_command(command(id, 4));
    }
    let mut order = Vec::new();
    while let Some((c, _)) = q.dispatch_next(0) {
        order.push(c.command_id);
    }
    assert_eq!(order, (1..=10).collect::<Vec<u32>>());
}

#[test]
fn the_twenty_first_command_evicts_the_longest_resident() {
    let mut q = CommandExecutor::new();
    assert_eq!(q.add_command(command(1, 200)), None);
    assert_eq!(q.add_command(command(2, 0)), None);
    for id in 3..=20 {
        assert_eq!(q.add_command(command(id, 100)), None);
    }
    assert_eq!(q.queue_len(), MAX_COMMAND_QUEUE_SIZE);
    let evicted = q.add_command(command(21, 50));
    assert_eq!(evicted, Some(command(1, 200)));
    assert_eq!(q.queue_len(), MAX_COMMAND_QUEUE_SIZE);
    let evicted = q.add_command(command(22, 50));
    assert_eq!(evicted, Some(command(2, 0)));
    let mut remaining = Vec::new();
    while let Some((c, _)) = q.dispatch_next(0) {
        remaining.push(c.command_id);
    }
    let mut expected: Vec<u32> = (3..=20).collect();
    expected.extend([21, 22]);
    assert_eq!(remaining, expected);
}

#[test]
fn eviction_spares_the_least_urgent_command_if_it_is_not_the_oldest() {
    let mut q = CommandExecutor::new();
    for id in 1..=19 {
        q.add_command(command(id, 9));
    }
    q.add_command(command(20, 0));
    assert_eq!(q.add_command(command(21, 9)).map(|c| c.command_id), Some(1));
    let mut last = None;
    while let Some((c, _)) = q.dispatch_next(0) {
        last = Some(c.command_id);
    }
    assert_eq!(last, Some(20));
}

#[test]
fn dispatch_from_an_empty_queue_yields_nothing() {
    let mut q = CommandExecutor::new();
    assert_eq!(q.dispatch_next(0), None);
    assert_eq!(q.execute_next(0, 0), None);
    assert_eq!(q.queue_len(), 0);
}

#[test]
fn overdue_is_judged_at_dispatch() {
    let mut q = CommandExecutor::new();
    q.add_command(Command::new(1, "PING", 1, 100, 50));
    q.add_command(Command::new(2, "PING", 1, 100, 50));
    assert_eq!(q.dispatch_next(150).map(|(c, overdue)| (c.command_id, overdue)), Some((1, false)));
    assert_eq!(q.dispatch_next(151).map(|(c, overdue)| (c.command_id, overdue)), Some((2, true)));
}

#[test]
fn execution_records_are_exact() {
    let mut q = CommandExecutor::new();
    q.add_command(Command::new(4_000_000_123, "GET_STATUS", 2, 10, 5));
    q.add_command(Command::new(0, "PING", 9, 10, 500));
    let first = q.execute_next(20, 77).unwrap();
    assert_eq!(first.command_id, 0);
    assert_eq!(first.command_type, "PING");
    assert_eq!(first.executed_at, 20);
    assert_eq!(first.execution_time_us, 77);
    assert_eq!(first.result, "Executed command #0");
    assert!(!first.was_overdue);
    let second = q.execute_next(20, 1).unwrap();
    assert_eq!(second.command_id, 4_000_000_123);
    assert_eq!(second.result, "Executed command #4000000123");
    assert!(second.was_overdue);
    assert_eq!(q.execute_next(20, 1), None);
}

#[test]
fn execution_results_spell_the_identifier_in_decimal() {
    for id in [1u32, 9, 10, 11, 99, 100, 101, 1000, 65535, 1_000_000_007, u32::MAX] {
        let mut q = CommandExecutor::new();
        q.add_command(command(id, 1));
        let record = q.execute_next(0, 0).unwrap();
        assert_eq!(record.result, format!("Executed command #{}", id));
    }
}

#[test]
fn identifiers_are_handed_out_in_sequence_from_one() {
    let mut q = CommandExecutor::new();
    assert!(q.has_next_id());
    assert_eq!(q.get_next_id(), 1);
    assert_eq!(q.get_next_id(), 2);
    assert_eq!(q.get_next_id(), 3);
    assert_eq!(q.queue_len(), 0);
}

#[test]
fn the_station_counts_submitted_and_dispatched_commands() {
    let mut gcs = GCS::new(0);
    assert_eq!(gcs.submit_command(Command::new(1, "PING", 1, 0, 100)), None);
    assert_eq!(gcs.submit_command(Command::new(2, "SHUTDOWN", 9, 0, 100)), None);
    let (first, overdue) = gcs.dispatch_next(101).unwrap();
    assert_eq!(first.command_id, 2);
    assert!(overdue);
    assert!(gcs.record_dispatch(2001, overdue));
    let (second, overdue) = gcs.dispatch_next(100).unwrap();
    assert_eq!(second.command_id, 1);
    assert!(!overdue);
    assert!(!gcs.record_dispatch(2000, overdue));
    assert_eq!(gcs.dispatch_next(100), None);
    let s = gcs.report(0);
    assert_eq!(s.commands_received, 2);
    assert_eq!(s.commands_dispatched, 2);
    assert_eq!(s.commands_overdue, 1);
}

#[test]
fn the_station_hands_back_the_command_that_made_room() {
    let mut gcs = GCS::new(0);
    for id in 1..=20 {
        assert_eq!(gcs.submit_command(command(id, (id % 7) as u8)), None);
    }
    assert_eq!(gcs.submit_command(command(21, 0)).map(|c| c.command_id), Some(1));
    assert_eq!(gcs.report(0).commands_received, 21);
}
