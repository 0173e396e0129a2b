//! Performance counters of the spacecraft side.

use crate::timing::{elapsed, elapsed_between, rate_per_second_x100, rate_x100};
use vstd::prelude::*;

verus! {

/// Average scheduling drifts of this many microseconds or more, early or
/// late, are excessive.
pub const DRIFT_LIMIT_US: i128 = 1000;

/// The spacecraft side's counters.
pub struct PerformanceMetrics {
    pub packets_sent: u64,
    pub total_bytes_sent: u64,
    /// Sum of the send latencies of all packets, in microseconds.
    pub send_latency_us: u128,
    /// Smallest send latency seen; `u128::MAX` before the first packet.
    pub min_latency_us: u128,
    pub max_latency_us: u128,
    pub edge_case_count: u64,
    /// Instant at which counting began, in microseconds.
    pub start_time: u64,
    pub commands_received: u64,
    pub commands_executed: u64,
    pub commands_overdue: u64,
    pub faults_injected: u64,
    pub safety_alerts: u64,
    pub recovery_times_ms: Vec<u128>,
    pub scheduling_drift_us: Vec<i128>,
}

/// A point-in-time report of the spacecraft side's counters, with the
/// averages and rates derived from them.
#[derive(Debug, Clone, Copy, PartialEq, Eq, Structural)]
pub struct PerformanceReport {
    /// Microseconds since counting began.
    pub elapsed_us: u64,
    pub packets_sent: u64,
    pub total_bytes_sent: u64,
    /// Packets sent per second, in hundredths.
    pub packets_per_second_x100: u128,
    pub avg_latency_us: u128,
    pub min_latency_us: u128,
    pub max_latency_us: u128,
    pub edge_case_count: u64,
    pub commands_received: u64,
    pub commands_executed: u64,
    pub commands_overdue: u64,
    pub faults_injected: u64,
    pub safety_alerts: u64,
    pub avg_recovery_ms: u128,
    pub avg_drift_us: i128,
    /// The average drift is less than a millisecond, early or late.
    pub drift_within_bounds: bool,
}

/// The sum of a list of durations.
pub open spec fn total_duration(samples: Seq<u128>) -> nat
    decreases samples.len(),
{
    if samples.len() == 0 {
        0
    } else {
        total_duration(samples.drop_last()) + samples.last() as nat
    }
}

/// The sum of a list of drifts, each early (negative) or late (positive).
pub open spec fn total_drift(samples: Seq<i128>) -> int
    decreases samples.len(),
{
    if samples.len() == 0 {
        0
    } else {
        total_drift(samples.drop_last()) + samples.last() as int
    }
}

/// Whether the sum of the durations fits in 128 bits.
pub open spec fn durations_summable(samples: Seq<u128>) -> bool {
    total_duration(samples) <= u128::MAX
}

/// Whether the drifts can be summed from first to last within 128 bits.
pub open spec fn drifts_summable(samples: Seq<i128>) -> bool {
    forall|k: int|
        0 <= k <= samples.len() ==> i128::MIN <= #[trigger] total_drift(samples.take(k))
            <= i128::MAX
}

/// The quotient of `sum` by the positive `count`, rounded toward zero.
pub open spec fn quotient_toward_zero(sum: int, count: int) -> int {
    if sum >= 0 {
        sum / count
    } else {
        -((-sum) / count)
    }
}

/// The mean of a list of durations, rounded down; zero for an empty list.
pub open spec fn mean_duration(samples: Seq<u128>) -> nat {
    if samples.len() == 0 {
        0
    } else {
        total_duration(samples) / samples.len()
    }
}

/// The mean of a list of drifts, rounded toward zero; zero for an empty list.
pub open spec fn mean_drift(samples: Seq<i128>) -> int {
    if samples.len() == 0 {
        0
    } else {
        quotient_toward_zero(total_drift(samples), samples.len() as int)
    }
}

/// The report drawn from the counters `m` at the instant `now`.
pub open spec fn report_of(m: PerformanceMetrics, now: u64) -> PerformanceReport {
    PerformanceReport {
        elapsed_us: elapsed_between(m.start_time, now) as u64,
        packets_sent: m.packets_sent,
        total_bytes_sent: m.total_bytes_sent,
        packets_per_second_x100: rate_per_second_x100(
            m.packets_sent as nat,
            elapsed_between(m.start_time, now),
        ) as u128,
        avg_latency_us: if m.packets_sent > 0 {
            m.send_latency_us / (m.packets_sent as u128)
        } else {
            0
        },
        min_latency_us: m.min_latency_us,
        max_latency_us: m.max_latency_us,
        edge_case_count: m.edge_case_count,
        commands_received: m.commands_received,
        commands_executed: m.commands_executed,
        commands_overdue: m.commands_overdue,
        faults_injected: m.faults_injected,
        safety_alerts: m.safety_alerts,
        avg_recovery_ms: mean_duration(m.recovery_times_ms@) as u128,
        avg_drift_us: mean_drift(m.scheduling_drift_us@) as i128,
        drift_within_bounds: -DRIFT_LIMIT_US < mean_drift(m.scheduling_drift_us@) < DRIFT_LIMIT_US,
    }
}

/// Whether one more sent packet can be counted without any counter leaving
/// its range.
pub open spec fn room_for_send(
    m: PerformanceMetrics,
    latency_us: u128,
    bytes: usize,
    is_edge_case: bool,
) -> bool {
    &&& m.packets_sent < u64::MAX
    &&& m.total_bytes_sent + bytes <= u64::MAX
    &&& m.send_latency_us + latency_us <= u128::MAX
    &&& is_edge_case ==> m.edge_case_count < u64::MAX
}

/// The sum of the durations, if it fits in 128 bits.
fn sum_durations(samples: &Vec<u128>) -> (sum: Option<u128>)
    ensures
        sum is Some <==> durations_summable(samples@),
        sum is Some ==> sum->0 == total_duration(samples@),
{
    let mut sum: u128 = 0;
    let mut i: usize = 0;
    while i < samples.len()
        invariant
            i <= samples@.len(),
            sum == total_duration(samples@.take(i as int)),
        decreases samples@.len() - i,
    {
        proof {
            let next = samples@.take(i + 1);
            assert(next.drop_last() =~= samples@.take(i as int));
            assert(next.last() == samples@[i as int]);
        }
        match sum.checked_add(samples[i]) {
            Some(s) => {
                sum = s;
            },
            None => {
                proof {
                    lemma_total_duration_grows(samples@, i + 1);
                }
                return None;
            },
        }
        i += 1;
    }
    assert(samples@.take(i as int) =~= samples@);
    Some(sum)
}

/// The sum of the first `k` durations is at most the sum of all.
proof fn lemma_total_duration_grows(samples: Seq<u128>, k: int)
    requires
        0 <= k <= samples.len(),
    ensures
        total_duration(samples.take(k)) <= total_duration(samples),
    decreases samples.len() - k,
{
    if k < samples.len() {
        let next = samples.take(k + 1);
        assert(next.drop_last() =~= samples.take(k));
        lemma_total_duration_grows(samples, k + 1);
    } else {
        assert(samples.take(k) =~= samples);
    }
}

/// The sum of the drifts, if they can be summed from first to last within
/// 128 bits.
fn sum_drifts(samples: &Vec<i128>) -> (sum: Option<i128>)
    ensures
        sum is Some <==> drifts_summable(samples@),
        sum is Some ==> sum->0 == total_drift(samples@),
{
    let mut sum: i128 = 0;
    let mut i: usize = 0;
    assert(samples@.take(0).len() == 0);
    while i < samples.len()
        invariant
            i <= samples@.len(),
            sum == total_drift(samples@.take(i as int)),
            forall|k: int|
                0 <= k <= i ==> i128::MIN <= #[trigger] total_drift(samples@.take(k))
                    <= i128::MAX,
        decreases samples@.len() - i,
    {
        proof {
            let next = samples@.take(i + 1);
            assert(next.drop_last() =~= samples@.take(i as int));
            assert(next.last() == samples@[i as int]);
        }
        match sum.checked_add(samples[i]) {
            Some(s) => {
                sum = s;
            },
            None => {
                proof {
                    let overflowing = total_drift(samples@.take(i + 1));
                    assert(overflowing == sum + samples@[i as int]);
                    assert(!(i128::MIN <= overflowing <= i128::MAX));
                }
                return None;
            },
        }
        i += 1;
    }
    assert(samples@.take(i as int) =~= samples@);
    Some(sum)
}

/// The quotient of `sum` by `count`, rounded toward zero.
fn divide_toward_zero(sum: i128, count: usize) -> (q: i128)
    requires
        count > 0,
    ensures
        q == quotient_toward_zero(sum as int, count as int),
{
    let n: u128 = count as u128;
    if sum >= 0 {
        ((sum as u128) / n) as i128
    } else if sum == i128::MIN {
        let magnitude: u128 = 0x8000_0000_0000_0000_0000_0000_0000_0000;
        let q: u128 = magnitude / n;
        if q == magnitude {
            i128::MIN
        } else {
            -(q as i128)
        }
    } else {
        let magnitude: u128 = (-sum) as u128;
        -((magnitude / n) as i128)
    }
}

impl PerformanceMetrics {
    /// Fresh counters, counting from the instant `now`.
    pub fn new(now: u64) -> (m: PerformanceMetrics)
        ensures
            m.packets_sent == 0,
            m.total_bytes_sent == 0,
            m.send_latency_us == 0,
            m.min_latency_us == u128::MAX,
            m.max_latency_us == 0,
            m.edge_case_count == 0,
            m.start_time == now,
            m.commands_received == 0,
            m.commands_executed == 0,
            m.commands_overdue == 0,
            m.faults_injected == 0,
            m.safety_alerts == 0,
            m.recovery_times_ms@ == Seq::<u128>::empty(),
            m.scheduling_drift_us@ == Seq::<i128>::empty(),
    {
        PerformanceMetrics {
            packets_sent: 0,
            total_bytes_sent: 0,
            send_latency_us: 0,
            min_latency_us: u128::MAX,
            max_latency_us: 0,
            edge_case_count: 0,
            start_time: now,
            commands_received: 0,
            commands_executed: 0,
            commands_overdue: 0,
            faults_injected: 0,
            safety_alerts: 0,
            recovery_times_ms: Vec::new(),
            scheduling_drift_us: Vec::new(),
        }
    }

    /// Whether one more sent packet can be counted.
    pub fn can_record_send(&self, latency_us: u128, bytes: usize, is_edge_case: bool) -> (r: bool)
        ensures
            r == room_for_send(*self, latency_us, bytes, is_edge_case),
    {
        self.packets_sent < u64::MAX && bytes as u64 <= u64::MAX - self.total_bytes_sent
            && latency_us <= u128::MAX - self.send_latency_us && (!is_edge_case
            || self.edge_case_count < u64::MAX)
    }

    /// Records a packet of `bytes` bytes whose sending took `latency_us`.
    pub fn record_send(&mut self, latency_us: u128, bytes: usize, is_edge_case: bool)
        requires
            room_for_send(*old(self), latency_us, bytes, is_edge_case),
        ensures
            *final(self) == (PerformanceMetrics {
                packets_sent: (old(self).packets_sent + 1) as u64,
                total_bytes_sent: (old(self).total_bytes_sent + bytes) as u64,
                send_latency_us: (old(self).send_latency_us + latency_us) as u128,
                min_latency_us: if latency_us < old(self).min_latency_us {
                    latency_us
                } else {
                    old(self).min_latency_us
                },
                max_latency_us: if latency_us > old(self).max_latency_us {
                    latency_us
                } else {
                    old(self).max_latency_us
                },
                edge_case_count: if is_edge_case {
                    (old(self).edge_case_count + 1) as u64
                } else {
                    old(self).edge_case_count
                },
                ..*old(self)
            }),
    {
        self.packets_sent += 1;
        self.total_bytes_sent += bytes as u64;
        self.send_latency_us += latency_us;
        if latency_us < self.min_latency_us {
            self.min_latency_us = latency_us;
        }
        if latency_us > self.max_latency_us {
            self.max_latency_us = latency_us;
        }
        if is_edge_case {
            self.edge_case_count += 1;
        }
    }

    /// Records that a command arrived.
    pub fn record_command_received(&mut self)
        requires
            old(self).commands_received < u64::MAX,
        ensures
            *final(self) == (PerformanceMetrics {
                commands_received: (old(self).commands_received + 1) as u64,
                ..*old(self)
            }),
    {
        self.commands_received += 1;
    }

    /// Records that a command was executed, overdue or not.
    pub fn record_command_executed(&mut self, was_overdue: bool)
        requires
            old(self).commands_executed < u64::MAX,
            was_overdue ==> old(self).commands_overdue < u64::MAX,
        ensures
            *final(self) == (PerformanceMetrics {
                commands_executed: (old(self).commands_executed + 1) as u64,
                commands_overdue: if was_overdue {
                    (old(self).commands_overdue + 1) as u64
                } else {
                    old(self).commands_overdue
                },
                ..*old(self)
            }),
    {
        self.commands_executed += 1;
        if was_overdue {
            self.commands_overdue += 1;
        }
    }

    /// Records that a fault was injected.
    pub fn record_fault_injected(&mut self)
        requires
            old(self).faults_injected < u64::MAX,
        ensures
            *final(self) == (PerformanceMetrics {
                faults_injected: (old(self).faults_injected + 1) as u64,
                ..*old(self)
            }),
    {
        self.faults_injected += 1;
    }

    /// Records that a safety alert was raised.
    pub fn record_safety_alert(&mut self)
        requires
            old(self).safety_alerts < u64::MAX,
        ensures
            *final(self) == (PerformanceMetrics {
                safety_alerts: (old(self).safety_alerts + 1) as u64,
                ..*old(self)
            }),
    {
        self.safety_alerts += 1;
    }

    /// Records the time, in milliseconds, that a recovery took.
    pub fn record_recovery_time(&mut self, time_ms: u128)
        ensures
            final(self).recovery_times_ms@ == old(self).recovery_times_ms@.push(time_ms),
            final(self).scheduling_drift_us == old(self).scheduling_drift_us,
            counters_equal(*old(self), *final(self)),
    {
        self.recovery_times_ms.push(time_ms);
    }

    /// Records by how many microseconds a send was late (positive) or early
    /// (negative).
    pub fn record_scheduling_drift(&mut self, drift_us: i128)
        ensures
            final(self).scheduling_drift_us@ == old(self).scheduling_drift_us@.push(drift_us),
            final(self).recovery_times_ms == old(self).recovery_times_ms,
            counters_equal(*old(self), *final(self)),
    {
        self.scheduling_drift_us.push(drift_us);
    }

    /// The report at the instant `now`, unless the recovery times or the
    /// scheduling drifts cannot be summed within 128 bits. The counters are
    /// left as they are.
    pub fn report(&self, now: u64) -> (r: Option<PerformanceReport>)
        ensures
            r is Some <==> durations_summable(self.recovery_times_ms@) && drifts_summable(
                self.scheduling_drift_us@,
            ),
            r is Some ==> r->0 == report_of(*self, now),
    {
        let recovery_sum = match sum_durations(&self.recovery_times_ms) {
            Some(s) => s,
            None => {
                return None;
            },
        };
        let drift_sum = match sum_drifts(&self.scheduling_drift_us) {
            Some(s) => s,
            None => {
                return None;
            },
        };
        let elapsed_us: u64 = elapsed(self.start_time, now);
        let avg_latency_us: u128 = if self.packets_sent > 0 {
            self.send_latency_us / (self.packets_sent as u128)
        } else {
            0
        };
        let avg_recovery_ms: u128 = if self.recovery_times_ms.len() == 0 {
            0
        } else {
            recovery_sum / (self.recovery_times_ms.len() as u128)
        };
        let avg_drift_us: i128 = if self.scheduling_drift_us.len() == 0 {
            0
        } else {
            divide_toward_zero(drift_sum, self.scheduling_drift_us.len())
        };
        Some(
            PerformanceReport {
                elapsed_us,
                packets_sent: self.packets_sent,
                total_bytes_sent: self.total_bytes_sent,
                packets_per_second_x100: rate_x100(self.packets_sent, elapsed_us),
                avg_latency_us,
                min_latency_us: self.min_latency_us,
                max_latency_us: self.max_latency_us,
                edge_case_count: self.edge_case_count,
                commands_received: self.commands_received,
                commands_executed: self.commands_executed,
                commands_overdue: self.commands_overdue,
                faults_injected: self.faults_injected,
                safety_alerts: self.safety_alerts,
                avg_recovery_ms,
                avg_drift_us,
                drift_within_bounds: -DRIFT_LIMIT_US < avg_drift_us && avg_drift_us
                    < DRIFT_LIMIT_US,
            },
        )
    }
}

/// Whether the plain counters of `a` and `b` are the same.
pub open spec fn counters_equal(a: PerformanceMetrics, b: PerformanceMetrics) -> bool {
    &&& a.packets_sent == b.packets_sent
    &&& a.total_bytes_sent == b.total_bytes_sent
    &&& a.send_latency_us == b.send_latency_us
    &&& a.min_latency_us == b.min_latency_us
    &&& a.max_latency_us == b.max_latency_us
    &&& a.edge_case_count == b.edge_case_count
    &&& a.start_time == b.start_time
    &&& a.commands_received == b.commands_received
    &&& a.commands_executed == b.commands_executed
    &&& a.commands_overdue == b.commands_overdue
    &&& a.faults_injected == b.faults_injected
    &&& a.safety_alerts == b.safety_alerts
}

} // verus!
