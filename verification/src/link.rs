//! Link health and performance counters of the ground station.
//!
//! The counters are described by a mathematical model, [`LinkModel`], and
//! every recording operation is a transition of that model.

use crate::fault::Fault;
use crate::timing::{elapsed, elapsed_between, rate_per_second_x100, rate_x100};
use vstd::prelude::*;

verus! {

/// Consecutive losses at which contact counts as lost.
pub const LOSS_OF_CONTACT_THRESHOLD: u32 = 3;

/// Nominal time between two telemetry packets, in milliseconds.
pub const EXPECTED_PACKET_INTERVAL_MS: u64 = 500;

/// Decode latencies above this many microseconds are flagged.
pub const DECODE_LATENCY_THRESHOLD_US: u64 = 3000;

/// Command dispatch times above this many microseconds are flagged.
pub const COMMAND_DISPATCH_THRESHOLD_US: u64 = 2000;

/// Fault response times above this many milliseconds are flagged.
pub const FAULT_RESPONSE_THRESHOLD_MS: u64 = 100;

/// The mathematical content of the ground station's counters.
pub struct LinkModel {
    pub packets_received: nat,
    pub valid_packets: nat,
    pub invalid_packets: nat,
    pub edge_cases_detected: nat,
    pub critical_events: nat,
    pub total_bytes_received: nat,
    /// Sum of the decode latencies of all valid packets, in microseconds.
    pub decode_latency_us: nat,
    /// Smallest decode latency seen; `u64::MAX` before the first valid packet.
    pub min_decode_us: nat,
    pub max_decode_us: nat,
    pub packets_lost: nat,
    pub consecutive_lost: nat,
    pub loss_of_contact_count: nat,
    pub commands_received: nat,
    pub commands_dispatched: nat,
    pub commands_overdue: nat,
    pub commands_rejected: nat,
    pub faults_detected: nat,
    pub fault_response_times_ms: Seq<u64>,
    pub interlock_count: nat,
    /// Instant at which counting began, in microseconds.
    pub start_time: u64,
    pub jitter_us: Seq<u64>,
    /// Arrival instant of the latest packet, in microseconds.
    pub last_packet_time: Option<u64>,
    pub rejection_reasons: Seq<Seq<char>>,
    pub interlock_reasons: Seq<Seq<char>>,
}

/// The counters at the instant `start_time`, before anything was recorded.
pub open spec fn initial_model(start_time: u64) -> LinkModel {
    LinkModel {
        packets_received: 0,
        valid_packets: 0,
        invalid_packets: 0,
        edge_cases_detected: 0,
        critical_events: 0,
        total_bytes_received: 0,
        decode_latency_us: 0,
        min_decode_us: u64::MAX as nat,
        max_decode_us: 0,
        packets_lost: 0,
        consecutive_lost: 0,
        loss_of_contact_count: 0,
        commands_received: 0,
        commands_dispatched: 0,
        commands_overdue: 0,
        commands_rejected: 0,
        faults_detected: 0,
        fault_response_times_ms: Seq::empty(),
        interlock_count: 0,
        start_time,
        jitter_us: Seq::empty(),
        last_packet_time: None,
        rejection_reasons: Seq::empty(),
        interlock_reasons: Seq::empty(),
    }
}

/// Deviation, in microseconds, of an inter-arrival interval from the nominal
/// packet interval.
pub open spec fn jitter_of(interval_us: nat) -> nat {
    let expected_us = EXPECTED_PACKET_INTERVAL_MS as nat * 1000;
    if interval_us > expected_us {
        (interval_us - expected_us) as nat
    } else {
        (expected_us - interval_us) as nat
    }
}

/// The jitter samples after a packet arrives at `now`: one more sample if an
/// earlier arrival is known, none otherwise.
pub open spec fn jitter_after_arrival(m: LinkModel, now: u64) -> Seq<u64> {
    match m.last_packet_time {
        Some(last) => m.jitter_us.push(jitter_of(elapsed_between(last, now)) as u64),
        None => m.jitter_us,
    }
}

/// Whether one more loss, on top of `consecutive_lost`, is the one at which
/// contact counts as lost. Only the loss that reaches the threshold does;
/// further losses in the same run do not.
pub open spec fn crosses_threshold(consecutive_lost: nat) -> bool {
    consecutive_lost + 1 == LOSS_OF_CONTACT_THRESHOLD
}

/// The counters after a loss: one more lost packet, one more in the current
/// run of losses, and one more loss of contact if the run just reached the
/// threshold.
pub open spec fn after_loss(m: LinkModel) -> LinkModel {
    LinkModel {
        packets_lost: m.packets_lost + 1,
        consecutive_lost: m.consecutive_lost + 1,
        loss_of_contact_count: if crosses_threshold(m.consecutive_lost) {
            m.loss_of_contact_count + 1
        } else {
            m.loss_of_contact_count
        },
        ..m
    }
}

/// The counters after a datagram of `bytes` bytes arrived at `now`.
///
/// Every arrival counts as a packet received, adds its bytes and, if an
/// earlier arrival is known, a jitter sample. A valid packet adds its decode
/// latency; an invalid one counts as a loss.
pub open spec fn after_packet(
    m: LinkModel,
    now: u64,
    bytes: usize,
    decode_time_us: u64,
    is_valid: bool,
    is_edge_case: bool,
    is_critical: bool,
) -> LinkModel {
    let arrived = LinkModel {
        packets_received: m.packets_received + 1,
        total_bytes_received: m.total_bytes_received + bytes as nat,
        jitter_us: jitter_after_arrival(m, now),
        last_packet_time: Some(now),
        edge_cases_detected: if is_edge_case {
            m.edge_cases_detected + 1
        } else {
            m.edge_cases_detected
        },
        critical_events: if is_critical {
            m.critical_events + 1
        } else {
            m.critical_events
        },
        ..m
    };
    if is_valid {
        LinkModel {
            valid_packets: m.valid_packets + 1,
            decode_latency_us: m.decode_latency_us + decode_time_us as nat,
            min_decode_us: if (decode_time_us as nat) < m.min_decode_us {
                decode_time_us as nat
            } else {
                m.min_decode_us
            },
            max_decode_us: if (decode_time_us as nat) > m.max_decode_us {
                decode_time_us as nat
            } else {
                m.max_decode_us
            },
            ..arrived
        }
    } else {
        LinkModel { invalid_packets: m.invalid_packets + 1, ..after_loss(arrived) }
    }
}

/// One recording operation on the counters.
pub enum LinkOp {
    /// A datagram arrived.
    Packet {
        now: u64,
        bytes: usize,
        decode_time_us: u64,
        is_valid: bool,
        is_edge_case: bool,
        is_critical: bool,
    },
    /// A receive attempt brought nothing.
    Lost,
    /// The run of consecutive losses ended.
    Ack,
    CommandReceived,
    CommandDispatched { was_overdue: bool },
    CommandRejected { reason: Seq<char> },
    FaultRaised,
    FaultResponse { response_time_ms: u64 },
    Interlock { reason: Seq<char> },
}

/// The counters after one operation.
pub open spec fn apply(m: LinkModel, op: LinkOp) -> LinkModel {
    match op {
        LinkOp::Packet { now, bytes, decode_time_us, is_valid, is_edge_case, is_critical } => {
            after_packet(m, now, bytes, decode_time_us, is_valid, is_edge_case, is_critical)
        },
        LinkOp::Lost => after_loss(m),
        LinkOp::Ack => LinkModel { consecutive_lost: 0, ..m },
        LinkOp::CommandReceived => LinkModel { commands_received: m.commands_received + 1, ..m },
        LinkOp::CommandDispatched { was_overdue } => after_dispatch(m, was_overdue),
        LinkOp::CommandRejected { reason } => after_rejection(m, reason),
        LinkOp::FaultRaised => LinkModel { faults_detected: m.faults_detected + 1, ..m },
        LinkOp::FaultResponse { response_time_ms } => LinkModel {
            fault_response_times_ms: m.fault_response_times_ms.push(response_time_ms),
            ..m
        },
        LinkOp::Interlock { reason } => after_interlock(m, reason),
    }
}

/// The counters after a sequence of operations, applied first to last.
pub open spec fn apply_all(m: LinkModel, ops: Seq<LinkOp>) -> LinkModel
    decreases ops.len(),
{
    if ops.len() == 0 {
        m
    } else {
        apply(apply_all(m, ops.drop_last()), ops.last())
    }
}

/// The relations that hold between the counters at all times.
pub open spec fn consistent(m: LinkModel) -> bool {
    &&& m.packets_received == m.valid_packets + m.invalid_packets
    &&& m.edge_cases_detected <= m.packets_received
    &&& m.critical_events <= m.packets_received
    &&& m.total_bytes_received <= m.packets_received * u64::MAX
    &&& m.decode_latency_us <= m.valid_packets * u64::MAX
    &&& m.min_decode_us <= u64::MAX
    &&& m.max_decode_us <= u64::MAX
    &&& m.invalid_packets <= m.packets_lost
    &&& m.consecutive_lost <= m.packets_lost
    &&& m.loss_of_contact_count <= m.packets_lost
    &&& m.commands_overdue <= m.commands_dispatched
}

/// Whether the counters leave room for one more packet: the packet count, and
/// for an invalid packet the loss count, is not at the top of its range.
pub open spec fn room_for_packet(m: LinkModel, is_valid: bool) -> bool {
    m.packets_received < u64::MAX && (!is_valid ==> m.packets_lost < u32::MAX)
}

/// Whether the loss count is not at the top of its range.
pub open spec fn room_for_loss(m: LinkModel) -> bool {
    m.packets_lost < u32::MAX
}

/// The sum of a list of samples.
pub open spec fn total(samples: Seq<u64>) -> nat
    decreases samples.len(),
{
    if samples.len() == 0 {
        0
    } else {
        total(samples.drop_last()) + samples.last() as nat
    }
}

/// The mean of a list of samples, rounded down; zero for an empty list.
pub open spec fn mean(samples: Seq<u64>) -> nat {
    if samples.len() == 0 {
        0
    } else {
        total(samples) / samples.len()
    }
}

/// A point-in-time report of the ground station's counters, with the
/// averages and rates derived from them.
#[derive(Debug, Clone, Copy, PartialEq, Eq, Structural)]
pub struct MetricsSnapshot {
    /// Microseconds since counting began.
    pub elapsed_us: u64,
    pub packets_received: u64,
    pub valid_packets: u64,
    pub invalid_packets: u64,
    pub packets_lost: u32,
    pub consecutive_lost: u32,
    pub loss_of_contact_count: u32,
    pub edge_cases_detected: u64,
    pub critical_events: u64,
    pub total_bytes_received: u128,
    /// Packets received per second, in hundredths.
    pub packets_per_second_x100: u128,
    pub avg_decode_us: u128,
    pub min_decode_us: u64,
    pub max_decode_us: u64,
    pub avg_jitter_us: u128,
    pub commands_received: u64,
    pub commands_dispatched: u64,
    pub commands_overdue: u64,
    pub commands_rejected: u64,
    pub faults_detected: u64,
    pub interlock_count: u64,
    pub avg_fault_response_ms: u128,
    /// No decode has reached the latency target.
    pub realtime_constraints_met: bool,
}

/// The report drawn from the counters `m` at the instant `now`.
pub open spec fn snapshot_of(m: LinkModel, now: u64) -> MetricsSnapshot {
    MetricsSnapshot {
        elapsed_us: elapsed_between(m.start_time, now) as u64,
        packets_received: m.packets_received as u64,
        valid_packets: m.valid_packets as u64,
        invalid_packets: m.invalid_packets as u64,
        packets_lost: m.packets_lost as u32,
        consecutive_lost: m.consecutive_lost as u32,
        loss_of_contact_count: m.loss_of_contact_count as u32,
        edge_cases_detected: m.edge_cases_detected as u64,
        critical_events: m.critical_events as u64,
        total_bytes_received: m.total_bytes_received as u128,
        packets_per_second_x100: rate_per_second_x100(
            m.packets_received,
            elapsed_between(m.start_time, now),
        ) as u128,
        avg_decode_us: (if m.valid_packets > 0 {
            m.decode_latency_us / m.valid_packets
        } else {
            0
        }) as u128,
        min_decode_us: m.min_decode_us as u64,
        max_decode_us: m.max_decode_us as u64,
        avg_jitter_us: mean(m.jitter_us) as u128,
        commands_received: m.commands_received as u64,
        commands_dispatched: m.commands_dispatched as u64,
        commands_overdue: m.commands_overdue as u64,
        commands_rejected: m.commands_rejected as u64,
        faults_detected: m.faults_detected as u64,
        interlock_count: m.interlock_count as u64,
        avg_fault_response_ms: mean(m.fault_response_times_ms) as u128,
        realtime_constraints_met: m.max_decode_us < DECODE_LATENCY_THRESHOLD_US,
    }
}

/// The counters after a command was dispatched.
pub open spec fn after_dispatch(m: LinkModel, was_overdue: bool) -> LinkModel {
    LinkModel {
        commands_dispatched: m.commands_dispatched + 1,
        commands_overdue: if was_overdue {
            m.commands_overdue + 1
        } else {
            m.commands_overdue
        },
        ..m
    }
}

/// The counters after a command was rejected for the given reason.
pub open spec fn after_rejection(m: LinkModel, reason: Seq<char>) -> LinkModel {
    LinkModel {
        commands_rejected: m.commands_rejected + 1,
        rejection_reasons: m.rejection_reasons.push(reason),
        ..m
    }
}

/// The counters after a safety interlock was triggered for the given reason.
pub open spec fn after_interlock(m: LinkModel, reason: Seq<char>) -> LinkModel {
    LinkModel {
        interlock_count: m.interlock_count + 1,
        interlock_reasons: m.interlock_reasons.push(reason),
        ..m
    }
}

/// Each sample is at most `u64::MAX`, so the sum of a list is at most that
/// many times its length.
pub proof fn lemma_total_bounded(samples: Seq<u64>)
    ensures
        total(samples) <= samples.len() * u64::MAX,
    decreases samples.len(),
{
    if samples.len() > 0 {
        lemma_total_bounded(samples.drop_last());
        assert(samples.drop_last().len() == samples.len() - 1);
        assert((samples.len() - 1) * u64::MAX + u64::MAX == samples.len() * u64::MAX)
            by (nonlinear_arith);
    }
}

/// The sum of a list of samples.
fn sum_of(samples: &Vec<u64>) -> (sum: u128)
    ensures
        sum == total(samples@),
{
    let mut sum: u128 = 0;
    let mut i: usize = 0;
    while i < samples.len()
        invariant
            i <= samples@.len(),
            sum == total(samples@.take(i as int)),
            sum <= i * u64::MAX,
        decreases samples@.len() - i,
    {
        proof {
            let next = samples@.take(i + 1);
            assert(next.drop_last() =~= samples@.take(i as int));
            assert(next.last() == samples@[i as int]);
            lemma_total_bounded(next);
            assert(i * u64::MAX + u64::MAX == (i + 1) * u64::MAX) by (nonlinear_arith);
            assert((i + 1) * u64::MAX <= usize::MAX * u64::MAX) by (nonlinear_arith)
                requires
                    i + 1 <= usize::MAX,
            ;
        }
        sum += samples[i] as u128;
        i += 1;
    }
    assert(samples@.take(i as int) =~= samples@);
    sum
}

/// The mean of a list of samples, rounded down; zero for an empty list.
fn mean_of(samples: &Vec<u64>) -> (avg: u128)
    ensures
        avg == mean(samples@),
{
    if samples.len() == 0 {
        0
    } else {
        sum_of(samples) / (samples.len() as u128)
    }
}

/// What is reported of one arriving packet.
#[derive(Debug, Clone, Copy, PartialEq, Eq, Structural)]
pub struct PacketReport {
    /// The packet was valid and took longer to decode than the latency target.
    pub decode_latency_exceeded: bool,
    /// The packet was invalid and was the loss at which contact counts as lost.
    pub loss_of_contact: bool,
}

/// The ground station's counters.
pub struct GCSPerformanceMetrics {
    packets_received: u64,
    valid_packets: u64,
    invalid_packets: u64,
    edge_cases_detected: u64,
    critical_events: u64,
    total_bytes_received: u128,
    decode_latency_us: u128,
    min_decode_us: u64,
    max_decode_us: u64,
    packets_lost: u32,
    consecutive_lost: u32,
    loss_of_contact_count: u32,
    commands_received: u64,
    commands_dispatched: u64,
    commands_overdue: u64,
    commands_rejected: u64,
    faults_detected: u64,
    fault_response_times_ms: Vec<u64>,
    interlock_count: u64,
    start_time: u64,
    jitter_us: Vec<u64>,
    last_packet_time: Option<u64>,
    rejection_reasons: Vec<String>,
    interlock_reasons: Vec<String>,
}

/// The contents of a list of strings.
pub open spec fn texts(v: Seq<String>) -> Seq<Seq<char>> {
    Seq::new(v.len(), |i: int| v[i]@)
}

impl View for GCSPerformanceMetrics {
    type V = LinkModel;

    closed spec fn view(&self) -> LinkModel {
        LinkModel {
            packets_received: self.packets_received as nat,
            valid_packets: self.valid_packets as nat,
            invalid_packets: self.invalid_packets as nat,
            edge_cases_detected: self.edge_cases_detected as nat,
            critical_events: self.critical_events as nat,
            total_bytes_received: self.total_bytes_received as nat,
            decode_latency_us: self.decode_latency_us as nat,
            min_decode_us: self.min_decode_us as nat,
            max_decode_us: self.max_decode_us as nat,
            packets_lost: self.packets_lost as nat,
            consecutive_lost: self.consecutive_lost as nat,
            loss_of_contact_count: self.loss_of_contact_count as nat,
            commands_received: self.commands_received as nat,
            commands_dispatched: self.commands_dispatched as nat,
            commands_overdue: self.commands_overdue as nat,
            commands_rejected: self.commands_rejected as nat,
            faults_detected: self.faults_detected as nat,
            fault_response_times_ms: self.fault_response_times_ms@,
            interlock_count: self.interlock_count as nat,
            start_time: self.start_time,
            jitter_us: self.jitter_us@,
            last_packet_time: self.last_packet_time,
            rejection_reasons: texts(self.rejection_reasons@),
            interlock_reasons: texts(self.interlock_reasons@),
        }
    }
}

impl GCSPerformanceMetrics {
    /// Whether the counters are consistent with one another.
    pub open spec fn wf(&self) -> bool {
        consistent(self@)
    }

    /// Fresh counters, counting from the instant `now`.
    pub fn new(now: u64) -> (m: GCSPerformanceMetrics)
        ensures
            m@ == initial_model(now),
            m.wf(),
    {
        let m = GCSPerformanceMetrics {
            packets_received: 0,
            valid_packets: 0,
            invalid_packets: 0,
            edge_cases_detected: 0,
            critical_events: 0,
            total_bytes_received: 0,
            decode_latency_us: 0,
            min_decode_us: u64::MAX,
            max_decode_us: 0,
            packets_lost: 0,
            consecutive_lost: 0,
            loss_of_contact_count: 0,
            commands_received: 0,
            commands_dispatched: 0,
            commands_overdue: 0,
            commands_rejected: 0,
            faults_detected: 0,
            fault_response_times_ms: Vec::new(),
            interlock_count: 0,
            start_time: now,
            jitter_us: Vec::new(),
            last_packet_time: None,
            rejection_reasons: Vec::new(),
            interlock_reasons: Vec::new(),
        };
        assert(m@.rejection_reasons =~= Seq::empty());
        assert(m@.interlock_reasons =~= Seq::empty());
        m
    }

    /// Whether one more packet, valid or not, can be counted.
    pub fn can_record_packet(&self, is_valid: bool) -> (r: bool)
        ensures
            r == room_for_packet(self@, is_valid),
    {
        self.packets_received < u64::MAX && (is_valid || self.packets_lost < u32::MAX)
    }

    /// Whether one more loss can be counted.
    pub fn can_record_loss(&self) -> (r: bool)
        ensures
            r == room_for_loss(self@),
    {
        self.packets_lost < u32::MAX
    }

    /// Whether one more dispatch can be counted.
    pub fn can_record_dispatch(&self) -> (r: bool)
        ensures
            r == (self@.commands_dispatched < u64::MAX),
    {
        self.commands_dispatched < u64::MAX
    }

    /// Whether one more fault can be counted.
    pub fn can_record_fault(&self) -> (r: bool)
        ensures
            r == (self@.faults_detected < u64::MAX),
    {
        self.faults_detected < u64::MAX
    }

    /// Records a datagram of `bytes` bytes that arrived at `now` and took
    /// `decode_time_us` to decode, and says what is worth reporting of it.
    pub fn record_packet_received(
        &mut self,
        now: u64,
        bytes: usize,
        decode_time_us: u64,
        is_valid: bool,
        is_edge_case: bool,
        is_critical: bool,
    ) -> (report: PacketReport)
        requires
            old(self).wf(),
            room_for_packet(old(self)@, is_valid),
        ensures
            final(self)@ == apply(
                old(self)@,
                LinkOp::Packet { now, bytes, decode_time_us, is_valid, is_edge_case, is_critical },
            ),
            final(self).wf(),
            report.decode_latency_exceeded == (is_valid && decode_time_us
                > DECODE_LATENCY_THRESHOLD_US),
            report.loss_of_contact == (!is_valid && crosses_threshold(old(self)@.consecutive_lost)),
    {
        self.packets_received += 1;
        self.total_bytes_received += bytes as u128;
        match self.last_packet_time {
            Some(last) => {
                let interval_us: u64 = elapsed(last, now);
                let expected_us: u64 = EXPECTED_PACKET_INTERVAL_MS * 1000;
                let jitter: u64 = if interval_us > expected_us {
                    interval_us - expected_us
                } else {
                    expected_us - interval_us
                };
                self.jitter_us.push(jitter);
            },
            None => {},
        }
        self.last_packet_time = Some(now);
        let mut report = PacketReport { decode_latency_exceeded: false, loss_of_contact: false };
        if is_valid {
            self.valid_packets += 1;
            self.decode_latency_us += decode_time_us as u128;
            if decode_time_us < self.min_decode_us {
                self.min_decode_us = decode_time_us;
            }
            if decode_time_us > self.max_decode_us {
                self.max_decode_us = decode_time_us;
            }
            report.decode_latency_exceeded = decode_time_us > DECODE_LATENCY_THRESHOLD_US;
        } else {
            self.invalid_packets += 1;
            report.loss_of_contact = self.count_loss();
        }
        if is_edge_case {
            self.edge_cases_detected += 1;
        }
        if is_critical {
            self.critical_events += 1;
        }
        report
    }

    /// Counts one loss, and says whether it is the one at which contact
    /// counts as lost.
    fn count_loss(&mut self) -> (lost_contact: bool)
        requires
            old(self).packets_lost < u32::MAX,
            old(self).consecutive_lost <= old(self).packets_lost,
            old(self).loss_of_contact_count <= old(self).packets_lost,
        ensures
            final(self)@ == after_loss(old(self)@),
            lost_contact == crosses_threshold(old(self)@.consecutive_lost),
    {
        self.packets_lost += 1;
        self.consecutive_lost += 1;
        if self.consecutive_lost == LOSS_OF_CONTACT_THRESHOLD {
            self.loss_of_contact_count += 1;
            true
        } else {
            false
        }
    }

    /// Records a receive attempt that brought nothing, and says whether it is
    /// the loss at which contact counts as lost: the third in a row, and no
    /// later one until a packet has arrived in between.
    pub fn record_packet_lost(&mut self) -> (lost_contact: bool)
        requires
            old(self).wf(),
            room_for_loss(old(self)@),
        ensures
            final(self)@ == apply(old(self)@, LinkOp::Lost),
            final(self).wf(),
            lost_contact == crosses_threshold(old(self)@.consecutive_lost),
    {
        self.count_loss()
    }

    /// Records that a datagram arrived: the run of consecutive losses ends.
    pub fn record_packet_ack(&mut self)
        ensures
            final(self)@ == apply(old(self)@, LinkOp::Ack),
            old(self).wf() ==> final(self).wf(),
    {
        self.consecutive_lost = 0;
    }

    /// Records that a command was submitted for uplink.
    pub fn record_command_received(&mut self)
        requires
            old(self)@.commands_received < u64::MAX,
        ensures
            final(self)@ == apply(old(self)@, LinkOp::CommandReceived),
            old(self).wf() ==> final(self).wf(),
    {
        self.commands_received += 1;
    }

    /// Records a dispatched command, and says whether the dispatch took
    /// longer than the dispatch-time target.
    pub fn record_command_dispatched(&mut self, dispatch_time_us: u64, was_overdue: bool) -> (slow:
        bool)
        requires
            old(self).wf(),
            old(self)@.commands_dispatched < u64::MAX,
        ensures
            final(self)@ == apply(old(self)@, LinkOp::CommandDispatched { was_overdue }),
            final(self).wf(),
            slow == (dispatch_time_us > COMMAND_DISPATCH_THRESHOLD_US),
    {
        self.commands_dispatched += 1;
        if was_overdue {
            self.commands_overdue += 1;
        }
        dispatch_time_us > COMMAND_DISPATCH_THRESHOLD_US
    }

    /// Records a rejected command together with the reason for rejecting it.
    pub fn record_command_rejected(&mut self, reason: &str)
        requires
            old(self)@.commands_rejected < u64::MAX,
        ensures
            final(self)@ == apply(old(self)@, LinkOp::CommandRejected { reason: reason@ }),
            old(self).wf() ==> final(self).wf(),
    {
        self.commands_rejected += 1;
        self.rejection_reasons.push(reason.to_owned());
        assert(final(self)@.rejection_reasons =~= old(self)@.rejection_reasons.push(reason@));
    }

    /// Records a raised fault. Only the number of faults is kept.
    pub fn record_fault(&mut self, _fault: &Fault)
        requires
            old(self)@.faults_detected < u64::MAX,
        ensures
            final(self)@ == apply(old(self)@, LinkOp::FaultRaised),
            old(self).wf() ==> final(self).wf(),
    {
        self.faults_detected += 1;
    }

    /// Records the time it took to respond to a fault, and says whether it
    /// exceeded the response-time target.
    pub fn record_fault_response(&mut self, response_time_ms: u64) -> (late: bool)
        ensures
            final(self)@ == apply(old(self)@, LinkOp::FaultResponse { response_time_ms }),
            old(self).wf() ==> final(self).wf(),
            late == (response_time_ms > FAULT_RESPONSE_THRESHOLD_MS),
    {
        self.fault_response_times_ms.push(response_time_ms);
        response_time_ms > FAULT_RESPONSE_THRESHOLD_MS
    }

    /// Records a safety interlock together with the reason that triggered it.
    pub fn record_interlock(&mut self, reason: &str)
        requires
            old(self)@.interlock_count < u64::MAX,
        ensures
            final(self)@ == apply(old(self)@, LinkOp::Interlock { reason: reason@ }),
            old(self).wf() ==> final(self).wf(),
    {
        self.interlock_count += 1;
        self.interlock_reasons.push(reason.to_owned());
        assert(final(self)@.interlock_reasons =~= old(self)@.interlock_reasons.push(reason@));
    }

    /// Length of the current run of consecutive losses.
    pub fn consecutive_lost(&self) -> (n: u32)
        ensures
            n == self@.consecutive_lost,
    {
        self.consecutive_lost
    }

    /// Number of datagrams that have arrived.
    pub fn packets_received(&self) -> (n: u64)
        ensures
            n == self@.packets_received,
    {
        self.packets_received
    }

    /// The report at the instant `now`. The counters are left as they are.
    pub fn report(&self, now: u64) -> (snapshot: MetricsSnapshot)
        requires
            self.wf(),
        ensures
            snapshot == snapshot_of(self@, now),
            snapshot.packets_received == snapshot.valid_packets + snapshot.invalid_packets,
    {
        let elapsed_us: u64 = elapsed(self.start_time, now);
        let avg_decode_us: u128 = if self.valid_packets > 0 {
            self.decode_latency_us / (self.valid_packets as u128)
        } else {
            0
        };
        MetricsSnapshot {
            elapsed_us,
            packets_received: self.packets_received,
            valid_packets: self.valid_packets,
            invalid_packets: self.invalid_packets,
            packets_lost: self.packets_lost,
            consecutive_lost: self.consecutive_lost,
            loss_of_contact_count: self.loss_of_contact_count,
            edge_cases_detected: self.edge_cases_detected,
            critical_events: self.critical_events,
            total_bytes_received: self.total_bytes_received,
            packets_per_second_x100: rate_x100(self.packets_received, elapsed_us),
            avg_decode_us,
            min_decode_us: self.min_decode_us,
            max_decode_us: self.max_decode_us,
            avg_jitter_us: mean_of(&self.jitter_us),
            commands_received: self.commands_received,
            commands_dispatched: self.commands_dispatched,
            commands_overdue: self.commands_overdue,
            commands_rejected: self.commands_rejected,
            faults_detected: self.faults_detected,
            interlock_count: self.interlock_count,
            avg_fault_response_ms: mean_of(&self.fault_response_times_ms),
            realtime_constraints_met: self.max_decode_us < DECODE_LATENCY_THRESHOLD_US,
        }
    }
}

/// Whether every counter of `after` is at least what it is in `before`,
/// every list of `after` extends the list of `before`, and the smallest
/// decode latency has not grown.
pub open spec fn never_decreased(before: LinkModel, after: LinkModel) -> bool {
    &&& before.packets_received <= after.packets_received
    &&& before.valid_packets <= after.valid_packets
    &&& before.invalid_packets <= after.invalid_packets
    &&& before.edge_cases_detected <= after.edge_cases_detected
    &&& before.critical_events <= after.critical_events
    &&& before.total_bytes_received <= after.total_bytes_received
    &&& before.decode_latency_us <= after.decode_latency_us
    &&& before.min_decode_us >= after.min_decode_us
    &&& before.max_decode_us <= after.max_decode_us
    &&& before.packets_lost <= after.packets_lost
    &&& before.loss_of_contact_count <= after.loss_of_contact_count
    &&& before.commands_received <= after.commands_received
    &&& before.commands_dispatched <= after.commands_dispatched
    &&& before.commands_overdue <= after.commands_overdue
    &&& before.commands_rejected <= after.commands_rejected
    &&& before.faults_detected <= after.faults_detected
    &&& before.interlock_count <= after.interlock_count
    &&& before.start_time == after.start_time
    &&& before.fault_response_times_ms.is_prefix_of(after.fault_response_times_ms)
    &&& before.jitter_us.is_prefix_of(after.jitter_us)
    &&& before.rejection_reasons.is_prefix_of(after.rejection_reasons)
    &&& before.interlock_reasons.is_prefix_of(after.interlock_reasons)
}

/// A list that extends an extension of a list extends that list.
proof fn lemma_prefix_transitive<T>(a: Seq<T>, b: Seq<T>, c: Seq<T>)
    requires
        a.is_prefix_of(b),
        b.is_prefix_of(c),
    ensures
        a.is_prefix_of(c),
{
    assert(a =~= c.subrange(0, a.len() as int)) by {
        assert(forall|i: int| 0 <= i < a.len() ==> a[i] == b.subrange(0, a.len() as int)[i]);
        assert(forall|i: int| 0 <= i < b.len() ==> b[i] == c.subrange(0, b.len() as int)[i]);
    }
}

/// One operation keeps the counters consistent and lets none of them
/// decrease.
pub proof fn lemma_apply_consistent_monotone(m: LinkModel, op: LinkOp)
    requires
        consistent(m),
    ensures
        consistent(apply(m, op)),
        never_decreased(m, apply(m, op)),
{
    let after = apply(m, op);
    assert(m.fault_response_times_ms.is_prefix_of(after.fault_response_times_ms));
    assert(m.jitter_us.is_prefix_of(after.jitter_us));
    assert(m.rejection_reasons.is_prefix_of(after.rejection_reasons));
    assert(m.interlock_reasons.is_prefix_of(after.interlock_reasons));
}

/// Whatever the sequence of operations, the counters stay consistent, so
/// that the packets received are the valid and the invalid ones together,
/// and no counter ever decreases.
pub proof fn lemma_apply_all_consistent_monotone(m: LinkModel, ops: Seq<LinkOp>)
    requires
        consistent(m),
    ensures
        consistent(apply_all(m, ops)),
        apply_all(m, ops).packets_received == apply_all(m, ops).valid_packets + apply_all(
            m,
            ops,
        ).invalid_packets,
        never_decreased(m, apply_all(m, ops)),
    decreases ops.len(),
{
    if ops.len() == 0 {
        assert(m.fault_response_times_ms.is_prefix_of(m.fault_response_times_ms));
        assert(m.jitter_us.is_prefix_of(m.jitter_us));
        assert(m.rejection_reasons.is_prefix_of(m.rejection_reasons));
        assert(m.interlock_reasons.is_prefix_of(m.interlock_reasons));
    } else {
        let mid = apply_all(m, ops.drop_last());
        let end = apply(mid, ops.last());
        lemma_apply_all_consistent_monotone(m, ops.drop_last());
        lemma_apply_consistent_monotone(mid, ops.last());
        lemma_prefix_transitive(
            m.fault_response_times_ms,
            mid.fault_response_times_ms,
            end.fault_response_times_ms,
        );
        lemma_prefix_transitive(m.jitter_us, mid.jitter_us, end.jitter_us);
        lemma_prefix_transitive(m.rejection_reasons, mid.rejection_reasons, end.rejection_reasons);
        lemma_prefix_transitive(m.interlock_reasons, mid.interlock_reasons, end.interlock_reasons);
    }
}

/// The counters after `k` losses in a row.
pub open spec fn after_losses(m: LinkModel, k: nat) -> LinkModel
    decreases k,
{
    if k == 0 {
        m
    } else {
        after_loss(after_losses(m, (k - 1) as nat))
    }
}

/// Loss of contact is raised once per run of losses: a run of losses that
/// starts when none is outstanding raises it exactly once if the run has
/// three losses or more, however many follow, and not at all if it has fewer.
pub proof fn lemma_one_loss_of_contact_per_run(m: LinkModel, k: nat)
    requires
        m.consecutive_lost == 0,
    ensures
        after_losses(m, k).consecutive_lost == k,
        after_losses(m, k).packets_lost == m.packets_lost + k,
        after_losses(m, k).loss_of_contact_count == m.loss_of_contact_count + (if k
            >= LOSS_OF_CONTACT_THRESHOLD {
            1nat
        } else {
            0nat
        }),
    decreases k,
{
    if k > 0 {
        lemma_one_loss_of_contact_per_run(m, (k - 1) as nat);
    }
}

} // verus!
