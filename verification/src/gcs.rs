//! The ground control station: what it does with each datagram, each failed
//! receive attempt and each command, given the instants and byte buffers that
//! its caller reads from the clock and the socket.

use crate::command::{
    after_arrival, evicted_by_arrival, next_index, overdue, Command, CommandExecutor,
};
use crate::fault::{fault_for, telemetry_fault, Fault};
use crate::link::{
    after_dispatch, after_interlock, after_loss, after_packet, after_rejection,
    crosses_threshold, initial_model, room_for_loss, room_for_packet, snapshot_of,
    GCSPerformanceMetrics, LinkModel, MetricsSnapshot, COMMAND_DISPATCH_THRESHOLD_US,
    DECODE_LATENCY_THRESHOLD_US, FAULT_RESPONSE_THRESHOLD_MS, LOSS_OF_CONTACT_THRESHOLD,
};
use crate::telemetry::{critical, decode, edge_case, Telemetry};
use crate::timing::{elapsed, elapsed_between};
use vstd::prelude::*;

verus! {

/// A report is due whenever the number of packets received reaches a
/// multiple of this.
pub const REPORT_INTERVAL: u64 = 50;

/// The mathematical content of a ground station.
pub struct GroundModel {
    pub link: LinkModel,
    /// The commands awaiting dispatch, in the order in which they arrived.
    pub queue: Seq<Command>,
    /// Instant, in microseconds, of the earliest fault that has not been
    /// responded to.
    pub fault_since: Option<u64>,
}

/// What the station reports of one datagram.
#[derive(Debug, Clone, Copy, PartialEq, Eq, Structural)]
pub struct DatagramOutcome {
    /// The reading that the datagram held, if it held one.
    pub telemetry: Option<Telemetry>,
    pub is_edge_case: bool,
    pub is_critical: bool,
    /// Decoding took longer than the latency target.
    pub decode_latency_exceeded: bool,
    /// The fault that the datagram raised.
    pub fault: Option<Fault>,
    /// The number of packets received has reached a multiple of the report
    /// interval.
    pub report_due: bool,
}

/// What the station reports of the response to a fault.
#[derive(Debug, Clone, Copy, PartialEq, Eq, Structural)]
pub struct FaultResponse {
    pub response_time_ms: u64,
    /// The response took longer than the response-time target.
    pub late: bool,
}

/// The counters with one more fault.
pub open spec fn with_fault(m: LinkModel) -> LinkModel {
    LinkModel { faults_detected: m.faults_detected + 1, ..m }
}

/// The instant since which a fault awaits a response, once a fault was raised
/// at `now`: the clock of an earlier fault keeps running.
pub open spec fn clock_after_fault(fault_since: Option<u64>, now: u64) -> Option<u64> {
    match fault_since {
        Some(since) => Some(since),
        None => Some(now),
    }
}

/// The fault that a datagram raises: that of its reading if it holds one,
/// the loss of one packet if it does not.
pub open spec fn datagram_fault(decoded: Option<Telemetry>) -> Option<Fault> {
    match decoded {
        Some(t) => telemetry_fault(t),
        None => Some(Fault::PacketLoss(1)),
    }
}

/// The counters after a datagram of `bytes` bytes that arrived at `now`.
///
/// The arrival ends the run of consecutive losses. A datagram that holds a
/// reading counts as a valid packet; one that does not counts as an invalid
/// packet and so as one loss. The fault that it raises, if any, is counted.
pub open spec fn link_after_datagram(
    m: LinkModel,
    now: u64,
    bytes: usize,
    decoded: Option<Telemetry>,
    decode_time_us: u64,
) -> LinkModel {
    let contact = LinkModel { consecutive_lost: 0, ..m };
    let counted = match decoded {
        Some(t) => after_packet(contact, now, bytes, decode_time_us, true, edge_case(t), critical(t)),
        None => after_packet(contact, now, bytes, 0, false, false, false),
    };
    if datagram_fault(decoded) is Some {
        with_fault(counted)
    } else {
        counted
    }
}

/// The station after a datagram.
pub open spec fn after_datagram(
    g: GroundModel,
    now: u64,
    bytes: usize,
    decoded: Option<Telemetry>,
    decode_time_us: u64,
) -> GroundModel {
    GroundModel {
        link: link_after_datagram(g.link, now, bytes, decoded, decode_time_us),
        fault_since: if datagram_fault(decoded) is Some {
            clock_after_fault(g.fault_since, now)
        } else {
            g.fault_since
        },
        ..g
    }
}

/// What the station reports of a datagram.
pub open spec fn datagram_outcome(
    g: GroundModel,
    decoded: Option<Telemetry>,
    decode_time_us: u64,
) -> DatagramOutcome {
    match decoded {
        Some(t) => DatagramOutcome {
            telemetry: Some(t),
            is_edge_case: edge_case(t),
            is_critical: critical(t),
            decode_latency_exceeded: decode_time_us > DECODE_LATENCY_THRESHOLD_US,
            fault: telemetry_fault(t),
            report_due: (g.link.packets_received + 1) % (REPORT_INTERVAL as nat) == 0,
        },
        None => DatagramOutcome {
            telemetry: None,
            is_edge_case: false,
            is_critical: false,
            decode_latency_exceeded: false,
            fault: Some(Fault::PacketLoss(1)),
            report_due: false,
        },
    }
}

/// The fault that a failed receive attempt raises: loss of contact, if it is
/// the loss at which contact counts as lost.
pub open spec fn receive_error_fault(g: GroundModel) -> Option<Fault> {
    if crosses_threshold(g.link.consecutive_lost) {
        Some(Fault::LossOfContact)
    } else {
        None
    }
}

/// The station after a receive attempt that failed at `now`.
pub open spec fn after_receive_error(g: GroundModel, now: u64) -> GroundModel {
    if crosses_threshold(g.link.consecutive_lost) {
        GroundModel {
            link: with_fault(after_loss(g.link)),
            fault_since: clock_after_fault(g.fault_since, now),
            ..g
        }
    } else {
        GroundModel { link: after_loss(g.link), ..g }
    }
}

/// Whether the station can take one more datagram, with or without a
/// reading: no counter that it would raise is at the top of its range.
pub open spec fn room_for_datagram(g: GroundModel, holds_reading: bool) -> bool {
    room_for_packet(g.link, holds_reading) && g.link.faults_detected < u64::MAX
}

/// Whether the station can take one more failed receive attempt.
pub open spec fn room_for_receive_error(g: GroundModel) -> bool {
    room_for_loss(g.link) && g.link.faults_detected < u64::MAX
}

/// Whole milliseconds from the instant `since` to the instant `now`, both in
/// microseconds.
pub open spec fn response_time_ms(since: u64, now: u64) -> u64 {
    (elapsed_between(since, now) / 1000) as u64
}

/// The station after the outstanding fault, if any, was responded to at
/// `now`: the response time is recorded and the clock stops.
pub open spec fn after_fault_response(g: GroundModel, now: u64) -> GroundModel {
    match g.fault_since {
        Some(since) => GroundModel {
            link: LinkModel {
                fault_response_times_ms: g.link.fault_response_times_ms.push(
                    response_time_ms(since, now),
                ),
                ..g.link
            },
            fault_since: None,
            ..g
        },
        None => g,
    }
}

/// What is reported of the response at `now` to the outstanding fault.
pub open spec fn fault_response(g: GroundModel, now: u64) -> Option<FaultResponse> {
    match g.fault_since {
        Some(since) => Some(
            FaultResponse {
                response_time_ms: response_time_ms(since, now),
                late: response_time_ms(since, now) > FAULT_RESPONSE_THRESHOLD_MS,
            },
        ),
        None => None,
    }
}

/// The ground control station.
pub struct GCS {
    metrics: GCSPerformanceMetrics,
    command_queue: CommandExecutor,
    fault_since: Option<u64>,
}

impl View for GCS {
    type V = GroundModel;

    closed spec fn view(&self) -> GroundModel {
        GroundModel {
            link: self.metrics@,
            queue: self.command_queue.pending(),
            fault_since: self.fault_since,
        }
    }
}

impl GCS {
    /// Whether the counters are consistent and the queue respects its
    /// capacity.
    pub closed spec fn wf(&self) -> bool {
        self.metrics.wf() && self.command_queue.wf()
    }

    /// A station that starts counting at the instant `now`, with no command
    /// waiting and no fault outstanding.
    pub fn new(now: u64) -> (g: GCS)
        ensures
            g@ == (GroundModel {
                link: initial_model(now),
                queue: Seq::empty(),
                fault_since: None,
            }),
            g.wf(),
    {
        GCS {
            metrics: GCSPerformanceMetrics::new(now),
            command_queue: CommandExecutor::new(),
            fault_since: None,
        }
    }

    /// Whether one more datagram, with or without a reading, can be taken.
    pub fn can_process(&self, holds_reading: bool) -> (r: bool)
        ensures
            r == room_for_datagram(self@, holds_reading),
    {
        self.metrics.can_record_packet(holds_reading) && self.metrics.can_record_fault()
    }

    /// Whether one more failed receive attempt can be taken.
    pub fn can_take_receive_error(&self) -> (r: bool)
        ensures
            r == room_for_receive_error(self@),
    {
        self.metrics.can_record_loss() && self.metrics.can_record_fault()
    }

    /// Starts the response clock at `now` unless it is running.
    fn start_fault_clock(&mut self, now: u64)
        ensures
            final(self).metrics == old(self).metrics,
            final(self).command_queue == old(self).command_queue,
            final(self).fault_since == clock_after_fault(old(self).fault_since, now),
    {
        if self.fault_since.is_none() {
            self.fault_since = Some(now);
        }
    }

    /// Takes a datagram of `bytes` bytes that arrived at `now`, of which
    /// `decoded` is the reading that it held, if any, and `decode_time_us`
    /// the time that decoding took.
    pub fn process_decoded(
        &mut self,
        now: u64,
        bytes: usize,
        decoded: Option<Telemetry>,
        decode_time_us: u64,
    ) -> (outcome: DatagramOutcome)
        requires
            old(self).wf(),
            room_for_datagram(old(self)@, decoded is Some),
        ensures
            final(self)@ == after_datagram(old(self)@, now, bytes, decoded, decode_time_us),
            outcome == datagram_outcome(old(self)@, decoded, decode_time_us),
            final(self).wf(),
    {
        self.metrics.record_packet_ack();
        match decoded {
            Some(t) => {
                let is_edge_case = t.is_edge_case();
                let is_critical = t.is_critical();
                let report = self.metrics.record_packet_received(
                    now,
                    bytes,
                    decode_time_us,
                    true,
                    is_edge_case,
                    is_critical,
                );
                let fault = fault_for(&t);
                match fault {
                    Some(f) => {
                        self.metrics.record_fault(&f);
                        self.start_fault_clock(now);
                    },
                    None => {},
                }
                DatagramOutcome {
                    telemetry: Some(t),
                    is_edge_case,
                    is_critical,
                    decode_latency_exceeded: report.decode_latency_exceeded,
                    fault,
                    report_due: self.metrics.packets_received() % REPORT_INTERVAL == 0,
                }
            },
            None => {
                self.metrics.record_packet_received(now, bytes, 0, false, false, false);
                let fault = Fault::PacketLoss(1);
                self.metrics.record_fault(&fault);
                self.start_fault_clock(now);
                DatagramOutcome {
                    telemetry: None,
                    is_edge_case: false,
                    is_critical: false,
                    decode_latency_exceeded: false,
                    fault: Some(fault),
                    report_due: false,
                }
            },
        }
    }

    /// Decodes the datagram `data` that arrived at `now` and takes it, with
    /// `decode_time_us` as the time that decoding took.
    pub fn process_datagram(&mut self, now: u64, data: &[u8], decode_time_us: u64) -> (outcome:
        DatagramOutcome)
        requires
            old(self).wf(),
            room_for_datagram(old(self)@, decode(data@) is Some),
        ensures
            final(self)@ == after_datagram(
                old(self)@,
                now,
                data@.len() as usize,
                decode(data@),
                decode_time_us,
            ),
            outcome == datagram_outcome(old(self)@, decode(data@), decode_time_us),
            final(self).wf(),
    {
        let decoded = Telemetry::from_bytes(data);
        self.process_decoded(now, data.len(), decoded, decode_time_us)
    }

    /// Takes a receive attempt that failed at `now`, and hands back the fault
    /// that it raised: loss of contact at the third failure in a row, nothing
    /// at any other.
    pub fn on_receive_error(&mut self, now: u64) -> (fault: Option<Fault>)
        requires
            old(self).wf(),
            room_for_receive_error(old(self)@),
        ensures
            final(self)@ == after_receive_error(old(self)@, now),
            fault == receive_error_fault(old(self)@),
            final(self).wf(),
    {
        if self.metrics.record_packet_lost() {
            let fault = Fault::LossOfContact;
            self.metrics.record_fault(&fault);
            self.start_fault_clock(now);
            Some(fault)
        } else {
            None
        }
    }

    /// Whether a fault awaits a response.
    pub fn fault_active(&self) -> (r: bool)
        ensures
            r == (self@.fault_since is Some),
    {
        self.fault_since.is_some()
    }

    /// Responds at `now` to the outstanding fault: records the time since it
    /// was raised and says whether that exceeded the response-time target.
    /// With no fault outstanding, nothing changes.
    pub fn resolve_fault(&mut self, now: u64) -> (response: Option<FaultResponse>)
        ensures
            final(self)@ == after_fault_response(old(self)@, now),
            response == fault_response(old(self)@, now),
            old(self).wf() ==> final(self).wf(),
    {
        match self.fault_since {
            Some(since) => {
                let response_time_ms: u64 = elapsed(since, now) / 1000;
                let late = self.metrics.record_fault_response(response_time_ms);
                self.fault_since = None;
                Some(FaultResponse { response_time_ms, late })
            },
            None => None,
        }
    }

    /// Takes a command submitted for uplink: it is counted and put into the
    /// queue. If the queue was full, the command that had waited longest is
    /// handed back.
    pub fn submit_command(&mut self, command: Command) -> (evicted: Option<Command>)
        requires
            old(self)@.link.commands_received < u64::MAX,
        ensures
            final(self)@ == (GroundModel {
                link: LinkModel {
                    commands_received: old(self)@.link.commands_received + 1,
                    ..old(self)@.link
                },
                queue: after_arrival(old(self)@.queue, command),
                ..old(self)@
            }),
            evicted == evicted_by_arrival(old(self)@.queue),
            old(self).wf() ==> final(self).wf(),
    {
        self.metrics.record_command_received();
        self.command_queue.add_command(command)
    }

    /// Takes the next command to send from the queue, and says whether it is
    /// overdue at `now`. The counters are left alone until the dispatch is
    /// recorded.
    pub fn dispatch_next(&mut self, now: u64) -> (r: Option<(Command, bool)>)
        ensures
            old(self)@.queue.len() == 0 ==> r is None && final(self)@ == old(self)@,
            old(self)@.queue.len() > 0 ==> r == Some(
                (
                    old(self)@.queue[next_index(old(self)@.queue)],
                    overdue(old(self)@.queue[next_index(old(self)@.queue)], now),
                ),
            ) && final(self)@ == (GroundModel {
                queue: old(self)@.queue.remove(next_index(old(self)@.queue)),
                ..old(self)@
            }),
            old(self).wf() ==> final(self).wf(),
    {
        self.command_queue.dispatch_next(now)
    }

    /// Whether one more dispatch can be recorded.
    pub fn can_record_dispatch(&self) -> (r: bool)
        ensures
            r == (self@.link.commands_dispatched < u64::MAX),
    {
        self.metrics.can_record_dispatch()
    }

    /// Records that a command was sent, which took `dispatch_time_us`, and
    /// says whether that exceeded the dispatch-time target.
    pub fn record_dispatch(&mut self, dispatch_time_us: u64, was_overdue: bool) -> (slow: bool)
        requires
            old(self).wf(),
            old(self)@.link.commands_dispatched < u64::MAX,
        ensures
            final(self)@ == (GroundModel {
                link: after_dispatch(old(self)@.link, was_overdue),
                ..old(self)@
            }),
            slow == (dispatch_time_us > COMMAND_DISPATCH_THRESHOLD_US),
            final(self).wf(),
    {
        self.metrics.record_command_dispatched(dispatch_time_us, was_overdue)
    }

    /// Records that a command was refused, with the reason for refusing it.
    pub fn reject_command(&mut self, reason: &str)
        requires
            old(self)@.link.commands_rejected < u64::MAX,
        ensures
            final(self)@ == (GroundModel {
                link: after_rejection(old(self)@.link, reason@),
                ..old(self)@
            }),
            old(self).wf() ==> final(self).wf(),
    {
        self.metrics.record_command_rejected(reason);
    }

    /// Records that a safety interlock refused an action, with the reason
    /// that triggered it.
    pub fn record_interlock(&mut self, reason: &str)
        requires
            old(self)@.link.interlock_count < u64::MAX,
        ensures
            final(self)@ == (GroundModel {
                link: after_interlock(old(self)@.link, reason@),
                ..old(self)@
            }),
            old(self).wf() ==> final(self).wf(),
    {
        self.metrics.record_interlock(reason);
    }

    /// The report at the instant `now`.
    pub fn report(&self, now: u64) -> (snapshot: MetricsSnapshot)
        requires
            self.wf(),
        ensures
            snapshot == snapshot_of(self@.link, now),
            snapshot.packets_received == snapshot.valid_packets + snapshot.invalid_packets,
    {
        self.metrics.report(now)
    }
}

/// The station after a run of failed receive attempts at the given instants.
pub open spec fn after_receive_errors(g: GroundModel, times: Seq<u64>) -> GroundModel
    decreases times.len(),
{
    if times.len() == 0 {
        g
    } else {
        after_receive_error(after_receive_errors(g, times.drop_last()), times.last())
    }
}

/// A run of failed receive attempts that starts when no loss is outstanding
/// raises loss of contact exactly once if it has three failures or more, and
/// not at all if it has fewer; no other fault is counted.
pub proof fn lemma_receive_errors_raise_loss_of_contact_once(g: GroundModel, times: Seq<u64>)
    requires
        g.link.consecutive_lost == 0,
    ensures
        after_receive_errors(g, times).link.consecutive_lost == times.len(),
        after_receive_errors(g, times).link.loss_of_contact_count == g.link.loss_of_contact_count
            + (if times.len() >= LOSS_OF_CONTACT_THRESHOLD {
            1nat
        } else {
            0nat
        }),
        after_receive_errors(g, times).link.faults_detected == g.link.faults_detected + (
        if times.len() >= LOSS_OF_CONTACT_THRESHOLD {
            1nat
        } else {
            0nat
        }),
        after_receive_errors(g, times).link.packets_received == g.link.packets_received,
    decreases times.len(),
{
    if times.len() > 0 {
        lemma_receive_errors_raise_loss_of_contact_once(g, times.drop_last());
    }
}

/// Any datagram, whatever it holds, ends the run of failed receive attempts:
/// after a datagram with a reading no loss is outstanding, after one without
/// a reading exactly one is, and neither raises loss of contact.
pub proof fn lemma_datagram_restores_contact(
    g: GroundModel,
    now: u64,
    bytes: usize,
    decoded: Option<Telemetry>,
    decode_time_us: u64,
)
    ensures
        after_datagram(g, now, bytes, decoded, decode_time_us).link.consecutive_lost == (
        if decoded is Some {
            0nat
        } else {
            1nat
        }),
        after_datagram(g, now, bytes, decoded, decode_time_us).link.loss_of_contact_count
            == g.link.loss_of_contact_count,
        after_datagram(g, now, bytes, decoded, decode_time_us).link.packets_received
            == g.link.packets_received + 1,
{
}

} // verus!
