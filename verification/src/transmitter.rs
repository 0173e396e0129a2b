//! The spacecraft-side telemetry emitter: which packet to send at each turn
//! of a run, what to count once it is sent, and whether to log and to pause.
//!
//! The caller owns the socket and the clock. At each turn it asks for the
//! next packet, sends it, and reports back how the send went.

use crate::generator::{edge_case_reading, nominal_reading, nominal_variations, TelemetryGenerator};
use crate::metrics::{room_for_send, PerformanceMetrics};
use crate::telemetry::{encode, Telemetry, TELEMETRY_SIZE};
use vstd::prelude::*;

verus! {

/// In a continuous run, every turn whose number is a positive multiple of
/// this sends an out-of-bounds reading.
pub const CONTINUOUS_EDGE_INTERVAL: u64 = 50;

/// In a continuous run, every turn whose number is a multiple of this is
/// logged.
pub const CONTINUOUS_LOG_INTERVAL: u64 = 100;

/// In a normal or mixed run, every turn whose number is a multiple of this is
/// logged.
pub const LOG_INTERVAL: u64 = 10;

/// The kind of run.
#[derive(Debug, Clone, Copy, PartialEq, Eq, Structural)]
pub enum Mode {
    /// Nominal readings only.
    Normal,
    /// Out-of-bounds readings only.
    EdgeCase,
    /// Nominal readings, with an out-of-bounds reading wherever chance has it.
    Mixed,
    /// Nominal readings without end, with an out-of-bounds reading at
    /// regular intervals.
    Continuous,
}

/// A packet ready to be sent.
#[derive(Debug, Clone, Copy)]
pub struct Transmission {
    pub telemetry: Telemetry,
    pub packet: [u8; TELEMETRY_SIZE],
    pub is_edge_case: bool,
}

/// Whether turn number `index` of a run sends an out-of-bounds reading.
/// `chance` is the outcome of the draw that a mixed run makes at each turn.
pub open spec fn edge_turn(mode: Mode, index: u64, chance: bool) -> bool {
    match mode {
        Mode::Normal => false,
        Mode::EdgeCase => true,
        Mode::Mixed => chance,
        Mode::Continuous => index % CONTINUOUS_EDGE_INTERVAL == 0 && index > 0,
    }
}

/// The kind of out-of-bounds reading sent at turn number `index`: the low
/// eight bits of the turn number, or in a continuous run its remainder by
/// six.
pub open spec fn edge_kind(mode: Mode, index: u64) -> u8 {
    match mode {
        Mode::Continuous => (index % 6) as u8,
        _ => (index % 256) as u8,
    }
}

/// Whether turn number `index` of a run of `count` turns is worth a log
/// line, once its packet is sent.
pub open spec fn worth_logging(mode: Mode, index: u64, count: u64, is_edge_case: bool) -> bool {
    match mode {
        Mode::Normal => index % LOG_INTERVAL == 0 || index + 1 == count,
        Mode::EdgeCase => true,
        Mode::Mixed => index % LOG_INTERVAL == 0 || is_edge_case,
        Mode::Continuous => index % CONTINUOUS_LOG_INTERVAL == 0,
    }
}

/// Whether a pause follows turn number `index` of a run of `count` turns:
/// after every turn but the last, and after every turn of a continuous run.
pub open spec fn pause_follows(mode: Mode, index: u64, count: u64) -> bool {
    match mode {
        Mode::Continuous => true,
        _ => index + 1 < count,
    }
}

/// What to do after a packet was handed to the socket.
#[derive(Debug, Clone, Copy, PartialEq, Eq, Structural)]
pub struct AfterSend {
    /// Write a log line for this turn.
    pub log: bool,
    /// Wait for one interval before the next turn.
    pub pause: bool,
}

/// The telemetry emitter.
pub struct Transmitter {
    pub metrics: PerformanceMetrics,
    pub generator: TelemetryGenerator,
}

impl Transmitter {
    /// An emitter with fresh counters, counting from the instant `now`, and a
    /// generator around the default base values.
    pub fn new(now: u64) -> (t: Transmitter)
        ensures
            t.metrics.packets_sent == 0,
            t.metrics.edge_case_count == 0,
            t.metrics.start_time == now,
            t.generator.base_temperature == 20,
            t.generator.base_battery == 8000,
            t.generator.spread_fits(),
    {
        Transmitter { metrics: PerformanceMetrics::new(now), generator: TelemetryGenerator::new() }
    }

    /// The packet to send at turn number `index`, stamped `timestamp_ms`.
    ///
    /// Whether it holds an out-of-bounds reading follows from the mode, the
    /// turn number and, in a mixed run, `chance`. An out-of-bounds reading is
    /// the one of the kind that the turn number selects; a nominal reading is
    /// drawn at random within the nominal spreads.
    pub fn next_packet(&mut self, mode: Mode, index: u64, timestamp_ms: u64, chance: bool) -> (out:
        Transmission)
        requires
            old(self).generator.spread_fits(),
        ensures
            final(self).metrics == old(self).metrics,
            final(self).generator.base_temperature == old(self).generator.base_temperature,
            final(self).generator.base_battery == old(self).generator.base_battery,
            out.is_edge_case == edge_turn(mode, index, chance),
            out.packet@ == encode(out.telemetry),
            out.is_edge_case ==> out.telemetry == edge_case_reading(
                old(self).generator.base_temperature,
                old(self).generator.base_battery,
                timestamp_ms,
                edge_kind(mode, index),
            ),
            !out.is_edge_case ==> exists|
                temp_variation: i16,
                battery_drain: u16,
                antenna_variation: i16,
            |
                nominal_variations(temp_variation, battery_drain, antenna_variation)
                    && out.telemetry == #[trigger] nominal_reading(
                    old(self).generator.base_temperature,
                    old(self).generator.base_battery,
                    timestamp_ms,
                    temp_variation,
                    battery_drain,
                    antenna_variation,
                ),
    {
        let is_edge_case = match mode {
            Mode::Normal => false,
            Mode::EdgeCase => true,
            Mode::Mixed => chance,
            Mode::Continuous => index % CONTINUOUS_EDGE_INTERVAL == 0 && index > 0,
        };
        let telemetry = if is_edge_case {
            let kind: u8 = match mode {
                Mode::Continuous => (index % 6) as u8,
                _ => (index % 256) as u8,
            };
            self.generator.generate_edge_case(timestamp_ms, kind)
        } else {
            self.generator.generate_normal(timestamp_ms)
        };
        Transmission { telemetry, packet: telemetry.to_bytes(), is_edge_case }
    }

    /// Whether the packet of this turn, if sent, can be counted.
    pub fn can_record_sent(&self, latency_us: u128, bytes_sent: usize, is_edge_case: bool) -> (r:
        bool)
        ensures
            r == room_for_send(self.metrics, latency_us, bytes_sent, is_edge_case),
    {
        self.metrics.can_record_send(latency_us, bytes_sent, is_edge_case)
    }

    /// Counts the packet of turn number `index`, of which `bytes_sent` bytes
    /// went out in `latency_us`, and says whether to log the turn and whether
    /// to pause before the next.
    pub fn record_sent(
        &mut self,
        mode: Mode,
        index: u64,
        count: u64,
        latency_us: u128,
        bytes_sent: usize,
        is_edge_case: bool,
    ) -> (next: AfterSend)
        requires
            room_for_send(old(self).metrics, latency_us, bytes_sent, is_edge_case),
        ensures
            final(self).generator == old(self).generator,
            final(self).metrics.packets_sent == old(self).metrics.packets_sent + 1,
            final(self).metrics.total_bytes_sent == old(self).metrics.total_bytes_sent
                + bytes_sent,
            final(self).metrics.send_latency_us == old(self).metrics.send_latency_us + latency_us,
            final(self).metrics.edge_case_count == old(self).metrics.edge_case_count + (
            if is_edge_case {
                1int
            } else {
                0int
            }),
            next.log == worth_logging(mode, index, count, is_edge_case),
            next.pause == pause_follows(mode, index, count),
    {
        self.metrics.record_send(latency_us, bytes_sent, is_edge_case);
        AfterSend { log: should_log(mode, index, count, is_edge_case), pause: should_pause(mode, index, count) }
    }

    /// What follows a turn whose packet could not be sent: nothing is
    /// counted and nothing logged; the run pauses as after any other turn.
    pub fn send_failed(&self, mode: Mode, index: u64, count: u64) -> (next: AfterSend)
        ensures
            !next.log,
            next.pause == pause_follows(mode, index, count),
    {
        AfterSend { log: false, pause: should_pause(mode, index, count) }
    }
}

/// Whether turn number `index` of a run of `count` turns is worth a log line.
pub fn should_log(mode: Mode, index: u64, count: u64, is_edge_case: bool) -> (r: bool)
    ensures
        r == worth_logging(mode, index, count, is_edge_case),
{
    match mode {
        Mode::Normal => index % LOG_INTERVAL == 0 || (index < count && index == count - 1),
        Mode::EdgeCase => true,
        Mode::Mixed => index % LOG_INTERVAL == 0 || is_edge_case,
        Mode::Continuous => index % CONTINUOUS_LOG_INTERVAL == 0,
    }
}

/// Whether a pause follows turn number `index` of a run of `count` turns.
pub fn should_pause(mode: Mode, index: u64, count: u64) -> (r: bool)
    ensures
        r == pause_follows(mode, index, count),
{
    match mode {
        Mode::Continuous => true,
        _ => index < count && index < count - 1,
    }
}

} // verus!
