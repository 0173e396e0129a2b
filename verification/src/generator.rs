//! The spacecraft-side source of telemetry readings: nominal readings that
//! wander a little around fixed base values, and a fixed set of six
//! out-of-bounds readings used to exercise the ground station.

use crate::telemetry::{critical, edge_case, Telemetry};
use rand::Rng;
use vstd::prelude::*;

verus! {

/// Largest departure, in degrees Celsius, of a nominal temperature from the
/// base temperature.
pub const TEMPERATURE_SPREAD: i16 = 10;

/// Smallest battery drain, in millivolts, of a nominal reading.
pub const MIN_BATTERY_DRAIN: u16 = 1;

/// Largest battery drain, in millivolts, of a nominal reading.
pub const MAX_BATTERY_DRAIN: u16 = 5;

/// Largest departure, in degrees, of a nominal antenna angle from zero.
pub const ANTENNA_SPREAD: i16 = 5;

/// Number of distinct out-of-bounds readings.
pub const EDGE_CASE_KINDS: u8 = 6;

/// The thread-local random number generator of the `rand` crate. Nothing
/// is known of its state.
#[verifier::external_type_specification]
#[verifier::external_body]
pub struct ExThreadRng(rand::rngs::ThreadRng);

/// Produces telemetry readings around a base temperature and battery level.
pub struct TelemetryGenerator {
    pub rng: rand::rngs::ThreadRng,
    pub base_temperature: i16,
    pub base_battery: u16,
}

/// The nominal reading that the three given variations produce.
pub open spec fn nominal_reading(
    base_temperature: i16,
    base_battery: u16,
    timestamp_ms: u64,
    temp_variation: i16,
    battery_drain: u16,
    antenna_variation: i16,
) -> Telemetry {
    Telemetry {
        timestamp_ms,
        temperature: (base_temperature + temp_variation) as i16,
        battery_mv: if base_battery >= battery_drain {
            (base_battery - battery_drain) as u16
        } else {
            0
        },
        antenna_angle: antenna_variation,
    }
}

/// Whether the three variations lie within the spreads of a nominal reading.
pub open spec fn nominal_variations(
    temp_variation: i16,
    battery_drain: u16,
    antenna_variation: i16,
) -> bool {
    &&& -TEMPERATURE_SPREAD <= temp_variation <= TEMPERATURE_SPREAD
    &&& MIN_BATTERY_DRAIN <= battery_drain <= MAX_BATTERY_DRAIN
    &&& -ANTENNA_SPREAD <= antenna_variation <= ANTENNA_SPREAD
}

/// The out-of-bounds reading of the given kind; kinds repeat every six.
pub open spec fn edge_case_reading(
    base_temperature: i16,
    base_battery: u16,
    timestamp_ms: u64,
    case_type: u8,
) -> Telemetry {
    let kind = case_type % EDGE_CASE_KINDS;
    if kind == 0 {
        Telemetry {
            timestamp_ms,
            temperature: -50i16,
            battery_mv: base_battery,
            antenna_angle: 0,
        }
    } else if kind == 1 {
        Telemetry { timestamp_ms, temperature: 125, battery_mv: base_battery, antenna_angle: 0 }
    } else if kind == 2 {
        Telemetry { timestamp_ms, temperature: base_temperature, battery_mv: 2000, antenna_angle: 0 }
    } else if kind == 3 {
        Telemetry { timestamp_ms, temperature: base_temperature, battery_mv: 0, antenna_angle: 0 }
    } else if kind == 4 {
        Telemetry {
            timestamp_ms,
            temperature: base_temperature,
            battery_mv: base_battery,
            antenna_angle: -90i16,
        }
    } else {
        Telemetry {
            timestamp_ms,
            temperature: base_temperature,
            battery_mv: base_battery,
            antenna_angle: 90,
        }
    }
}

/// Calls `rand::thread_rng`, which hands out the calling thread's generator.
/// Nothing is claimed of the generator's state. The call panics if the
/// operating system cannot seed the generator.
#[verifier::external_body]
fn thread_generator() -> (rng: rand::rngs::ThreadRng) {
    rand::thread_rng()
}

/// Calls `Rng::gen_range` on the inclusive range `low..=high` of `i16`.
/// The draw is random; all that is claimed is that it lies in the range.
/// The call panics on an empty range, which `requires` leaves out.
#[verifier::external_body]
fn draw_i16(rng: &mut rand::rngs::ThreadRng, low: i16, high: i16) -> (v: i16)
    requires
        low <= high,
    ensures
        low <= v <= high,
{
    rng.gen_range(low..=high)
}

/// Calls `Rng::gen_range` on the inclusive range `low..=high` of `u16`.
/// The draw is random; all that is claimed is that it lies in the range.
/// The call panics on an empty range, which `requires` leaves out.
#[verifier::external_body]
fn draw_u16(rng: &mut rand::rngs::ThreadRng, low: u16, high: u16) -> (v: u16)
    requires
        low <= high,
    ensures
        low <= v <= high,
{
    rng.gen_range(low..=high)
}

impl TelemetryGenerator {
    /// A generator around 20 degrees Celsius and 8000 millivolts, drawing from
    /// the calling thread's random number generator.
    pub fn new() -> (g: TelemetryGenerator)
        ensures
            g.base_temperature == 20,
            g.base_battery == 8000,
    {
        TelemetryGenerator { rng: thread_generator(), base_temperature: 20, base_battery: 8000 }
    }

    /// Whether the base temperature leaves room for the temperature spread
    /// within the range of `i16`.
    pub open spec fn spread_fits(&self) -> bool {
        i16::MIN + TEMPERATURE_SPREAD <= self.base_temperature <= i16::MAX - TEMPERATURE_SPREAD
    }

    /// Whether the base temperature leaves room for the temperature spread.
    pub fn spread_fits_now(&self) -> (r: bool)
        ensures
            r == self.spread_fits(),
    {
        i16::MIN + TEMPERATURE_SPREAD <= self.base_temperature && self.base_temperature
            <= i16::MAX - TEMPERATURE_SPREAD
    }

    /// The nominal reading that the given variations produce around this
    /// generator's base values. The battery level never drops below zero.
    pub fn reading_with(
        &self,
        timestamp_ms: u64,
        temp_variation: i16,
        battery_drain: u16,
        antenna_variation: i16,
    ) -> (t: Telemetry)
        requires
            i16::MIN <= self.base_temperature + temp_variation <= i16::MAX,
        ensures
            t == nominal_reading(
                self.base_temperature,
                self.base_battery,
                timestamp_ms,
                temp_variation,
                battery_drain,
                antenna_variation,
            ),
    {
        Telemetry {
            timestamp_ms,
            temperature: self.base_temperature + temp_variation,
            battery_mv: self.base_battery.saturating_sub(battery_drain),
            antenna_angle: antenna_variation,
        }
    }

    /// Draws a nominal reading: temperature within 10 degrees of the base,
    /// battery 1 to 5 millivolts under the base, antenna within 5 degrees of
    /// zero. Which reading of these comes out is left to chance.
    pub fn generate_normal(&mut self, timestamp_ms: u64) -> (t: Telemetry)
        requires
            old(self).spread_fits(),
        ensures
            final(self).base_temperature == old(self).base_temperature,
            final(self).base_battery == old(self).base_battery,
            exists|temp_variation: i16, battery_drain: u16, antenna_variation: i16|
                nominal_variations(temp_variation, battery_drain, antenna_variation) && t
                    == #[trigger] nominal_reading(
                    old(self).base_temperature,
                    old(self).base_battery,
                    timestamp_ms,
                    temp_variation,
                    battery_drain,
                    antenna_variation,
                ),
    {
        let temp_variation: i16 = draw_i16(&mut self.rng, -TEMPERATURE_SPREAD, TEMPERATURE_SPREAD);
        let battery_drain: u16 = draw_u16(&mut self.rng, MIN_BATTERY_DRAIN, MAX_BATTERY_DRAIN);
        let antenna_variation: i16 = draw_i16(&mut self.rng, -ANTENNA_SPREAD, ANTENNA_SPREAD);
        self.reading_with(timestamp_ms, temp_variation, battery_drain, antenna_variation)
    }

    /// The out-of-bounds reading of kind `case_type % 6`: extreme cold,
    /// extreme heat, low battery, dead battery, antenna hard left, antenna
    /// hard right. The generator itself is left as it was.
    pub fn generate_edge_case(&mut self, timestamp_ms: u64, case_type: u8) -> (t: Telemetry)
        ensures
            *final(self) == *old(self),
            t == edge_case_reading(
                old(self).base_temperature,
                old(self).base_battery,
                timestamp_ms,
                case_type,
            ),
    {
        let kind: u8 = case_type % EDGE_CASE_KINDS;
        if kind == 0 {
            Telemetry {
                timestamp_ms,
                temperature: -50,
                battery_mv: self.base_battery,
                antenna_angle: 0,
            }
        } else if kind == 1 {
            Telemetry {
                timestamp_ms,
                temperature: 125,
                battery_mv: self.base_battery,
                antenna_angle: 0,
            }
        } else if kind == 2 {
            Telemetry {
                timestamp_ms,
                temperature: self.base_temperature,
                battery_mv: 2000,
                antenna_angle: 0,
            }
        } else if kind == 3 {
            Telemetry {
                timestamp_ms,
                temperature: self.base_temperature,
                battery_mv: 0,
                antenna_angle: 0,
            }
        } else if kind == 4 {
            Telemetry {
                timestamp_ms,
                temperature: self.base_temperature,
                battery_mv: self.base_battery,
                antenna_angle: -90,
            }
        } else {
            Telemetry {
                timestamp_ms,
                temperature: self.base_temperature,
                battery_mv: self.base_battery,
                antenna_angle: 90,
            }
        }
    }
}

/// Every out-of-bounds reading is classified as an edge case, and the first
/// four kinds (temperature and battery) as critical, whatever the base values.
pub proof fn lemma_edge_case_readings_are_edge_cases(
    base_temperature: i16,
    base_battery: u16,
    timestamp_ms: u64,
    case_type: u8,
)
    ensures
        edge_case(edge_case_reading(base_temperature, base_battery, timestamp_ms, case_type)),
        case_type % EDGE_CASE_KINDS < 4 ==> critical(
            edge_case_reading(base_temperature, base_battery, timestamp_ms, case_type),
        ),
{
}

/// Around base values that keep a margin from the safety thresholds, no
/// nominal reading is an edge case.
pub proof fn lemma_nominal_readings_are_safe(
    base_temperature: i16,
    base_battery: u16,
    timestamp_ms: u64,
    temp_variation: i16,
    battery_drain: u16,
    antenna_variation: i16,
)
    requires
        nominal_variations(temp_variation, battery_drain, antenna_variation),
        -30 <= base_temperature <= 90,
        base_battery >= 3005,
    ensures
        !edge_case(
            nominal_reading(
                base_temperature,
                base_battery,
                timestamp_ms,
                temp_variation,
                battery_drain,
                antenna_variation,
            ),
        ),
{
}

} // verus!
