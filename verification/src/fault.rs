//! Fault events raised by the ground station.

use crate::telemetry::{critical, Telemetry};
use vstd::prelude::*;

verus! {

/// Something that went wrong on the link or aboard the spacecraft.
#[derive(Debug, Clone, Copy, PartialEq, Eq, Structural)]
pub enum Fault {
    HighTemperature(i16),
    LowBattery(u16),
    AntennaMisalignment(i16),
    PacketLoss(u32),
    LossOfContact,
}

/// The fault that a decoded reading raises: every critical reading is
/// reported as a temperature fault carrying the reading's temperature,
/// whichever threshold it crossed; any other reading raises nothing.
pub open spec fn telemetry_fault(t: Telemetry) -> Option<Fault> {
    if critical(t) {
        Some(Fault::HighTemperature(t.temperature))
    } else {
        None
    }
}

/// The fault, if any, that a decoded reading raises.
pub fn fault_for(t: &Telemetry) -> (f: Option<Fault>)
    ensures
        f == telemetry_fault(*t),
{
    if t.is_critical() {
        Some(Fault::HighTemperature(t.temperature))
    } else {
        None
    }
}

} // verus!
