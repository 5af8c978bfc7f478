//! One cycle of the acquisition loop: from what the sensor bus delivered
//! to what goes onto the telemetry bus.

use crate::sensor_reading::parsed;
use crate::sensor_reading::PlantowerFrame;
use crate::telemetry_bus::accepts;
use crate::telemetry_bus::publish_step;
use crate::telemetry_bus::TelemetryBus;
use vstd::prelude::*;

verus! {

/// Address of the sensor on its bus.
pub const SENSOR_ADDRESS: u8 = 0x12;

/// Time between two polls of the sensor, in seconds.
pub const SAMPLE_INTERVAL_SECS: u64 = 10;

/// How a cycle ended.
#[derive(Clone, Copy, Debug, PartialEq, Eq)]
pub enum CycleOutcome {
    /// The cycle produced no reading: the transfer failed, or the frame
    /// was rejected.
    NoReading,
    /// The reading is on the bus.
    Published(PlantowerFrame),
    /// The bus is full: the reading is still to be published, once the
    /// slowest consumer has made room.
    Refused(PlantowerFrame),
}

/// The reading of a cycle: that of the frame the transfer delivered, if
/// it delivered one and the frame is valid. A failed transfer counts as a
/// rejected frame.
pub open spec fn acquired(transfer: Option<[u8; 32]>) -> Option<PlantowerFrame> {
    match transfer {
        Some(raw) => parsed(raw@),
        None => None,
    }
}

/// How a cycle ends on a bus with these backlogs.
pub open spec fn outcome_of(
    backlogs: Seq<Seq<PlantowerFrame>>,
    transfer: Option<[u8; 32]>,
) -> CycleOutcome {
    match acquired(transfer) {
        Some(reading) => if accepts(backlogs) {
            CycleOutcome::Published(reading)
        } else {
            CycleOutcome::Refused(reading)
        },
        None => CycleOutcome::NoReading,
    }
}

/// The backlogs after a cycle: a reading is offered to the bus, and
/// nothing else touches it.
pub open spec fn backlogs_after_cycle(
    backlogs: Seq<Seq<PlantowerFrame>>,
    transfer: Option<[u8; 32]>,
) -> Seq<Seq<PlantowerFrame>> {
    match acquired(transfer) {
        Some(reading) => publish_step(backlogs, reading),
        None => backlogs,
    }
}

/// Decodes what one poll of the sensor delivered; `None` stands for a
/// transfer that failed.
pub fn acquire(transfer: Option<[u8; 32]>) -> (reading: Option<PlantowerFrame>)
    ensures
        reading == acquired(transfer),
        reading matches Some(frame) ==> frame.well_formed(),
{
    match transfer {
        Some(raw) => PlantowerFrame::parse(&raw),
        None => None,
    }
}

/// Runs one cycle: decodes what the poll delivered and offers the
/// reading, if there is one, to the bus.
pub fn run_cycle(bus: &mut TelemetryBus, transfer: Option<[u8; 32]>) -> (outcome: CycleOutcome)
    ensures
        outcome == outcome_of(old(bus)@, transfer),
        final(bus)@ == backlogs_after_cycle(old(bus)@, transfer),
{
    match acquire(transfer) {
        Some(reading) => {
            if bus.publish(reading) {
                CycleOutcome::Published(reading)
            } else {
                CycleOutcome::Refused(reading)
            }
        },
        None => CycleOutcome::NoReading,
    }
}

} // verus!
