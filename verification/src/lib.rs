//! Core logic of a battery-powered environmental sensor node.
//!
//! The crate models the node's three central subsystems: the gas /
//! temperature / humidity / pressure sensor driver (factory-calibration
//! decoding, register bit packing and raw-code compensation), the duty-cycle
//! controller that drives the sensor from fusion-algorithm guidance, and the
//! reference-counted sleep scheduler that gates entry into low-power sleep.
//! Hardware access, the vendor fusion binary and the network transport live
//! outside this crate; they exchange plain values with the functions here.

use vstd::prelude::*;

pub mod bsec;
pub mod calib;
pub mod comp;
pub mod controller;
pub mod driver;
pub mod led;
pub mod packet;
pub mod queue;
pub mod regs;
pub mod req;
pub mod sleep;
pub mod utils;

verus! {

/// Failures surfaced by the node's core logic.
///
/// Bus and fusion failures are fatal for the running cycle; `SensorBusy`
/// is recoverable: the caller skips the cycle and waits for the next
/// scheduled action.
#[derive(Debug, Clone, Copy, PartialEq, Eq, Structural)]
pub enum CoreError {
    /// A register read or write failed on the hardware bus.
    Bus,
    /// The fusion algorithm rejected a query or a feed step.
    Fusion,
    /// The sensor still reported an in-flight conversion after the
    /// whole retry budget was spent.
    SensorBusy,
    /// A raw value handed in from outside did not decode to any known
    /// enumeration variant.
    InvalidValue,
}

} // verus!
