//! Failures, as the host reports them and as the driver returns them.

use vstd::prelude::*;

verus! {

/// Why an operation failed. The collaborator's own error value is carried
/// untouched.
#[derive(Debug)]
pub enum Error<BusE, PinE> {
    /// A bus write failed.
    Bus(BusE),
    /// Setting a control line failed.
    Pin(PinE),
}

/// How the action that the driver handed out last went.
#[derive(Debug)]
pub enum Event<BusE, PinE> {
    /// It was carried out.
    Done,
    /// It was a bus write, and the bus refused it.
    BusFailed(BusE),
    /// It was a line change, and the pin refused it.
    PinFailed(PinE),
}

} // verus!
