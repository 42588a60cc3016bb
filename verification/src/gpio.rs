//! Actions on the actuator outputs.
//!
//! An actuator method never touches a pin or a timer itself: it returns
//! the exact sequence of output commands and timed waits to perform, and
//! the caller replays them on the hardware in order.

use vstd::prelude::*;

verus! {

/// One step of a digital-output actuator: drive the pin high or low, or
/// suspend for the given number of milliseconds.
#[derive(Clone, Copy, Debug, PartialEq, Eq, Structural)]
pub enum PinAction {
    SetHigh,
    SetLow,
    Delay(u64),
}

} // verus!
