//! Resistive heater: a digital output driven in fixed timed pulses.
//!
//! A heat command opens one pulse window: the pin goes high and stays
//! high for the fixed interval.  The delay is a suspension point, so the
//! window is handed to the caller: it replays the returned actions and
//! closes the pulse with [`Heater::stop`] once the delay has elapsed,
//! which returns the state to `Off`.  `stop` also forces the output low
//! unconditionally at any other time.

use vstd::prelude::*;
use crate::gpio::PinAction;

verus! {

/// Length of one heat pulse, in milliseconds.
pub const HEAT_PULSE_MS: u64 = 1000;

#[derive(Clone, Copy, Debug, PartialEq, Eq, Structural)]
pub enum HeaterState {
    Off,
    Heating,
}

/// The heater's logical state and the level it last commanded on its pin.
pub struct Heater {
    state: HeaterState,
    level: bool,
}

impl Heater {
    /// The state never strays from the output: the pin is commanded high
    /// exactly while a pulse window is open.
    pub closed spec fn wf(self) -> bool {
        self.level <==> self.state is Heating
    }

    pub closed spec fn spec_state(self) -> HeaterState {
        self.state
    }

    /// A fresh heater: output low, state `Off`.
    pub fn new() -> (r: Heater)
        ensures
            r.wf(),
            r.spec_state() is Off,
    {
        Heater { state: HeaterState::Off, level: false }
    }

    /// Opens one timed heat pulse: the pin goes high for
    /// [`HEAT_PULSE_MS`].  The caller replays the actions and calls
    /// [`Heater::stop`] when the delay has elapsed, completing the pulse.
    pub fn heat(&mut self) -> (t: Vec<PinAction>)
        ensures
            final(self).wf(),
            final(self).spec_state() is Heating,
            t@ == seq![PinAction::SetHigh, PinAction::Delay(HEAT_PULSE_MS)],
    {
        self.state = HeaterState::Heating;
        self.level = true;
        let mut t: Vec<PinAction> = Vec::new();
        t.push(PinAction::SetHigh);
        t.push(PinAction::Delay(HEAT_PULSE_MS));
        assert(t@ =~= seq![PinAction::SetHigh, PinAction::Delay(HEAT_PULSE_MS)]);
        t
    }

    /// Forces the output low and the state to `Off`, whatever held
    /// before.
    pub fn stop(&mut self) -> (t: Vec<PinAction>)
        ensures
            final(self).wf(),
            final(self).spec_state() is Off,
            t@ == seq![PinAction::SetLow],
    {
        self.level = false;
        self.state = HeaterState::Off;
        let mut t: Vec<PinAction> = Vec::new();
        t.push(PinAction::SetLow);
        assert(t@ =~= seq![PinAction::SetLow]);
        t
    }

    /// The current logical state.
    pub fn state(&self) -> (r: &HeaterState)
        ensures
            *r == self.spec_state(),
    {
        &self.state
    }
}

} // verus!
