//! Gas solenoid valve: a digital output with idle, burst and continuous
//! regimes.
//!
//! A burst is one timed open/close pulse and always ends back in `Idle`,
//! whatever state the valve was in: a valve that is open when a burst is
//! requested is first closed.  The continuous regime is entered and left
//! only by its explicit start and stop calls, never by a burst.

use vstd::prelude::*;
use crate::gpio::PinAction;

verus! {

#[derive(Clone, Copy, Debug, PartialEq, Eq, Structural)]
pub enum Co2State {
    Idle,
    Burst,
    Continuous,
}

/// The valve's logical state and the level it last commanded on its pin.
/// `Burst` names the in-flight state while a burst's actions are being
/// replayed; the state stored between calls is `Idle` or `Continuous`.
pub struct Co2Solenoid {
    state: Co2State,
    level: bool,
}

impl Co2Solenoid {
    /// The valve is commanded open exactly in the continuous regime, once
    /// the in-flight burst actions have been replayed.
    pub closed spec fn wf(self) -> bool {
        &&& (self.level <==> self.state is Continuous)
        &&& !(self.state is Burst)
    }

    pub closed spec fn spec_state(self) -> Co2State {
        self.state
    }

    /// A fresh valve.  The initial pin level is what the output was
    /// created with: a valve created open is in the continuous regime.
    pub fn new(initial_high: bool) -> (r: Co2Solenoid)
        ensures
            r.wf(),
            r.spec_state() == (if initial_high { Co2State::Continuous } else { Co2State::Idle }),
    {
        if initial_high {
            Co2Solenoid { state: Co2State::Continuous, level: true }
        } else {
            Co2Solenoid { state: Co2State::Idle, level: false }
        }
    }

    /// One timed burst: open the valve, hold it open for `interval`
    /// milliseconds, close it.  A valve not already idle is closed first,
    /// so the output is never opened on top of an earlier command.  The
    /// state is `Idle` when the call returns, whatever held before.
    pub fn execute_burst(&mut self, interval: u64) -> (t: Vec<PinAction>)
        requires
            old(self).wf(),
        ensures
            final(self).wf(),
            final(self).spec_state() is Idle,
            t@ == (if old(self).spec_state() is Idle { Seq::<PinAction>::empty() } else {
                seq![PinAction::SetLow]
            }) + seq![
                PinAction::SetHigh,
                PinAction::Delay(interval),
                PinAction::SetLow,
            ],
    {
        let mut t: Vec<PinAction> = Vec::new();
        match self.state {
            Co2State::Idle => {},
            _ => {
                t.push(PinAction::SetLow);
                self.level = false;
                self.state = Co2State::Idle;
            },
        }
        self.state = Co2State::Burst;
        t.push(PinAction::SetHigh);
        t.push(PinAction::Delay(interval));
        t.push(PinAction::SetLow);
        self.level = false;
        self.state = Co2State::Idle;
        assert(t@ =~= (if old(self).spec_state() is Idle { Seq::<PinAction>::empty() } else {
            seq![PinAction::SetLow]
        }) + seq![
            PinAction::SetHigh,
            PinAction::Delay(interval),
            PinAction::SetLow,
        ]);
        t
    }

    /// Enters the continuous regime: the valve is opened and stays open.
    pub fn start_continuous(&mut self) -> (t: Vec<PinAction>)
        ensures
            final(self).wf(),
            final(self).spec_state() is Continuous,
            t@ == seq![PinAction::SetHigh],
    {
        self.state = Co2State::Continuous;
        self.level = true;
        let mut t: Vec<PinAction> = Vec::new();
        t.push(PinAction::SetHigh);
        assert(t@ =~= seq![PinAction::SetHigh]);
        t
    }

    /// Leaves the continuous regime: closes the valve if and only if it
    /// is currently in the continuous regime; otherwise nothing happens.
    pub fn stop_continuous(&mut self) -> (t: Vec<PinAction>)
        requires
            old(self).wf(),
        ensures
            final(self).wf(),
            old(self).spec_state() is Continuous ==> final(self).spec_state() is Idle
                && t@ == seq![PinAction::SetLow],
            !(old(self).spec_state() is Continuous) ==> *final(self) == *old(self)
                && t@ == Seq::<PinAction>::empty(),
    {
        let mut t: Vec<PinAction> = Vec::new();
        if matches!(self.state, Co2State::Continuous) {
            self.level = false;
            self.state = Co2State::Idle;
            t.push(PinAction::SetLow);
            assert(t@ =~= seq![PinAction::SetLow]);
        }
        t
    }

    /// The current logical state.
    pub fn state(&self) -> (r: &Co2State)
        ensures
            *r == self.spec_state(),
    {
        &self.state
    }
}

} // verus!
