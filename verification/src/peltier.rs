//! Thermoelectric heat pump: two opposite-polarity PWM channels, driven
//! in fixed timed pulses, never both at once.
//!
//! A heat or cool command drives its own channel at the configured duty
//! and zeroes the other; a command that finds the opposite channel active
//! zeroes both channels first.  The delay at the end of a pulse is a
//! suspension point: the caller replays the returned actions and
//! completes the pulse with [`PeltierController::stop`], which returns
//! the state to `Off`.

use vstd::prelude::*;

verus! {

/// Length of one drive pulse, in milliseconds.
pub const PELTIER_PULSE_MS: u64 = 1000;

#[derive(Clone, Copy, Debug, PartialEq, Eq, Structural)]
pub enum ThermalState {
    Off,
    Heating,
    Cooling,
}

/// Commands for the two PWM output channels.
#[derive(Clone, Copy, Debug, PartialEq, Eq, Structural)]
pub enum PwmAction {
    SetHeatDuty(u32),
    SetCoolDuty(u32),
    Delay(u64),
}

#[derive(Clone, Copy, Debug, PartialEq, Eq, Structural)]
pub enum PeltierError {
    DutyCycleOutOfRange,
}

/// The controller's logical state and the duty it last commanded on each
/// channel.
pub struct PeltierController {
    state: ThermalState,
    heat_duty: u32,
    cool_duty: u32,
    max_duty: u32,
    duty_cycle: u32,
}

/// Channel duties after one action, starting from `h` (heat channel) and
/// `c` (cool channel).
pub open spec fn spec_apply_action(h: u32, c: u32, a: PwmAction) -> (u32, u32) {
    match a {
        PwmAction::SetHeatDuty(d) => (d, c),
        PwmAction::SetCoolDuty(d) => (h, d),
        PwmAction::Delay(_) => (h, c),
    }
}

/// True when, replaying `t` from duties `(h, c)`, the two channels are
/// never both commanded nonzero at any instant: not at the start, and not
/// after any action.
pub open spec fn spec_trace_safe(h: u32, c: u32, t: Seq<PwmAction>) -> bool
    decreases t.len(),
{
    &&& !(h > 0 && c > 0)
    &&& (t.len() > 0 ==> {
        let d = spec_apply_action(h, c, t[0]);
        spec_trace_safe(d.0, d.1, t.skip(1))
    })
}

/// Channel duties after replaying all of `t` from `(h, c)`.
pub open spec fn spec_duties_after(h: u32, c: u32, t: Seq<PwmAction>) -> (u32, u32)
    decreases t.len(),
{
    if t.len() == 0 {
        (h, c)
    } else {
        let d = spec_apply_action(h, c, t[0]);
        spec_duties_after(d.0, d.1, t.skip(1))
    }
}

/// A safe trace followed by a trace that is safe from where the first one
/// ends is safe as a whole.
pub proof fn lemma_trace_safe_concat(h: u32, c: u32, t1: Seq<PwmAction>, t2: Seq<PwmAction>)
    requires
        spec_trace_safe(h, c, t1),
        spec_trace_safe(
            spec_duties_after(h, c, t1).0,
            spec_duties_after(h, c, t1).1,
            t2,
        ),
    ensures
        spec_trace_safe(h, c, t1 + t2),
    decreases t1.len(),
{
    if t1.len() == 0 {
        assert(t1 + t2 =~= t2);
    } else {
        let d = spec_apply_action(h, c, t1[0]);
        assert((t1 + t2).skip(1) =~= t1.skip(1) + t2);
        lemma_trace_safe_concat(d.0, d.1, t1.skip(1), t2);
    }
}

impl PeltierController {
    /// The duty cycle stays within 0 to 100 percent, opposite channels
    /// are never both commanded nonzero, and the stored state matches the
    /// outputs: `Off` means both channels are zero, each drive state
    /// means the opposite channel is zero.
    pub closed spec fn wf(self) -> bool {
        &&& self.duty_cycle <= 100
        &&& (self.state is Off ==> self.heat_duty == 0 && self.cool_duty == 0)
        &&& (self.state is Heating ==> self.cool_duty == 0)
        &&& (self.state is Cooling ==> self.heat_duty == 0)
    }

    pub closed spec fn spec_state(self) -> ThermalState {
        self.state
    }

    /// The duties last commanded on the heat and cool channels.
    pub closed spec fn spec_duties(self) -> (u32, u32) {
        (self.heat_duty, self.cool_duty)
    }

    /// The duty a drive command writes to its channel: the configured
    /// percentage of the timer's maximum duty.
    pub closed spec fn spec_drive_duty(self) -> u32 {
        (self.max_duty * self.duty_cycle / 100) as u32
    }

    /// The actions a heat command replays: both channels are zeroed first
    /// when the cool channel is active, then the heat channel is driven,
    /// the cool channel zeroed, and the pulse window opened.
    pub closed spec fn spec_heat_trace(self) -> Seq<PwmAction> {
        (if self.state is Cooling {
            seq![PwmAction::SetHeatDuty(0), PwmAction::SetCoolDuty(0)]
        } else {
            Seq::<PwmAction>::empty()
        }) + seq![
            PwmAction::SetHeatDuty(self.spec_drive_duty()),
            PwmAction::SetCoolDuty(0),
            PwmAction::Delay(PELTIER_PULSE_MS),
        ]
    }

    /// The controller a heat command leaves behind.
    pub closed spec fn spec_heat_next(self) -> PeltierController {
        PeltierController {
            state: if self.spec_drive_duty() == 0 {
                ThermalState::Off
            } else {
                ThermalState::Heating
            },
            heat_duty: self.spec_drive_duty(),
            cool_duty: 0,
            ..self
        }
    }

    /// The actions a cool command replays, the mirror image of a heat
    /// command's.
    pub closed spec fn spec_cool_trace(self) -> Seq<PwmAction> {
        (if self.state is Heating {
            seq![PwmAction::SetHeatDuty(0), PwmAction::SetCoolDuty(0)]
        } else {
            Seq::<PwmAction>::empty()
        }) + seq![
            PwmAction::SetHeatDuty(0),
            PwmAction::SetCoolDuty(self.spec_drive_duty()),
            PwmAction::Delay(PELTIER_PULSE_MS),
        ]
    }

    /// The controller a cool command leaves behind.
    pub closed spec fn spec_cool_next(self) -> PeltierController {
        PeltierController {
            state: if self.spec_drive_duty() == 0 {
                ThermalState::Off
            } else {
                ThermalState::Cooling
            },
            heat_duty: 0,
            cool_duty: self.spec_drive_duty(),
            ..self
        }
    }

    /// A fresh controller, both channels commanded to zero by the
    /// returned actions.  A duty cycle over 100 percent is rejected and
    /// nothing is built.
    pub fn new(max_duty: u32, duty_cycle: u32) -> (r: Result<(PeltierController, Vec<PwmAction>), PeltierError>)
        ensures
            duty_cycle > 100 ==> r == Err::<(PeltierController, Vec<PwmAction>), PeltierError>(
                PeltierError::DutyCycleOutOfRange,
            ),
            duty_cycle <= 100 ==> (match r {
                Ok(p) => {
                    &&& p.0.wf()
                    &&& p.0.spec_state() is Off
                    &&& p.0.spec_duties() == (0u32, 0u32)
                    &&& p.1@ == seq![PwmAction::SetHeatDuty(0), PwmAction::SetCoolDuty(0)]
                },
                Err(_) => false,
            }),
    {
        if duty_cycle > 100 {
            return Err(PeltierError::DutyCycleOutOfRange);
        }
        let c = PeltierController {
            state: ThermalState::Off,
            heat_duty: 0,
            cool_duty: 0,
            max_duty,
            duty_cycle,
        };
        let mut t: Vec<PwmAction> = Vec::new();
        t.push(PwmAction::SetHeatDuty(0));
        t.push(PwmAction::SetCoolDuty(0));
        assert(t@ =~= seq![PwmAction::SetHeatDuty(0), PwmAction::SetCoolDuty(0)]);
        Ok((c, t))
    }

    /// The duty written by a drive command, computed in 64 bits so the
    /// product cannot overflow.
    fn drive_duty(&self) -> (d: u32)
        requires
            self.wf(),
        ensures
            d == self.spec_drive_duty(),
    {
        proof {
            assert((self.max_duty as int) * (self.duty_cycle as int) <= 0xffff_ffff * 100
                && (self.max_duty as int) * (self.duty_cycle as int) / 100 <= self.max_duty as int)
                by (nonlinear_arith)
                requires
                    self.max_duty <= 0xffff_ffffu32,
                    self.duty_cycle <= 100,
            ;
        }
        ((self.max_duty as u64) * (self.duty_cycle as u64) / 100) as u32
    }

    /// Opens a heat pulse.  A controller found cooling is stopped first,
    /// so the two channels are never both commanded nonzero at any
    /// instant of the returned actions.  The caller replays the actions
    /// and completes the pulse with [`PeltierController::stop`].
    pub fn heat(&mut self) -> (t: Vec<PwmAction>)
        requires
            old(self).wf(),
        ensures
            final(self).wf(),
            *final(self) == old(self).spec_heat_next(),
            t@ == old(self).spec_heat_trace(),
            spec_trace_safe(old(self).spec_duties().0, old(self).spec_duties().1, t@),
            spec_duties_after(old(self).spec_duties().0, old(self).spec_duties().1, t@)
                == final(self).spec_duties(),
    {
        let duty = self.drive_duty();
        let mut t: Vec<PwmAction> = Vec::new();
        if matches!(self.state, ThermalState::Cooling) {
            t.push(PwmAction::SetHeatDuty(0));
            t.push(PwmAction::SetCoolDuty(0));
            self.heat_duty = 0;
            self.cool_duty = 0;
            self.state = ThermalState::Off;
        }
        t.push(PwmAction::SetHeatDuty(duty));
        t.push(PwmAction::SetCoolDuty(0));
        t.push(PwmAction::Delay(PELTIER_PULSE_MS));
        self.heat_duty = duty;
        self.cool_duty = 0;
        self.state = if duty == 0 { ThermalState::Off } else { ThermalState::Heating };
        assert(t@ =~= old(self).spec_heat_trace());
        proof {
            lemma_heat_trace(*old(self));
        }
        t
    }

    /// Opens a cool pulse, the mirror image of [`PeltierController::heat`].
    pub fn cool(&mut self) -> (t: Vec<PwmAction>)
        requires
            old(self).wf(),
        ensures
            final(self).wf(),
            *final(self) == old(self).spec_cool_next(),
            t@ == old(self).spec_cool_trace(),
            spec_trace_safe(old(self).spec_duties().0, old(self).spec_duties().1, t@),
            spec_duties_after(old(self).spec_duties().0, old(self).spec_duties().1, t@)
                == final(self).spec_duties(),
    {
        let duty = self.drive_duty();
        let mut t: Vec<PwmAction> = Vec::new();
        if matches!(self.state, ThermalState::Heating) {
            t.push(PwmAction::SetHeatDuty(0));
            t.push(PwmAction::SetCoolDuty(0));
            self.heat_duty = 0;
            self.cool_duty = 0;
            self.state = ThermalState::Off;
        }
        t.push(PwmAction::SetHeatDuty(0));
        t.push(PwmAction::SetCoolDuty(duty));
        t.push(PwmAction::Delay(PELTIER_PULSE_MS));
        self.heat_duty = 0;
        self.cool_duty = duty;
        self.state = if duty == 0 { ThermalState::Off } else { ThermalState::Cooling };
        assert(t@ =~= old(self).spec_cool_trace());
        proof {
            lemma_cool_trace(*old(self));
        }
        t
    }

    /// Zeroes both channels and returns the state to `Off`, whatever held
    /// before.  Replayed after a pulse's delay, this is what completes
    /// the pulse.
    pub fn stop(&mut self) -> (t: Vec<PwmAction>)
        requires
            old(self).wf(),
        ensures
            final(self).wf(),
            final(self).spec_state() is Off,
            final(self).spec_duties() == (0u32, 0u32),
            *final(self) == old(self).spec_stop_next(),
            t@ == seq![PwmAction::SetHeatDuty(0), PwmAction::SetCoolDuty(0)],
    {
        self.heat_duty = 0;
        self.cool_duty = 0;
        self.state = ThermalState::Off;
        let mut t: Vec<PwmAction> = Vec::new();
        t.push(PwmAction::SetHeatDuty(0));
        t.push(PwmAction::SetCoolDuty(0));
        assert(t@ =~= seq![PwmAction::SetHeatDuty(0), PwmAction::SetCoolDuty(0)]);
        t
    }

    /// The controller a stop leaves behind.
    pub closed spec fn spec_stop_next(self) -> PeltierController {
        PeltierController { state: ThermalState::Off, heat_duty: 0, cool_duty: 0, ..self }
    }

    /// The current logical state.
    pub fn state(&self) -> (r: &ThermalState)
        ensures
            *r == self.spec_state(),
    {
        &self.state
    }
}

/// Safety and final duties of the three drive actions shared by every
/// heat and cool trace, replayed from a start where at most the named
/// channel is active.
proof fn lemma_core_trace(h: u32, c: u32, first: PwmAction, second: PwmAction, delay: u64)
    requires
        !(h > 0 && c > 0),
        !(spec_apply_action(h, c, first).0 > 0 && spec_apply_action(h, c, first).1 > 0),
        ({
            let d1 = spec_apply_action(h, c, first);
            let d2 = spec_apply_action(d1.0, d1.1, second);
            !(d2.0 > 0 && d2.1 > 0)
        }),
    ensures
        spec_trace_safe(h, c, seq![first, second, PwmAction::Delay(delay)]),
        ({
            let d1 = spec_apply_action(h, c, first);
            spec_duties_after(h, c, seq![first, second, PwmAction::Delay(delay)])
                == spec_apply_action(d1.0, d1.1, second)
        }),
{
    let t = seq![first, second, PwmAction::Delay(delay)];
    let d1 = spec_apply_action(h, c, first);
    let d2 = spec_apply_action(d1.0, d1.1, second);
    assert(t.skip(1) =~= seq![second, PwmAction::Delay(delay)]);
    assert(t.skip(1).skip(1) =~= seq![PwmAction::Delay(delay)]);
    assert(t.skip(1).skip(1).skip(1) =~= Seq::<PwmAction>::empty());
    assert(spec_trace_safe(d2.0, d2.1, t.skip(1).skip(1).skip(1)));
    assert(spec_trace_safe(d2.0, d2.1, t.skip(1).skip(1)));
    assert(spec_trace_safe(d1.0, d1.1, t.skip(1)));
    assert(spec_duties_after(d2.0, d2.1, t.skip(1).skip(1).skip(1)) == d2);
    assert(spec_duties_after(d2.0, d2.1, t.skip(1).skip(1)) == d2);
    assert(spec_duties_after(d1.0, d1.1, t.skip(1)) == d2);
}

/// Safety and final duties of a drive trace that begins by zeroing both
/// channels before the three core actions.
proof fn lemma_prefixed_trace(h: u32, c: u32, first: PwmAction, second: PwmAction, delay: u64)
    requires
        !(h > 0 && c > 0),
        !(spec_apply_action(0, 0, first).0 > 0 && spec_apply_action(0, 0, first).1 > 0),
        ({
            let d1 = spec_apply_action(0, 0, first);
            let d2 = spec_apply_action(d1.0, d1.1, second);
            !(d2.0 > 0 && d2.1 > 0)
        }),
    ensures
        ({
            let t = seq![PwmAction::SetHeatDuty(0), PwmAction::SetCoolDuty(0)]
                + seq![first, second, PwmAction::Delay(delay)];
            let d1 = spec_apply_action(0, 0, first);
            &&& spec_trace_safe(h, c, t)
            &&& spec_duties_after(h, c, t) == spec_apply_action(d1.0, d1.1, second)
        }),
{
    let core = seq![first, second, PwmAction::Delay(delay)];
    let t = seq![PwmAction::SetHeatDuty(0), PwmAction::SetCoolDuty(0)] + core;
    lemma_core_trace(0, 0, first, second, delay);
    assert(t[0] == PwmAction::SetHeatDuty(0));
    assert(t.skip(1) =~= seq![PwmAction::SetCoolDuty(0)] + core);
    assert(t.skip(1)[0] == PwmAction::SetCoolDuty(0));
    assert(t.skip(1).skip(1) =~= core);
    let p1 = spec_apply_action(h, c, t[0]);
    let p2 = spec_apply_action(p1.0, p1.1, t.skip(1)[0]);
    assert(p2 == (0u32, 0u32));
    assert(spec_trace_safe(p2.0, p2.1, t.skip(1).skip(1)));
    assert(spec_trace_safe(p1.0, p1.1, t.skip(1)));
    assert(spec_duties_after(p1.0, p1.1, t.skip(1)) == spec_duties_after(0u32, 0u32, core));
}

/// Safety and final duties of a heat command's actions, from any
/// well-formed controller.
proof fn lemma_heat_trace(p: PeltierController)
    requires
        p.wf(),
    ensures
        spec_trace_safe(p.spec_duties().0, p.spec_duties().1, p.spec_heat_trace()),
        spec_duties_after(p.spec_duties().0, p.spec_duties().1, p.spec_heat_trace())
            == p.spec_heat_next().spec_duties(),
{
    let d = p.spec_drive_duty();
    let first = PwmAction::SetHeatDuty(d);
    let second = PwmAction::SetCoolDuty(0);
    if p.state is Cooling {
        lemma_prefixed_trace(p.heat_duty, p.cool_duty, first, second, PELTIER_PULSE_MS);
        assert(p.spec_heat_trace() =~= seq![PwmAction::SetHeatDuty(0), PwmAction::SetCoolDuty(0)]
            + seq![first, second, PwmAction::Delay(PELTIER_PULSE_MS)]);
    } else {
        lemma_core_trace(p.heat_duty, p.cool_duty, first, second, PELTIER_PULSE_MS);
        assert(p.spec_heat_trace() =~= seq![first, second, PwmAction::Delay(PELTIER_PULSE_MS)]);
    }
}

/// Safety and final duties of a cool command's actions, from any
/// well-formed controller.
proof fn lemma_cool_trace(p: PeltierController)
    requires
        p.wf(),
    ensures
        spec_trace_safe(p.spec_duties().0, p.spec_duties().1, p.spec_cool_trace()),
        spec_duties_after(p.spec_duties().0, p.spec_duties().1, p.spec_cool_trace())
            == p.spec_cool_next().spec_duties(),
{
    let d = p.spec_drive_duty();
    let first = PwmAction::SetHeatDuty(0);
    let second = PwmAction::SetCoolDuty(d);
    if p.state is Heating {
        lemma_prefixed_trace(p.heat_duty, p.cool_duty, first, second, PELTIER_PULSE_MS);
        assert(p.spec_cool_trace() =~= seq![PwmAction::SetHeatDuty(0), PwmAction::SetCoolDuty(0)]
            + seq![first, second, PwmAction::Delay(PELTIER_PULSE_MS)]);
    } else {
        lemma_core_trace(p.heat_duty, p.cool_duty, first, second, PELTIER_PULSE_MS);
        assert(p.spec_cool_trace() =~= seq![first, second, PwmAction::Delay(PELTIER_PULSE_MS)]);
    }
}

/// Driving the opposite channel while a heat pulse is still open never
/// leaves both channels commanded nonzero at any instant, and the stop
/// that completes the sequence leaves the controller off with both
/// channels zero.
pub proof fn lemma_opposing_drive_safe(c: PeltierController)
    requires
        c.wf(),
    ensures
        ({
            let mid = c.spec_heat_next();
            let done = mid.spec_cool_next();
            let t = c.spec_heat_trace() + mid.spec_cool_trace()
                + seq![PwmAction::SetHeatDuty(0), PwmAction::SetCoolDuty(0)];
            &&& spec_trace_safe(c.spec_duties().0, c.spec_duties().1, t)
            &&& done.spec_stop_next().spec_state() is Off
            &&& done.spec_stop_next().spec_duties() == (0u32, 0u32)
        }),
{
    let mid = c.spec_heat_next();
    let done = mid.spec_cool_next();
    let h0 = c.spec_duties().0;
    let c0 = c.spec_duties().1;
    let t1 = c.spec_heat_trace();
    let t2 = mid.spec_cool_trace();
    let t3 = seq![PwmAction::SetHeatDuty(0), PwmAction::SetCoolDuty(0)];
    lemma_heat_trace(c);
    lemma_cool_trace(mid);
    let m = spec_duties_after(h0, c0, t1);
    let e = spec_duties_after(m.0, m.1, t2);
    assert(t3.skip(1) =~= seq![PwmAction::SetCoolDuty(0)]);
    assert(t3.skip(1).skip(1) =~= Seq::<PwmAction>::empty());
    assert(e.0 == 0);
    let f1 = spec_apply_action(e.0, e.1, t3[0]);
    let f2 = spec_apply_action(f1.0, f1.1, t3.skip(1)[0]);
    assert(spec_trace_safe(f2.0, f2.1, t3.skip(1).skip(1)));
    assert(spec_trace_safe(f1.0, f1.1, t3.skip(1)));
    assert(spec_trace_safe(e.0, e.1, t3));
    lemma_trace_safe_concat(m.0, m.1, t2, t3);
    lemma_duties_after_concat(h0, c0, t1, t2 + t3);
    lemma_trace_safe_concat(h0, c0, t1, t2 + t3);
    assert(t1 + t2 + t3 =~= t1 + (t2 + t3));
}

/// Replaying a concatenation is replaying the two traces in turn.
proof fn lemma_duties_after_concat(h: u32, c: u32, t1: Seq<PwmAction>, t2: Seq<PwmAction>)
    ensures
        spec_duties_after(h, c, t1 + t2) == spec_duties_after(
            spec_duties_after(h, c, t1).0,
            spec_duties_after(h, c, t1).1,
            t2,
        ),
    decreases t1.len(),
{
    if t1.len() == 0 {
        assert(t1 + t2 =~= t2);
    } else {
        let d = spec_apply_action(h, c, t1[0]);
        assert((t1 + t2).skip(1) =~= t1.skip(1) + t2);
        lemma_duties_after_concat(d.0, d.1, t1.skip(1), t2);
    }
}

} // verus!
