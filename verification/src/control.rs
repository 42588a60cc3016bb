//! Homeostatic control loop: once per fixed period, read both sensors,
//! compare against the setpoints, and issue timed actuation.
//!
//! Temperatures are carried in hundredths of a degree Celsius and CO2
//! concentrations in parts per million, so the tolerance comparisons are
//! exact integer arithmetic.  A failed sensor read reaches the loop as
//! `None`: that channel's actuation is skipped for the cycle and the
//! other channel is decided as usual — a partial failure is never fatal
//! to the loop.

use vstd::prelude::*;
use vstd::math::abs;
use crate::gpio::PinAction;
use crate::heater::{Heater, HEAT_PULSE_MS};
use crate::solenoid::Co2Solenoid;

verus! {

/// Seconds between control cycles.
pub const CONTROL_PERIOD_SECS: u64 = 30;

/// Milliseconds the solenoid valve is held open per corrective burst.
pub const CO2_BURST_MS: u64 = 1000;

/// The setpoints and tolerance bands the loop regulates towards.
pub struct ControlConfig {
    /// Target temperature, hundredths of a degree Celsius.
    pub target_temp_centi: i32,
    /// Temperature tolerance band, hundredths of a degree Celsius.
    pub temp_tolerance_centi: i32,
    /// Target CO2 concentration, parts per million.
    pub target_co2_ppm: i32,
    /// CO2 tolerance band, parts per million.
    pub co2_tolerance_ppm: i32,
}

/// What one control cycle decided for each channel.
#[derive(Clone, Copy, Debug, PartialEq, Eq, Structural)]
pub struct CycleDecision {
    /// A heat pulse is issued this cycle.
    pub heat_pulse: bool,
    /// The heater is commanded off this cycle (a temperature reading
    /// arrived and no pulse is needed).
    pub stop_heater: bool,
    /// A solenoid burst is issued this cycle.
    pub co2_burst: bool,
    /// Both readings arrived and both lie within their tolerance bands.
    pub stable: bool,
}

/// The decision for one cycle.  A heat pulse is issued when the
/// temperature reading falls short of the target by more than the
/// tolerance; otherwise the heater is stopped.  A burst is issued when
/// the CO2 reading falls short of its target by more than its tolerance.
/// A missing reading skips its own channel's actuation and nothing else,
/// and the cycle cannot report stability.
pub open spec fn spec_decide(cfg: ControlConfig, temp_centi: Option<i32>, co2_ppm: Option<i32>) -> CycleDecision {
    CycleDecision {
        heat_pulse: temp_centi matches Some(t)
            && cfg.target_temp_centi - t > cfg.temp_tolerance_centi,
        stop_heater: temp_centi matches Some(t)
            && !(cfg.target_temp_centi - t > cfg.temp_tolerance_centi),
        co2_burst: co2_ppm matches Some(c)
            && cfg.target_co2_ppm - c > cfg.co2_tolerance_ppm,
        stable: temp_centi matches Some(t) && co2_ppm matches Some(c)
            && abs(cfg.target_temp_centi - t) <= cfg.temp_tolerance_centi
            && abs(cfg.target_co2_ppm - c) <= cfg.co2_tolerance_ppm,
    }
}

/// Computes one cycle's decision from the readings that arrived.
pub fn decide_cycle(cfg: &ControlConfig, temp_centi: Option<i32>, co2_ppm: Option<i32>) -> (d: CycleDecision)
    ensures
        d == spec_decide(*cfg, temp_centi, co2_ppm),
{
    let (heat_pulse, stop_heater, temp_stable) = match temp_centi {
        Some(t) => {
            let err: i64 = (cfg.target_temp_centi as i64) - (t as i64);
            let pulse = err > cfg.temp_tolerance_centi as i64;
            let in_band = err <= cfg.temp_tolerance_centi as i64
                && -err <= cfg.temp_tolerance_centi as i64;
            (pulse, !pulse, in_band)
        },
        None => (false, false, false),
    };
    let (co2_burst, co2_stable) = match co2_ppm {
        Some(c) => {
            let err: i64 = (cfg.target_co2_ppm as i64) - (c as i64);
            let burst = err > cfg.co2_tolerance_ppm as i64;
            let in_band = err <= cfg.co2_tolerance_ppm as i64
                && -err <= cfg.co2_tolerance_ppm as i64;
            (burst, in_band)
        },
        None => (false, false),
    };
    CycleDecision {
        heat_pulse,
        stop_heater,
        co2_burst,
        stable: temp_stable && co2_stable,
    }
}

/// One full control cycle: decides from the readings and drives the two
/// actuators.  A heat pulse is driven to completion (open, window,
/// close); a burst likewise.  The heater is off after every cycle in
/// which a temperature reading arrived, and the valve returns to idle
/// after a burst.  The returned action lists are replayed on the heater
/// pin and the valve pin, in order.
pub fn run_cycle(
    cfg: &ControlConfig,
    heater: &mut Heater,
    valve: &mut Co2Solenoid,
    temp_centi: Option<i32>,
    co2_ppm: Option<i32>,
) -> (r: (CycleDecision, Vec<PinAction>, Vec<PinAction>))
    requires
        old(heater).wf(),
        old(valve).wf(),
    ensures
        final(heater).wf(),
        final(valve).wf(),
        r.0 == spec_decide(*cfg, temp_centi, co2_ppm),
        r.0.heat_pulse ==> r.1@ == seq![
            PinAction::SetHigh,
            PinAction::Delay(HEAT_PULSE_MS),
            PinAction::SetLow,
        ] && final(heater).spec_state() is Off,
        r.0.stop_heater ==> r.1@ == seq![PinAction::SetLow]
            && final(heater).spec_state() is Off,
        !r.0.heat_pulse && !r.0.stop_heater ==> r.1@ == Seq::<PinAction>::empty()
            && *final(heater) == *old(heater),
        r.0.co2_burst ==> r.2@ == (if old(valve).spec_state() is Idle {
            Seq::<PinAction>::empty()
        } else {
            seq![PinAction::SetLow]
        }) + seq![
            PinAction::SetHigh,
            PinAction::Delay(CO2_BURST_MS),
            PinAction::SetLow,
        ] && final(valve).spec_state() is Idle,
        !r.0.co2_burst ==> r.2@ == Seq::<PinAction>::empty() && *final(valve) == *old(valve),
{
    let d = decide_cycle(cfg, temp_centi, co2_ppm);
    let mut heater_actions: Vec<PinAction> = Vec::new();
    if d.heat_pulse {
        let mut open_pulse = heater.heat();
        heater_actions.append(&mut open_pulse);
        let mut close_pulse = heater.stop();
        heater_actions.append(&mut close_pulse);
        assert(heater_actions@ =~= seq![
            PinAction::SetHigh,
            PinAction::Delay(HEAT_PULSE_MS),
            PinAction::SetLow,
        ]);
    } else if d.stop_heater {
        let mut off = heater.stop();
        heater_actions.append(&mut off);
        assert(heater_actions@ =~= seq![PinAction::SetLow]);
    }
    let mut valve_actions: Vec<PinAction> = Vec::new();
    if d.co2_burst {
        let mut burst = valve.execute_burst(CO2_BURST_MS);
        valve_actions.append(&mut burst);
        assert(valve_actions@ =~= (if old(valve).spec_state() is Idle {
            Seq::<PinAction>::empty()
        } else {
            seq![PinAction::SetLow]
        }) + seq![
            PinAction::SetHigh,
            PinAction::Delay(CO2_BURST_MS),
            PinAction::SetLow,
        ]);
    }
    (d, heater_actions, valve_actions)
}

/// A failed temperature read never blocks the CO2 branch: the burst
/// decision of a cycle is the same whatever the temperature channel
/// reported, and a missing reading on either channel never changes the
/// other channel's actuation.
pub proof fn lemma_channels_independent(
    cfg: ControlConfig,
    t1: Option<i32>,
    t2: Option<i32>,
    co2: Option<i32>,
)
    ensures
        spec_decide(cfg, t1, co2).co2_burst == spec_decide(cfg, t2, co2).co2_burst,
        spec_decide(cfg, t1, co2).heat_pulse == spec_decide(cfg, t1, Option::None).heat_pulse,
{
}

} // verus!
