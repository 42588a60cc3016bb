use icbm_firmware::gpio::PinAction;
use icbm_firmware::heater::{Heater, HeaterState};
use icbm_firmware::peltier::{PeltierController, PeltierError, PwmAction, ThermalState};
use icbm_firmware::solenoid::{Co2Solenoid, Co2State};

#[test]
fn heater_pulse_opens_high_and_stop_closes() {
    let mut heater = Heater::new();
    assert!(matches!(heater.state(), HeaterState::Off));
    let pulse = heater.heat();
    assert_eq!(pulse, vec![PinAction::SetHigh, PinAction::Delay(1000)]);
    assert!(matches!(heater.state(), HeaterState::Heating));
    let close = heater.stop();
    assert_eq!(close, vec![PinAction::SetLow]);
    assert!(matches!(heater.state(), HeaterState::Off));
}

#[test]
fn heater_stop_is_unconditional() {
    let mut heater = Heater::new();
    let close = heater.stop();
    assert_eq!(close, vec![PinAction::SetLow]);
    assert!(matches!(heater.state(), HeaterState::Off));
}

#[test]
fn ten_consecutive_bursts_leave_idle_every_time() {
    let mut valve = Co2Solenoid::new(false);
    for _ in 0..10 {
        assert!(matches!(valve.state(), Co2State::Idle));
        let t = valve.execute_burst(1000);
        assert_eq!(
            t,
            vec![PinAction::SetHigh, PinAction::Delay(1000), PinAction::SetLow]
        );
        assert!(matches!(valve.state(), Co2State::Idle));
    }
}

#[test]
fn burst_after_continuous_closes_the_valve_first() {
    let mut valve = Co2Solenoid::new(false);
    let open = valve.start_continuous();
    assert_eq!(open, vec![PinAction::SetHigh]);
    assert!(matches!(valve.state(), Co2State::Continuous));
    let t = valve.execute_burst(1000);
    // The valve is closed before the burst opens it again.
    assert_eq!(
        t,
        vec![
            PinAction::SetLow,
            PinAction::SetHigh,
            PinAction::Delay(1000),
            PinAction::SetLow
        ]
    );
    assert!(matches!(valve.state(), Co2State::Idle));
}

#[test]
fn stop_continuous_only_acts_in_continuous() {
    let mut valve = Co2Solenoid::new(false);
    assert!(valve.stop_continuous().is_empty());
    valve.start_continuous();
    assert_eq!(valve.stop_continuous(), vec![PinAction::SetLow]);
    assert!(matches!(valve.state(), Co2State::Idle));
}

#[test]
fn valve_created_open_starts_continuous() {
    let valve = Co2Solenoid::new(true);
    assert!(matches!(valve.state(), Co2State::Continuous));
}

fn replay(duties: &mut (u32, u32), actions: &[PwmAction]) -> bool {
    let mut safe = !(duties.0 > 0 && duties.1 > 0);
    for a in actions {
        match a {
            PwmAction::SetHeatDuty(d) => duties.0 = *d,
            PwmAction::SetCoolDuty(d) => duties.1 = *d,
            PwmAction::Delay(_) => {},
        }
        if duties.0 > 0 && duties.1 > 0 {
            safe = false;
        }
    }
    safe
}

#[test]
fn cool_during_heat_pulse_never_drives_both_channels() {
    let (mut peltier, arm) = PeltierController::new(1000, 50).unwrap();
    let mut duties = (0u32, 0u32);
    assert!(replay(&mut duties, &arm));
    // Open a heat pulse, then cool before the pulse completes.
    let heat = peltier.heat();
    assert!(replay(&mut duties, &heat));
    assert!(matches!(peltier.state(), ThermalState::Heating));
    let cool = peltier.cool();
    // The heat channel is zeroed before the cool channel is driven.
    assert_eq!(
        cool,
        vec![
            PwmAction::SetHeatDuty(0),
            PwmAction::SetCoolDuty(0),
            PwmAction::SetHeatDuty(0),
            PwmAction::SetCoolDuty(500),
            PwmAction::Delay(1000)
        ]
    );
    assert!(replay(&mut duties, &cool));
    let stop = peltier.stop();
    assert!(replay(&mut duties, &stop));
    assert_eq!(duties, (0, 0));
    assert!(matches!(peltier.state(), ThermalState::Off));
}

#[test]
fn heat_drives_half_of_the_maximum_duty() {
    let (mut peltier, _) = PeltierController::new(1000, 50).unwrap();
    let heat = peltier.heat();
    assert_eq!(
        heat,
        vec![
            PwmAction::SetHeatDuty(500),
            PwmAction::SetCoolDuty(0),
            PwmAction::Delay(1000)
        ]
    );
}

#[test]
fn duty_cycle_over_100_percent_is_rejected() {
    assert!(matches!(
        PeltierController::new(1000, 101),
        Err(PeltierError::DutyCycleOutOfRange)
    ));
    assert!(PeltierController::new(1000, 100).is_ok());
}

#[test]
fn cool_then_heat_also_stops_first() {
    let (mut peltier, _) = PeltierController::new(1000, 50).unwrap();
    let mut duties = (0u32, 0u32);
    let cool = peltier.cool();
    assert!(replay(&mut duties, &cool));
    assert!(matches!(peltier.state(), ThermalState::Cooling));
    let heat = peltier.heat();
    assert_eq!(
        heat,
        vec![
            PwmAction::SetHeatDuty(0),
            PwmAction::SetCoolDuty(0),
            PwmAction::SetHeatDuty(500),
            PwmAction::SetCoolDuty(0),
            PwmAction::Delay(1000)
        ]
    );
    assert!(replay(&mut duties, &heat));
}
