use icbm_firmware::control::{decide_cycle, run_cycle, ControlConfig};
use icbm_firmware::gpio::PinAction;
use icbm_firmware::heater::{Heater, HeaterState};
use icbm_firmware::solenoid::{Co2Solenoid, Co2State};

fn incubator_config() -> ControlConfig {
    // Target 37.0 C with a 1.0 C band; target 50,000 ppm with a
    // 2,000 ppm band.
    ControlConfig {
        target_temp_centi: 3700,
        temp_tolerance_centi: 100,
        target_co2_ppm: 50_000,
        co2_tolerance_ppm: 2_000,
    }
}

#[test]
fn cold_reading_issues_a_heater_pulse() {
    let cfg = incubator_config();
    let d = decide_cycle(&cfg, Some(3400), Some(50_000));
    assert!(d.heat_pulse);
    assert!(!d.stop_heater);
    assert!(!d.stable);
}

#[test]
fn in_band_temperature_stops_the_heater_and_counts_as_stable() {
    let cfg = incubator_config();
    let d = decide_cycle(&cfg, Some(3720), Some(49_500));
    assert!(!d.heat_pulse);
    assert!(d.stop_heater);
    assert!(!d.co2_burst);
    assert!(d.stable);
}

#[test]
fn low_co2_issues_a_burst() {
    let cfg = incubator_config();
    let d = decide_cycle(&cfg, Some(3700), Some(47_000));
    assert!(d.co2_burst);
    assert!(!d.stable);
}

#[test]
fn co2_within_band_issues_no_burst() {
    let cfg = incubator_config();
    let d = decide_cycle(&cfg, Some(3700), Some(49_500));
    assert!(!d.co2_burst);
    assert!(d.stable);
}

#[test]
fn over_target_readings_never_actuate() {
    let cfg = incubator_config();
    // Too warm and too much CO2: no pulse, no burst; the temperature
    // is out of band, so not stable either.
    let d = decide_cycle(&cfg, Some(3900), Some(53_000));
    assert!(!d.heat_pulse);
    assert!(d.stop_heater);
    assert!(!d.co2_burst);
    assert!(!d.stable);
}

#[test]
fn failed_temperature_read_does_not_block_the_co2_branch() {
    let cfg = incubator_config();
    let d = decide_cycle(&cfg, None, Some(47_000));
    assert!(d.co2_burst);
    assert!(!d.heat_pulse);
    assert!(!d.stop_heater);
    assert!(!d.stable);
}

#[test]
fn failed_co2_read_does_not_block_the_temperature_branch() {
    let cfg = incubator_config();
    let d = decide_cycle(&cfg, Some(3400), None);
    assert!(d.heat_pulse);
    assert!(!d.co2_burst);
    assert!(!d.stable);
}

#[test]
fn run_cycle_drives_the_actuators_as_decided() {
    let cfg = incubator_config();
    let mut heater = Heater::new();
    let mut valve = Co2Solenoid::new(false);
    let (d, heater_actions, valve_actions) =
        run_cycle(&cfg, &mut heater, &mut valve, Some(3400), Some(47_000));
    assert!(d.heat_pulse && d.co2_burst);
    assert_eq!(
        heater_actions,
        vec![PinAction::SetHigh, PinAction::Delay(1000), PinAction::SetLow]
    );
    assert_eq!(
        valve_actions,
        vec![PinAction::SetHigh, PinAction::Delay(1000), PinAction::SetLow]
    );
    assert!(matches!(heater.state(), HeaterState::Off));
    assert!(matches!(valve.state(), Co2State::Idle));
}

#[test]
fn run_cycle_with_failed_temperature_still_bursts() {
    let cfg = incubator_config();
    let mut heater = Heater::new();
    let mut valve = Co2Solenoid::new(false);
    let (d, heater_actions, valve_actions) =
        run_cycle(&cfg, &mut heater, &mut valve, None, Some(47_000));
    assert!(!d.heat_pulse && !d.stop_heater && d.co2_burst);
    assert!(heater_actions.is_empty());
    assert_eq!(
        valve_actions,
        vec![PinAction::SetHigh, PinAction::Delay(1000), PinAction::SetLow]
    );
}

#[test]
fn run_cycle_in_band_stops_the_heater() {
    let cfg = incubator_config();
    let mut heater = Heater::new();
    let mut valve = Co2Solenoid::new(false);
    let (d, heater_actions, valve_actions) =
        run_cycle(&cfg, &mut heater, &mut valve, Some(3720), Some(49_500));
    assert!(d.stable);
    assert_eq!(heater_actions, vec![PinAction::SetLow]);
    assert!(valve_actions.is_empty());
}
