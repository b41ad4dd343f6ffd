use servo_robot_board::config::{
    apply_config, apply_config_write, get_config_value, BoardConfig, Config, ConfigEffect,
    ConfigType, StateFlag,
};

fn sample() -> BoardConfig {
    BoardConfig {
        power_servo_on: false,
        power_5v_on: true,
        charge_on: true,
        bat_ext_out_on: false,
        servo_current_limit_ma: 5000,
        servo_temp_limit: 800,
        temp_5v_limit: 700,
        charge_max_current_ma: 8000,
        charge_temp_derating: 650,
        charge_temp_limit: 800,
        charge_stop_voltage_mv: 16_800,
        charge_stop_percentage: 100,
        tx_log_level: 2,
        servo_baud_rate: 115_200,
    }
}

const NONE: ConfigEffect = ConfigEffect {
    state_flag: None,
    reset_servo_protection: false,
    reset_5v_protection: false,
    servo_power: None,
    bat_ext_out: None,
    power_5v: None,
};

#[test]
fn switching_supplies_reports_outputs_flags_and_protection_resets() {
    let mut c = sample();
    let effect = apply_config(&Config::SwitchPowerServo(true), &mut c, true);
    assert_eq!(
        effect,
        ConfigEffect {
            state_flag: Some((StateFlag::ServoPowerOn, true)),
            reset_servo_protection: true,
            servo_power: Some(true),
            ..NONE
        }
    );
    assert!(c.power_servo_on);
    let effect = apply_config(&Config::SwitchPower5V(false), &mut c, true);
    assert_eq!(
        effect,
        ConfigEffect { state_flag: Some((StateFlag::Power5vOn, false)), power_5v: Some(false), ..NONE }
    );
    let effect = apply_config(&Config::SwitchBatExtOut(true), &mut c, true);
    assert_eq!(
        effect,
        ConfigEffect { state_flag: Some((StateFlag::BatExtOutOn, true)), bat_ext_out: Some(true), ..NONE }
    );
    assert_eq!(apply_config(&Config::SwitchCharge(false), &mut c, true), NONE);
    assert!(!c.charge_on);
}

#[test]
fn settings_read_back_as_written() {
    let mut c = sample();
    let writes = [
        Config::PowerServoCurrentLimitMa(3000),
        Config::PowerServoTempLimit(750),
        Config::Power5vTempLimit(650),
        Config::ChargeMaxCurrentMa(4000),
        Config::ChargeTempDerating(600),
        Config::ChargeTempLimit(700),
        Config::ChargeStopVoltageMv(16_400),
        Config::ChargeStopSoc(90),
        Config::TxLogLevel(4),
        Config::ServoBaudRate(1_000_000),
    ];
    let types = [
        ConfigType::PowerServoCurrentLimitMa,
        ConfigType::PowerServoTempLimit,
        ConfigType::Power5vTempLimit,
        ConfigType::ChargeMaxCurrentMa,
        ConfigType::ChargeTempDerating,
        ConfigType::ChargeTempLimit,
        ConfigType::ChargeStopVoltageMv,
        ConfigType::ChargeStopSoc,
        ConfigType::TxLogLevel,
        ConfigType::ServoBaudRate,
    ];
    for (cfg, ct) in writes.iter().zip(types) {
        assert_eq!(apply_config(cfg, &mut c, true), NONE);
        assert_eq!(get_config_value(&c, ct), *cfg);
    }
    assert_eq!(get_config_value(&c, ConfigType::Switch5VPower), Config::SwitchPower5V(true));
}

#[test]
fn baud_rate_is_kept_only_with_servo_forwarding() {
    let mut c = sample();
    let (effect, snapshot) = apply_config_write(&Config::ServoBaudRate(9600), &mut c, false);
    assert_eq!(effect, NONE);
    assert_eq!(snapshot, sample());
    assert_eq!(c.servo_baud_rate, 115_200);
    let (_, snapshot) = apply_config_write(&Config::ServoBaudRate(9600), &mut c, true);
    assert_eq!(snapshot.servo_baud_rate, 9600);
}
