//! The board configuration: reading one setting, and applying a written setting
//! together with the output and protection changes it asks for.
use vstd::prelude::*;

verus! {

/// The persistent board configuration (24 bytes on the wire).
#[derive(Debug, Clone, Copy, PartialEq, Eq, Structural)]
pub struct BoardConfig {
    pub power_servo_on: bool,
    pub power_5v_on: bool,
    pub charge_on: bool,
    pub bat_ext_out_on: bool,
    pub servo_current_limit_ma: u16,
    /// 0.1 °C
    pub servo_temp_limit: u16,
    /// 0.1 °C
    pub temp_5v_limit: u16,
    pub charge_max_current_ma: u16,
    /// 0.1 °C
    pub charge_temp_derating: u16,
    /// 0.1 °C
    pub charge_temp_limit: u16,
    pub charge_stop_voltage_mv: u16,
    pub charge_stop_percentage: u8,
    /// The protocol's log-level code.
    pub tx_log_level: u8,
    pub servo_baud_rate: u32,
}

/// Which setting a query asks for.
#[derive(Debug, Clone, Copy, PartialEq, Eq, Structural)]
pub enum ConfigType {
    SwitchServoPower,
    Switch5VPower,
    SwitchCharge,
    SwitchBatExtOut,
    PowerServoCurrentLimitMa,
    PowerServoTempLimit,
    Power5vTempLimit,
    ChargeMaxCurrentMa,
    ChargeTempDerating,
    ChargeTempLimit,
    ChargeStopVoltageMv,
    ChargeStopSoc,
    TxLogLevel,
    ServoBaudRate,
}

/// One setting with its value.
#[derive(Debug, Clone, Copy, PartialEq, Eq, Structural)]
pub enum Config {
    SwitchPowerServo(bool),
    SwitchPower5V(bool),
    SwitchCharge(bool),
    SwitchBatExtOut(bool),
    PowerServoCurrentLimitMa(u16),
    PowerServoTempLimit(u16),
    Power5vTempLimit(u16),
    ChargeMaxCurrentMa(u16),
    ChargeTempDerating(u16),
    ChargeTempLimit(u16),
    ChargeStopVoltageMv(u16),
    ChargeStopSoc(u8),
    TxLogLevel(u8),
    ServoBaudRate(u32),
}

/// The board-state flags a setting change reports.
#[derive(Debug, Clone, Copy, PartialEq, Eq, Structural)]
pub enum StateFlag {
    ServoPowerOn,
    Power5vOn,
    BatExtOutOn,
    FanEnabled,
    ChargerConnected,
}

/// Side effects of a setting change that the caller carries out: a state flag to
/// set or clear, protection counters to reset, and output pins to drive.
#[derive(Debug, Clone, Copy, PartialEq, Eq)]
pub struct ConfigEffect {
    pub state_flag: Option<(StateFlag, bool)>,
    pub reset_servo_protection: bool,
    pub reset_5v_protection: bool,
    pub servo_power: Option<bool>,
    pub bat_ext_out: Option<bool>,
    pub power_5v: Option<bool>,
}

/// The setting a value belongs to.
pub open spec fn type_of(cfg: Config) -> ConfigType {
    match cfg {
        Config::SwitchPowerServo(_) => ConfigType::SwitchServoPower,
        Config::SwitchPower5V(_) => ConfigType::Switch5VPower,
        Config::SwitchCharge(_) => ConfigType::SwitchCharge,
        Config::SwitchBatExtOut(_) => ConfigType::SwitchBatExtOut,
        Config::PowerServoCurrentLimitMa(_) => ConfigType::PowerServoCurrentLimitMa,
        Config::PowerServoTempLimit(_) => ConfigType::PowerServoTempLimit,
        Config::Power5vTempLimit(_) => ConfigType::Power5vTempLimit,
        Config::ChargeMaxCurrentMa(_) => ConfigType::ChargeMaxCurrentMa,
        Config::ChargeTempDerating(_) => ConfigType::ChargeTempDerating,
        Config::ChargeTempLimit(_) => ConfigType::ChargeTempLimit,
        Config::ChargeStopVoltageMv(_) => ConfigType::ChargeStopVoltageMv,
        Config::ChargeStopSoc(_) => ConfigType::ChargeStopSoc,
        Config::TxLogLevel(_) => ConfigType::TxLogLevel,
        Config::ServoBaudRate(_) => ConfigType::ServoBaudRate,
    }
}

/// The value of setting `ct` in `c`.
pub open spec fn value_of(c: BoardConfig, ct: ConfigType) -> Config {
    match ct {
        ConfigType::SwitchServoPower => Config::SwitchPowerServo(c.power_servo_on),
        ConfigType::Switch5VPower => Config::SwitchPower5V(c.power_5v_on),
        ConfigType::SwitchCharge => Config::SwitchCharge(c.charge_on),
        ConfigType::SwitchBatExtOut => Config::SwitchBatExtOut(c.bat_ext_out_on),
        ConfigType::PowerServoCurrentLimitMa => Config::PowerServoCurrentLimitMa(
            c.servo_current_limit_ma,
        ),
        ConfigType::PowerServoTempLimit => Config::PowerServoTempLimit(c.servo_temp_limit),
        ConfigType::Power5vTempLimit => Config::Power5vTempLimit(c.temp_5v_limit),
        ConfigType::ChargeMaxCurrentMa => Config::ChargeMaxCurrentMa(c.charge_max_current_ma),
        ConfigType::ChargeTempDerating => Config::ChargeTempDerating(c.charge_temp_derating),
        ConfigType::ChargeTempLimit => Config::ChargeTempLimit(c.charge_temp_limit),
        ConfigType::ChargeStopVoltageMv => Config::ChargeStopVoltageMv(c.charge_stop_voltage_mv),
        ConfigType::ChargeStopSoc => Config::ChargeStopSoc(c.charge_stop_percentage),
        ConfigType::TxLogLevel => Config::TxLogLevel(c.tx_log_level),
        ConfigType::ServoBaudRate => Config::ServoBaudRate(c.servo_baud_rate),
    }
}

/// `c` with a written setting stored. The baud rate is stored only in a build with
/// servo forwarding.
pub open spec fn stored_config(cfg: Config, c: BoardConfig, servo_forwarding: bool) -> BoardConfig {
    match cfg {
        Config::SwitchPowerServo(on) => BoardConfig { power_servo_on: on, ..c },
        Config::SwitchPower5V(on) => BoardConfig { power_5v_on: on, ..c },
        Config::SwitchCharge(on) => BoardConfig { charge_on: on, ..c },
        Config::SwitchBatExtOut(on) => BoardConfig { bat_ext_out_on: on, ..c },
        Config::PowerServoCurrentLimitMa(v) => BoardConfig { servo_current_limit_ma: v, ..c },
        Config::PowerServoTempLimit(v) => BoardConfig { servo_temp_limit: v, ..c },
        Config::Power5vTempLimit(v) => BoardConfig { temp_5v_limit: v, ..c },
        Config::ChargeMaxCurrentMa(v) => BoardConfig { charge_max_current_ma: v, ..c },
        Config::ChargeTempDerating(v) => BoardConfig { charge_temp_derating: v, ..c },
        Config::ChargeTempLimit(v) => BoardConfig { charge_temp_limit: v, ..c },
        Config::ChargeStopVoltageMv(v) => BoardConfig { charge_stop_voltage_mv: v, ..c },
        Config::ChargeStopSoc(v) => BoardConfig { charge_stop_percentage: v, ..c },
        Config::TxLogLevel(v) => BoardConfig { tx_log_level: v, ..c },
        Config::ServoBaudRate(v) => if servo_forwarding {
            BoardConfig { servo_baud_rate: v, ..c }
        } else {
            c
        },
    }
}

/// No side effect.
pub open spec fn no_effect() -> ConfigEffect {
    ConfigEffect {
        state_flag: None,
        reset_servo_protection: false,
        reset_5v_protection: false,
        servo_power: None,
        bat_ext_out: None,
        power_5v: None,
    }
}

/// The side effects of a written setting: switching the servo or 5 V supply drives
/// its output and reports its state flag, and switching it on resets its
/// protection; switching the battery output drives it and reports its flag; other
/// settings have none.
pub open spec fn config_effect(cfg: Config) -> ConfigEffect {
    match cfg {
        Config::SwitchPowerServo(on) => ConfigEffect {
            state_flag: Some((StateFlag::ServoPowerOn, on)),
            reset_servo_protection: on,
            servo_power: Some(on),
            ..no_effect()
        },
        Config::SwitchPower5V(on) => ConfigEffect {
            state_flag: Some((StateFlag::Power5vOn, on)),
            reset_5v_protection: on,
            power_5v: Some(on),
            ..no_effect()
        },
        Config::SwitchBatExtOut(on) => ConfigEffect {
            state_flag: Some((StateFlag::BatExtOutOn, on)),
            bat_ext_out: Some(on),
            ..no_effect()
        },
        _ => no_effect(),
    }
}

/// The current value of one setting.
pub fn get_config_value(c: &BoardConfig, ct: ConfigType) -> (r: Config)
    ensures
        r == value_of(*c, ct),
{
    match ct {
        ConfigType::SwitchServoPower => Config::SwitchPowerServo(c.power_servo_on),
        ConfigType::Switch5VPower => Config::SwitchPower5V(c.power_5v_on),
        ConfigType::SwitchCharge => Config::SwitchCharge(c.charge_on),
        ConfigType::SwitchBatExtOut => Config::SwitchBatExtOut(c.bat_ext_out_on),
        ConfigType::PowerServoCurrentLimitMa => Config::PowerServoCurrentLimitMa(
            c.servo_current_limit_ma,
        ),
        ConfigType::PowerServoTempLimit => Config::PowerServoTempLimit(c.servo_temp_limit),
        ConfigType::Power5vTempLimit => Config::Power5vTempLimit(c.temp_5v_limit),
        ConfigType::ChargeMaxCurrentMa => Config::ChargeMaxCurrentMa(c.charge_max_current_ma),
        ConfigType::ChargeTempDerating => Config::ChargeTempDerating(c.charge_temp_derating),
        ConfigType::ChargeTempLimit => Config::ChargeTempLimit(c.charge_temp_limit),
        ConfigType::ChargeStopVoltageMv => Config::ChargeStopVoltageMv(c.charge_stop_voltage_mv),
        ConfigType::ChargeStopSoc => Config::ChargeStopSoc(c.charge_stop_percentage),
        ConfigType::TxLogLevel => Config::TxLogLevel(c.tx_log_level),
        ConfigType::ServoBaudRate => Config::ServoBaudRate(c.servo_baud_rate),
    }
}

/// Store a written setting in `config` and return the side effects the caller
/// carries out (outputs and protection, under its own locks). The baud rate is
/// kept only when `servo_forwarding` (a build with UART1 servo forwarding).
pub fn apply_config(cfg: &Config, config: &mut BoardConfig, servo_forwarding: bool) -> (r:
    ConfigEffect)
    ensures
        *final(config) == stored_config(*cfg, *old(config), servo_forwarding),
        r == config_effect(*cfg),
{
    let mut effect = ConfigEffect {
        state_flag: None,
        reset_servo_protection: false,
        reset_5v_protection: false,
        servo_power: None,
        bat_ext_out: None,
        power_5v: None,
    };
    match *cfg {
        Config::SwitchPowerServo(on) => {
            config.power_servo_on = on;
            effect.servo_power = Some(on);
            if on {
                effect.reset_servo_protection = true;
            }
            effect.state_flag = Some((StateFlag::ServoPowerOn, on));
        },
        Config::SwitchPower5V(on) => {
            config.power_5v_on = on;
            effect.power_5v = Some(on);
            if on {
                effect.reset_5v_protection = true;
            }
            effect.state_flag = Some((StateFlag::Power5vOn, on));
        },
        Config::SwitchCharge(on) => {
            config.charge_on = on;
        },
        Config::SwitchBatExtOut(on) => {
            config.bat_ext_out_on = on;
            effect.bat_ext_out = Some(on);
            effect.state_flag = Some((StateFlag::BatExtOutOn, on));
        },
        Config::PowerServoCurrentLimitMa(v) => config.servo_current_limit_ma = v,
        Config::PowerServoTempLimit(v) => config.servo_temp_limit = v,
        Config::Power5vTempLimit(v) => config.temp_5v_limit = v,
        Config::ChargeMaxCurrentMa(v) => config.charge_max_current_ma = v,
        Config::ChargeTempDerating(v) => config.charge_temp_derating = v,
        Config::ChargeTempLimit(v) => config.charge_temp_limit = v,
        Config::ChargeStopVoltageMv(v) => config.charge_stop_voltage_mv = v,
        Config::ChargeStopSoc(v) => config.charge_stop_percentage = v,
        Config::TxLogLevel(v) => config.tx_log_level = v,
        Config::ServoBaudRate(v) => {
            if servo_forwarding {
                config.servo_baud_rate = v;
            }
        },
    }
    effect
}

/// Apply a written setting and return its side effects with the configuration to
/// persist.
pub fn apply_config_write(cfg: &Config, config: &mut BoardConfig, servo_forwarding: bool) -> (r: (
    ConfigEffect,
    BoardConfig,
))
    ensures
        *final(config) == stored_config(*cfg, *old(config), servo_forwarding),
        r == (config_effect(*cfg), *final(config)),
{
    let effect = apply_config(cfg, config, servo_forwarding);
    (effect, *config)
}

/// A setting reads back as it was written, and writing it leaves every other
/// setting as it was (the baud rate in a build without servo forwarding keeps its
/// old value).
pub proof fn lemma_config_write_read(cfg: Config, c: BoardConfig, ct: ConfigType, servo_forwarding: bool)
    ensures
        (servo_forwarding || !(cfg is ServoBaudRate)) ==> value_of(
            stored_config(cfg, c, servo_forwarding),
            type_of(cfg),
        ) == cfg,
        ct != type_of(cfg) ==> value_of(stored_config(cfg, c, servo_forwarding), ct) == value_of(
            c,
            ct,
        ),
        !servo_forwarding && cfg is ServoBaudRate ==> stored_config(cfg, c, servo_forwarding) == c,
{
}

} // verus!
