use servo_robot_board::bq24725::driver::Bq24725;
use servo_robot_board::bq24725::types::{
    decode_charge_current_ma, decode_charge_voltage_mv, decode_input_current_ma,
    encode_charge_current_ma, encode_charge_voltage_mv, encode_input_current_ma, ChargeOptions,
    Error, ValueError, CHARGE_CURRENT_MASK, INPUT_CURRENT_MASK, REG_CHARGE_CURRENT,
    REG_CHARGE_OPTION, REG_CHARGE_VOLTAGE, REG_INPUT_CURRENT,
};

#[test]
fn charge_current_uses_direct_dac_scaling() {
    assert_eq!(encode_charge_current_ma(0), Ok(0));
    assert_eq!(encode_charge_current_ma(128), Ok(0x0080));
    assert_eq!(encode_charge_current_ma(8128), Ok(CHARGE_CURRENT_MASK));
    assert_eq!(decode_charge_current_ma(0x0080), 128);
    assert_eq!(decode_charge_current_ma(CHARGE_CURRENT_MASK), 8128);
    assert_eq!(encode_charge_current_ma(129), Err(ValueError::Unsupported));
    assert_eq!(encode_charge_current_ma(8192), Err(ValueError::Unsupported));
}

#[test]
fn input_current_and_voltage_reject_ambiguous_values() {
    assert_eq!(encode_input_current_ma(128), Ok(0x0080));
    assert_eq!(decode_input_current_ma(INPUT_CURRENT_MASK), 8064);
    assert_eq!(encode_input_current_ma(192), Err(ValueError::Unsupported));
    assert_eq!(encode_charge_voltage_mv(1024), Ok(0x0400));
    assert_eq!(decode_charge_voltage_mv(0x0400), 1024);
    assert_eq!(encode_charge_voltage_mv(1025), Err(ValueError::Unsupported));
}

#[test]
fn charge_option_power_on_default_word() {
    assert_eq!(ChargeOptions::por_default().to_u16(), 0x7904);
    assert_eq!(ChargeOptions::from_u16(0x7904), ChargeOptions::por_default());
}

#[test]
fn charge_option_word_roundtrip_drops_reserved_bits() {
    assert_eq!(ChargeOptions::from_u16(0xFFFF).to_u16(), 0xFFE7);
    assert_eq!(ChargeOptions::from_u16(0x2900).to_u16(), 0x2900);
    let opts = ChargeOptions::por_default();
    assert_eq!(ChargeOptions::from_u16(opts.to_u16()), opts);
}

#[test]
fn charging_enable_reads_back() {
    let charger = Bq24725::new();
    assert_eq!(charger.address(), 0x09);
    // 0x2901: power-on options with charging inhibited.
    let on = charger.set_charging_enabled([0x01, 0x29], true);
    assert_eq!(on, [REG_CHARGE_OPTION, 0x00, 0x29]);
    assert!(charger.query_charging_enabled([on[1], on[2]]));
    let off = charger.set_charging_enabled([on[1], on[2]], false);
    assert_eq!(off, [REG_CHARGE_OPTION, 0x01, 0x29]);
    assert!(!charger.query_charging_enabled([off[1], off[2]]));
}

#[test]
fn register_writes_and_range_errors() {
    let charger = Bq24725::with_address(0x0A);
    assert_eq!(charger.address(), 0x0A);
    assert_eq!(charger.set_charge_current_ma::<()>(128).unwrap(), [REG_CHARGE_CURRENT, 0x80, 0x00]);
    assert_eq!(charger.set_charge_voltage_mv::<()>(16800).unwrap(), [REG_CHARGE_VOLTAGE, 0xA0, 0x41]);
    assert_eq!(charger.set_input_current_ma::<()>(3072).unwrap(), [REG_INPUT_CURRENT, 0x00, 0x0C]);
    assert!(matches!(charger.set_charge_current_ma::<()>(100), Err(Error::ChargeCurrentOutOfRange)));
    assert!(matches!(charger.set_charge_voltage_mv::<()>(19216), Err(Error::ChargeVoltageOutOfRange)));
    assert!(matches!(charger.set_input_current_ma::<()>(8192), Err(Error::InputCurrentOutOfRange)));
    assert_eq!(charger.charge_current_ma([0x80, 0x00]), 128);
    assert_eq!(charger.charge_voltage_mv([0xA0, 0x41]), 16800);
    assert!(charger.verify_id([0x40, 0x00], [0x08, 0x00]));
    assert!(!charger.verify_id([0x40, 0x00], [0x09, 0x00]));
}
