use servo_robot_board::ina219::registers;
use servo_robot_board::ina219::{
    AdcResolution, BusVoltageRange, Calibration, CalibrationError, Ina219, OperatingMode, PgaGain,
    INA219_ADDR,
};

#[test]
fn calibrated_current_and_power_use_integer_register_scales() {
    let calibration = Calibration::new(2_000, 15_000_000).unwrap();
    let calibration_bytes = calibration.register().to_be_bytes();
    let mut monitor = Ina219::new();

    assert_eq!(
        monitor.calibrate(calibration),
        [registers::CALIBRATION, calibration_bytes[0], calibration_bytes[1]]
    );
    assert_eq!(monitor.read_current_microamps([0xFF, 0xFE]), Some(-916));
    assert_eq!(monitor.read_power_microwatts([0x00, 0x03]), Some(27_480));
}

#[test]
fn uncalibrated_scaled_reads_do_not_access_the_bus() {
    let monitor = Ina219::new();

    assert_eq!(monitor.calibration(), None);
    assert_eq!(monitor.read_current_microamps([0x12, 0x34]), None);
    assert_eq!(monitor.read_power_microwatts([0x12, 0x34]), None);
}

#[test]
fn calibration_rejects_zero_inputs_and_retains_integer_scale() {
    assert_eq!(
        Calibration::new(0, 1),
        Err(CalibrationError::ZeroShuntResistance)
    );
    assert_eq!(
        Calibration::new(2_000, 0),
        Err(CalibrationError::ZeroExpectedCurrent)
    );
    let calibration = Calibration::new(2_000, 15_000_000).unwrap();
    assert_ne!(calibration.register(), 0);
    assert_eq!(calibration.register() & 1, 0);
    assert_eq!(calibration.current_lsb_microamps(), 458);
}

#[test]
fn calibration_register_value_and_range_errors() {
    // 40 960 000 000 / (458 µA × 2000 µΩ) = 44716.
    assert_eq!(Calibration::new(2_000, 15_000_000).unwrap().register(), 44_716);
    assert_eq!(Calibration::new(1, 1), Err(CalibrationError::OutOfRange));
    assert_eq!(Calibration::new(u32::MAX, u32::MAX), Err(CalibrationError::OutOfRange));
}

#[test]
fn configuration_reset_and_raw_calibration_writes() {
    let mut monitor = Ina219::with_address(0x41);
    assert_eq!(monitor.address(), 0x41);
    assert_eq!(Ina219::new().address(), INA219_ADDR);
    let frame = monitor.configure(
        BusVoltageRange::Range32V,
        PgaGain::Gain8,
        AdcResolution::Bits12,
        AdcResolution::Bits12,
        OperatingMode::ShuntAndBusContinuous,
    );
    assert_eq!(frame, [registers::CONFIGURATION, 0x39, 0x9F]);
    assert_eq!(monitor.reset(), [registers::CONFIGURATION, 0x80, 0x00]);
    monitor.calibrate(Calibration::new(2_000, 15_000_000).unwrap());
    assert_eq!(monitor.write_calibration_raw(0x1235), [registers::CALIBRATION, 0x12, 0x34]);
    assert_eq!(monitor.calibration(), None);
    assert_eq!(monitor.read_config([0x01, 0x9F]), 0x019F);
}

#[test]
fn raw_register_reads_are_big_endian() {
    let monitor = Ina219::new();
    assert_eq!(monitor.read_shunt_voltage_raw([0xFF, 0x9C]), -100);
    assert_eq!(monitor.read_bus_voltage_raw([0x5D, 0xC2]), 0x5DC2);
    let status = monitor.read_bus_voltage_status([0x00, 0x03]);
    assert!(status.conversion_ready && status.overflow);
    let status = monitor.read_bus_voltage_status([0x00, 0x02]);
    assert!(status.conversion_ready && !status.overflow);
    assert_eq!(monitor.read_current_raw([0x80, 0x00]), i16::MIN);
    assert_eq!(monitor.read_power_raw([0x00, 0x03]), 3);
}
