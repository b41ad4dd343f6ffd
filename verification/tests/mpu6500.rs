use servo_robot_board::mpu6500::config::{
    AccelRange, ClockSource, DlpfConfig, FifoMode, GyroRange, IntDriveMode, IntLatch, IntLevel,
};
use servo_robot_board::mpu6500::registers;
use servo_robot_board::mpu6500::types::{Axis, Error, IntStatus};
use servo_robot_board::mpu6500::{Mpu6500, Step};

#[test]
fn uses_spi_device_transactions_for_register_writes_and_reads() {
    let mut sensor = Mpu6500::new();

    assert_eq!(
        sensor.set_gyro_range(GyroRange::Dps1000),
        (registers::GYRO_CONFIG, GyroRange::Dps1000.bits())
    );
    assert_eq!(Mpu6500::read_command(registers::GYRO_XOUT_H), registers::GYRO_XOUT_H | 0x80);
    assert_eq!(sensor.read_gyro_raw([0, 1, 0xFF, 0xFE, 0, 3]), [1, -2, 3]);
    assert_eq!(sensor.gyro_range(), GyroRange::Dps1000);
}

#[test]
fn writes_offsets_to_the_selected_axis_registers() {
    let sensor = Mpu6500::new();

    assert_eq!(
        sensor.set_gyro_offset(Axis::Y, -2),
        vec![(registers::YG_OFFSET_H, 0xFF), (registers::YG_OFFSET_L, 0xFE)]
    );
    assert_eq!(
        sensor.set_accel_offset::<()>(Axis::Z, -1).unwrap(),
        vec![(registers::ZA_OFFSET_H, 0xFF), (registers::ZA_OFFSET_L, 0xFE)]
    );
}

#[test]
fn rejects_accel_offsets_outside_the_signed_15_bit_range() {
    let sensor = Mpu6500::new();

    assert!(matches!(
        sensor.set_accel_offset::<()>(Axis::X, 16_384),
        Err(Error::InvalidAccelOffset(16_384))
    ));
    assert!(matches!(
        sensor.set_accel_offset::<()>(Axis::X, -16_385),
        Err(Error::InvalidAccelOffset(-16_385))
    ));
}

#[test]
fn accel_offset_sits_above_the_reserved_bit() {
    let sensor = Mpu6500::new();
    assert_eq!(
        sensor.set_accel_offset::<()>(Axis::X, 16_383).unwrap(),
        vec![(registers::XA_OFFSET_H, 0x7F), (registers::XA_OFFSET_L, 0xFE)]
    );
    assert_eq!(
        sensor.set_accel_offset::<()>(Axis::Y, -16_384).unwrap(),
        vec![(registers::YA_OFFSET_H, 0x80), (registers::YA_OFFSET_L, 0x00)]
    );
    assert_eq!(
        sensor.set_gyro_offset(Axis::X, 0x1234),
        vec![(registers::XG_OFFSET_H, 0x12), (registers::XG_OFFSET_L, 0x34)]
    );
}

#[test]
fn initialisation_sequence_and_identity() {
    let sensor = Mpu6500::new();
    let steps = sensor.init();
    assert_eq!(steps.len(), 9);
    assert_eq!(steps[0], Step::Write(registers::PWR_MGMT_1, 0x80));
    assert_eq!(steps[1], Step::DelayMs(100));
    assert_eq!(steps[4], Step::Write(registers::PWR_MGMT_1, 0x01));
    assert_eq!(steps[8], Step::Write(registers::ACCEL_CONFIG, 0x00));
    assert!(Mpu6500::check_identity::<()>(0x70).is_ok());
    assert!(matches!(Mpu6500::check_identity::<()>(0x71), Err(Error::InvalidDeviceId(0x71))));
    assert!(sensor.verify_id(0x70));
    assert_eq!(sensor.reset_no_delay().len(), 3);
}

#[test]
fn configuration_register_values() {
    let mut sensor = Mpu6500::new();
    assert_eq!(sensor.set_accel_range(AccelRange::G16), (registers::ACCEL_CONFIG, 0x18));
    assert_eq!(sensor.accel_range(), AccelRange::G16);
    assert_eq!(sensor.set_dlpf(0xFF, DlpfConfig::Dlpf41), (registers::CONFIG, 0xFB));
    assert_eq!(sensor.set_fifo_mode(0x00, FifoMode::Reject), (registers::CONFIG, 0x40));
    assert_eq!(
        sensor.configure_int_pin(IntLevel::ActiveLow, IntDriveMode::PushPull, IntLatch::Latched, true),
        (registers::INT_PIN_CFG, 0b1011_0000)
    );
    assert_eq!(sensor.configure_interrupts(true, true, false, true), (registers::INT_ENABLE, 0b0101_0001));
    assert_eq!(
        sensor.set_sensor_enable(true, false, true, true, true, false),
        (registers::PWR_MGMT_2, 0b0001_0001)
    );
    assert_eq!(sensor.set_fifo_enable(true, false, false, true, true), (registers::FIFO_EN, 0b1001_1000));
    assert_eq!(sensor.set_clock_source(0xFF, ClockSource::PllWithExt19m), (registers::PWR_MGMT_1, 0xFD));
    assert_eq!(sensor.sleep(0x01), (registers::PWR_MGMT_1, 0x41));
    assert_eq!(sensor.wakeup(0x41), (registers::PWR_MGMT_1, 0x01));
    assert_eq!(sensor.set_temp_enabled(0x08, true), (registers::PWR_MGMT_1, 0x00));
    assert_eq!(sensor.set_wom_threshold(200), (registers::WOM_THR, 50));
    assert_eq!(sensor.set_lp_accel_odr(0xF3), (registers::LP_ACCEL_ODR, 0x03));
    assert_eq!(DlpfConfig::Dlpf184.gyro_bandwidth_hz(), 184);
    assert_eq!(DlpfConfig::Dlpf184.temp_bandwidth_hz(), 188);
}

#[test]
fn status_fifo_and_sample_decoding() {
    let sensor = Mpu6500::new();
    assert_eq!(
        sensor.read_int_status(0x51),
        IntStatus { wom: true, fifo_overflow: true, fsync: false, dmp: false, raw_data_rdy: true }
    );
    assert!(sensor.wait_data_ready(0x01));
    assert_eq!(sensor.fifo_count([0x01, 0x02]), 0x0102);
    assert_eq!(sensor.fifo_read_len(300, 256), 256);
    assert_eq!(sensor.fifo_read_len(12, 256), 12);
    assert_eq!(sensor.read_temp_raw([0xFF, 0xFF]), -1);
    assert_eq!(sensor.read_accel_raw([0x40, 0x00, 0, 0, 0xC0, 0x00]), [16384, 0, -16384]);
}
