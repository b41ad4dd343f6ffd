use servo_robot_board::bq40z50::cmd::{CMD_MANUFACTURER_ACCESS, SUBCMD_DEVICE_TYPE};
use servo_robot_board::bq40z50::driver::{kelvin_to_celsius, Bq40z50};
use servo_robot_board::bq40z50::types::Error;

fn smbus_block(data: &[u8]) -> [u8; 33] {
    assert!(data.len() <= 32);
    let mut response = [0u8; 33];
    response[0] = data.len() as u8;
    response[1..=data.len()].copy_from_slice(data);
    response
}

#[test]
fn reads_smbus_blocks_using_the_count_byte() {
    let response = smbus_block(b"BQ40");
    let gauge = Bq40z50::new();
    let mut name = [0u8; 8];

    let len = gauge.device_name::<()>(&response, &mut name).unwrap();

    assert_eq!(len, 4);
    assert_eq!(&name[..len], b"BQ40");
}

#[test]
fn rejects_oversized_smbus_blocks_without_mutating_the_output_buffer() {
    let response = smbus_block(b"12345");
    let gauge = Bq40z50::new();
    let mut name = [0xA5; 4];

    assert!(matches!(
        gauge.manufacturer_name::<()>(&response, &mut name),
        Err(Error::InvalidBlockLength {
            reported: 5,
            capacity: 4
        })
    ));
    assert_eq!(name, [0xA5; 4]);
}

#[test]
fn mac_read_block_after_writes_little_endian_subcommand_then_waits() {
    let response = smbus_block(&[0x50, 0x40]);
    let gauge = Bq40z50::new();
    let mut data = [0u8; 4];

    assert_eq!(
        gauge.start_mac_command(SUBCMD_DEVICE_TYPE),
        [CMD_MANUFACTURER_ACCESS, 0x01, 0x00]
    );
    let len = gauge.read_mac_block::<()>(&response, &mut data).unwrap();

    assert_eq!(len, 2);
    assert_eq!(&data[..len], &[0x50, 0x40]);
}

#[test]
fn block_longer_than_the_protocol_limit_is_refused() {
    let mut response = [0u8; 33];
    response[0] = 33;
    let gauge = Bq40z50::new();
    let mut buf = [0u8; 64];
    assert_eq!(
        gauge.read_block::<()>(&response, &mut buf),
        Err(Error::InvalidBlockLength { reported: 33, capacity: 64 })
    );
}

#[test]
fn temperature_and_signed_current_scaling() {
    let gauge = Bq40z50::new();
    assert_eq!(kelvin_to_celsius(2982), 250);
    assert_eq!(kelvin_to_celsius(2632), -100);
    // 2982 = 0x0BA6, low byte first.
    assert_eq!(gauge.temperature_c([0xA6, 0x0B]), 250);
    assert_eq!(gauge.current_ma([0xFE, 0xFF]), -2);
    assert_eq!(gauge.voltage_mv([0xA0, 0x41]), 16800);
}

#[test]
fn da_status_2_temperatures_are_whole_degrees_celsius() {
    let gauge = Bq40z50::new();
    // 2982 (25.0 °C), 2732 (0 °C), 2731 (-0.1 °C), 2722 (-1.0 °C), 3232, 2000, 0.
    let raws: [u16; 7] = [2982, 2732, 2731, 2722, 3232, 2000, 0];
    let mut data = [0u8; 14];
    for (i, raw) in raws.iter().enumerate() {
        data[2 * i..2 * i + 2].copy_from_slice(&raw.to_le_bytes());
    }
    let t = gauge.da_status_2::<()>(&smbus_block(&data)).unwrap();
    assert_eq!(t.int_temp, 25);
    assert_eq!(t.ts1_temp, 0);
    assert_eq!(t.ts2_temp, 0);
    assert_eq!(t.ts3_temp, -1);
    assert_eq!(t.ts4_temp, 50);
    assert_eq!(t.cell_temp, -73);
    assert_eq!(t.fet_temp, -273);
}
