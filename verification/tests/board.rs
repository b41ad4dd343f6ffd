use servo_robot_board::battery::{
    read_bq40z50_data, BatteryChargeStatus, BatteryHealth, BatteryTechnology, GaugeReadings,
};
use servo_robot_board::boot::{
    after_copy_check, after_source_check, aligned_size, app_vector_valid, clear_ota_flag_words,
    pad_tail_word, pending_image, BootAction, PendingImage, OTA_DONE, OTA_PENDING,
};
use servo_robot_board::charge::{
    battery_temp_current_ma, handle_husb_interrupt, plan_bq24725_charge, quantize_charge_current, quantize_charge_voltage,
    quantize_input_current, read_battery_data, read_husb_status, Bq24725Command, ChargeManager,
    ChargePhase, ChargePlan, ChargerStatus,
};
use servo_robot_board::frame::{
    crc16_ccitt, encode_frame, enqueue_frame, try_decode_frame, try_receive_frame,
    uart2_try_decode_frame, DecodeError, RawFrame,
};
use servo_robot_board::husb238a::types::{ChargerProtocol, ContractInfo, InterruptStatus, PdoInfo};
use servo_robot_board::msd::{
    scsi_dispatch, scsi_response, BlockTransfer, FirmwareReceiver, ScsiAction, ScsiCommand, ScsiQuery,
    SectorSource,
    WriteAction,
};
use servo_robot_board::ota::{
    calc_checksum, crc32, load_config, metadata_block, ota_header_bytes, program_flash, read_ota_flag,
    erase_sector_start, ota_temp_sectors, validate_ota_header, validate_ota_image, verify_firmware_crc,
    Crc32, OtaFlag, OtaImageHeader,
    FlashError, OtaValidationError, OTA_IMAGE_MAGIC, OTA_TEMP_ADDR,
};
use servo_robot_board::protection::{ProtectionFlags, ProtectionManager};
use servo_robot_board::ring::{
    dequeue_bytes, queue_status, uart1_enqueue_tx, uart1_read_rx, uart1_tx_pending, RingBuffer,
    UartRingBuffer, TX_QUEUE_SIZE, UART1_TX_BUF_SIZE, UART_RX_BUF_SIZE,
};
use servo_robot_board::telemetry::{
    battery_soc_color, play, should_send_log, tone, Color, ErrorStats, LogLevel, Tone, ToneTimer,
};

#[test]
fn check_codes_match_their_standard_check_values() {
    assert_eq!(crc16_ccitt(b"123456789"), 0x29B1);
    assert_eq!(crc32(b"123456789"), 0xCBF4_3926);
    let mut streaming = Crc32::new();
    streaming.update(b"12345");
    streaming.update(b"6789");
    assert_eq!(streaming.finish(), 0xCBF4_3926);
    assert_eq!(calc_checksum(&[0x01, 0x02, 0x03]), 0x00);
    assert_eq!(calc_checksum(&[0xF0, 0x0F, 0x01]), 0xFE);
}

fn encoded(frame: &RawFrame) -> Vec<u8> {
    let mut buf = [0u8; 64];
    let n = encode_frame(frame, &mut buf);
    buf[..n].to_vec()
}

#[test]
fn frames_round_trip_through_the_codec() {
    let frame = RawFrame { frame_type: 0x21, payload: vec![1, 2, 3] };
    let bytes = encoded(&frame);
    assert_eq!(bytes.len(), 9);
    assert_eq!(&bytes[..4], &[0xAA, 0x21, 0x03, 0x00]);
    let crc = crc16_ccitt(&bytes[1..7]);
    assert_eq!(&bytes[7..], &crc.to_le_bytes());
    let mut noisy = vec![0x00, 0x55];
    noisy.extend_from_slice(&bytes);
    noisy.extend_from_slice(&[0xAA, 0x01]);
    let (decoded, consumed) = try_decode_frame(&noisy).unwrap();
    assert_eq!(decoded, frame);
    assert_eq!(consumed, 11);
    // A frame that does not fit leaves the buffer alone.
    let mut small = [0x5Au8; 8];
    assert_eq!(encode_frame(&frame, &mut small), 0);
    assert_eq!(small, [0x5A; 8]);
}

#[test]
fn decoding_reports_each_error() {
    assert_eq!(try_decode_frame(&[1, 2, 3]), Err(DecodeError::NoHeader));
    assert_eq!(try_decode_frame(&[0xAA, 0x01, 0x05]), Err(DecodeError::Incomplete));
    let mut bytes = encoded(&RawFrame { frame_type: 7, payload: vec![9] });
    let last = bytes.len() - 1;
    bytes[last] ^= 0xFF;
    assert!(matches!(try_decode_frame(&bytes), Err(DecodeError::CrcMismatch { .. })));
}

#[test]
fn receiver_reassembles_frames_split_across_reads() {
    let frame = RawFrame { frame_type: 0x02, payload: vec![0x10, 0x20, 0x30, 0x40] };
    let bytes = encoded(&frame);
    let mut rx = [0u8; 32];
    let mut pos = 0usize;
    assert_eq!(try_receive_frame(&mut rx, &mut pos, &bytes[..5]), None);
    assert_eq!(pos, 5);
    assert_eq!(try_receive_frame(&mut rx, &mut pos, &bytes[5..]), Some(frame));
    assert_eq!(pos, 0);
    // Bytes with no head byte are dropped.
    assert_eq!(try_receive_frame(&mut rx, &mut pos, &[1, 2, 3]), None);
    assert_eq!(pos, 0);
    // A corrupted frame loses its first byte so the search moves on.
    let mut bad = encoded(&RawFrame { frame_type: 1, payload: vec![] });
    bad[5] ^= 0x01;
    assert_eq!(try_receive_frame(&mut rx, &mut pos, &bad), None);
    assert_eq!(pos, bad.len() - 1);
    assert_eq!(&rx[..pos], &bad[1..]);
}

#[test]
fn uart_stream_scan_skips_noise_and_drops_broken_frames() {
    let frame = RawFrame { frame_type: 0x05, payload: vec![1, 2] };
    let mut rx: UartRingBuffer<UART_RX_BUF_SIZE> = UartRingBuffer::new();
    rx.write(&[0x00, 0x13]);
    rx.write(&encoded(&frame));
    rx.write(&[0x77]);
    assert_eq!(uart2_try_decode_frame(&mut rx), Some(frame));
    assert_eq!(rx.available(), 1);
    // Fewer than four bytes: nothing is taken.
    assert_eq!(uart2_try_decode_frame(&mut rx), None);
    assert_eq!(rx.available(), 1);
    // An incomplete frame loses its head byte, then the rest is dropped as noise.
    let mut rx: UartRingBuffer<UART_RX_BUF_SIZE> = UartRingBuffer::new();
    rx.write(&[0xAA, 0x01, 0x08, 0x00, 0x01]);
    assert_eq!(uart2_try_decode_frame(&mut rx), None);
    assert_eq!(rx.available(), 0);
}

#[test]
fn frames_are_queued_encoded() {
    let mut queue = RingBuffer::new();
    let frame = RawFrame { frame_type: 3, payload: vec![0xAA, 0x55] };
    assert_eq!(enqueue_frame(&mut queue, &frame), 8);
    let mut out = [0u8; 16];
    assert_eq!(queue.read(&mut out), 8);
    assert_eq!(&out[..8], &encoded(&frame)[..]);
    let huge = RawFrame { frame_type: 3, payload: vec![0; 507] };
    assert_eq!(enqueue_frame(&mut queue, &huge), 0);
    assert_eq!(queue.available(), 0);
    assert_eq!(queue.overflow_count(), 0);
}

#[test]
fn tx_queue_is_first_in_first_out_and_counts_overflows() {
    let mut queue = RingBuffer::new();
    assert_eq!(queue.write(&[1, 2, 3]), 3);
    assert_eq!(queue.write(&[4]), 1);
    let mut out = [0u8; 2];
    assert_eq!(queue.read(&mut out), 2);
    assert_eq!(out, [1, 2]);
    assert_eq!(queue_status(&queue), (2, TX_QUEUE_SIZE - 2, 0));
    let big = vec![7u8; TX_QUEUE_SIZE];
    assert_eq!(queue.write(&big), TX_QUEUE_SIZE - 2);
    assert_eq!(queue.write(&[8]), 0);
    assert_eq!(queue.overflow_count(), 1);
    assert_eq!(queue.free_space(), 0);
    let mut all = vec![0u8; 4096];
    assert_eq!(dequeue_bytes(&mut queue, &mut all), TX_QUEUE_SIZE);
    assert_eq!(&all[..2], &[3, 4]);
    assert_eq!(queue.available(), 0);
    queue.write(&[1]);
    queue.clear();
    assert_eq!(queue.available(), 0);
    assert_eq!(queue.overflow_count(), 1);
}

#[test]
fn uart_buffers_pass_bytes_in_order() {
    let mut tx: UartRingBuffer<UART1_TX_BUF_SIZE> = UartRingBuffer::new();
    assert!(!uart1_tx_pending(&tx, false));
    assert!(uart1_tx_pending(&tx, true));
    assert_eq!(uart1_enqueue_tx(&mut tx, &[0x10, 0x20]), 2);
    assert!(uart1_tx_pending(&tx, false));
    assert_eq!(tx.read_byte(), Some(0x10));
    let mut rx: UartRingBuffer<UART_RX_BUF_SIZE> = UartRingBuffer::new();
    rx.write(&[5, 6, 7]);
    let mut buf = [0u8; 2];
    assert_eq!(uart1_read_rx(&mut rx, &mut buf), 2);
    assert_eq!(buf, [5, 6]);
    assert_eq!(rx.available(), 1);
    let big = vec![1u8; 600];
    assert_eq!(rx.write(&big), UART_RX_BUF_SIZE - 1);
}

#[test]
fn ota_header_and_image_validation() {
    let header = ota_header_bytes(100, 0x1234_5678);
    let parsed = OtaImageHeader::from_bytes(&header).unwrap();
    assert_eq!(parsed.magic, OTA_IMAGE_MAGIC);
    assert_eq!(parsed.image_size, 100);
    assert_eq!(parsed.image_crc32, 0x1234_5678);
    assert_eq!(validate_ota_header(&parsed), Ok(()));
    assert_eq!(OtaImageHeader::from_bytes(&header[..15]), None);
    let too_big = OtaImageHeader { image_size: 245_761, ..parsed };
    assert_eq!(validate_ota_header(&too_big), Err(OtaValidationError::ImageTooLarge));
    let wrong = OtaImageHeader { target_mcu: 0x42, ..parsed };
    assert_eq!(validate_ota_header(&wrong), Err(OtaValidationError::WrongTargetMcu));

    let data: Vec<u8> = (0u8..32).collect();
    let mut image = data.clone();
    image.extend_from_slice(&crc32(&data).to_le_bytes());
    assert!(verify_firmware_crc(&image));
    let header = ota_header_bytes(32, crc32(&data));
    assert_eq!(validate_ota_image(&header, &image).unwrap().image_size, 32);
    // A header that announces another CRC is refused, though the trailer matches.
    let wrong_header = ota_header_bytes(32, crc32(&data) ^ 1);
    assert_eq!(validate_ota_image(&wrong_header, &image), Err(OtaValidationError::CrcMismatch));
    // Only the header's CRC counts: a wrong trailer does not refuse the image.
    let mut bad_trailer = image.clone();
    bad_trailer[33] ^= 0xFF;
    assert_eq!(validate_ota_image(&header, &bad_trailer).unwrap().image_crc32, crc32(&data));
    // Fewer image bytes than the header announces cannot be checked.
    assert_eq!(validate_ota_image(&header, &image[..31]), Err(OtaValidationError::ReadError));
    image[0] ^= 1;
    assert_eq!(validate_ota_image(&header, &image), Err(OtaValidationError::CrcMismatch));
    assert_eq!(validate_ota_image(&header[..8], &image), Err(OtaValidationError::ReadError));
    assert!(!verify_firmware_crc(&[1, 2, 3, 4]));
}

#[test]
fn flash_programming_packs_aligned_little_endian_words() {
    assert_eq!(
        program_flash(0x0804_0000, &[1, 2, 3, 4, 5, 6, 7, 8]),
        Ok(vec![(0x0804_0000, 0x0403_0201), (0x0804_0004, 0x0807_0605)])
    );
    assert_eq!(program_flash(0x0804_0002, &[1, 2, 3, 4]), Err(FlashError::NotAligned));
    assert_eq!(program_flash(0x0804_0000, &[1, 2, 3]), Err(FlashError::NotAligned));
    assert_eq!(program_flash(0x0804_0000, &[]), Ok(vec![]));
}

#[test]
fn configuration_block_stores_and_loads() {
    let current = [0xFFu8; 48];
    let payload: Vec<u8> = (1u8..=24).collect();
    let block = metadata_block(&current, OtaFlag::Pending, Some(&payload));
    assert_eq!(u32::from_le_bytes([block[0], block[1], block[2], block[3]]), 0x5441_4F54);
    assert_eq!(&block[4..16], &current[4..16]);
    let mut hdr = [0u8; 8];
    hdr.copy_from_slice(&block[16..24]);
    let mut body = [0u8; 24];
    body.copy_from_slice(&block[24..48]);
    assert_eq!(load_config(&hdr, &body), Some(body));
    body[3] ^= 0x40;
    assert_eq!(load_config(&hdr, &body), None);
    let flag_only = metadata_block(&block, OtaFlag::Done, None);
    assert_eq!(&flag_only[16..], &block[16..]);
    assert_eq!(read_ota_flag(0x5441_4F54), OtaFlag::Pending);
    assert_eq!(read_ota_flag(0x444F_4E45), OtaFlag::Done);
    assert_eq!(OtaFlag::Done.as_u32(), 0x444F_4E45);
}

#[test]
fn virtual_disk_serves_boot_sector_and_scsi_answers() {
    let receiver = FirmwareReceiver::new();
    let mut buf = [0u8; 512];
    assert_eq!(receiver.read_sector(0, &mut buf), SectorSource::Ready);
    assert_eq!(&buf[0..3], &[0xEB, 0x3C, 0x90]);
    assert_eq!(&buf[510..], &[0x55, 0xAA]);
    let mut fat = [0xFFu8; 512];
    assert_eq!(receiver.read_sector(1, &mut fat), SectorSource::Ready);
    assert_eq!(&fat[0..3], &[0xF8, 0xFF, 0xFF]);
    assert!(fat[3..].iter().all(|&b| b == 0));
    let mut far = [0xFFu8; 512];
    assert_eq!(receiver.read_sector(64, &mut far), SectorSource::Ready);
    assert!(far.iter().all(|&b| b == 0));
    assert_eq!(receiver.read_sector(2, &mut buf), SectorSource::Ready);
    assert_eq!(&buf[0..11], b"SERVO_ROBOT");
    assert_eq!(buf[32], 0);
    let inquiry = scsi_response(ScsiQuery::Inquiry);
    assert_eq!(inquiry.len(), 36);
    assert_eq!(&inquiry[..5], &[0x00, 0x80, 0x04, 0x02, 31]);
    assert_eq!(&inquiry[8..16], b"SERVO   ");
    assert_eq!(&inquiry[16..32], b"Robot Board FW  ");
    assert_eq!(&inquiry[32..], b"1.00");
    assert_eq!(scsi_response(ScsiQuery::ReadCapacity10), vec![0, 0, 0, 63, 0, 0, 2, 0]);
    assert_eq!(&scsi_response(ScsiQuery::ReadFormatCapacities)[4..8], &[0, 0, 0, 64]);
    assert_eq!(scsi_response(ScsiQuery::RequestSense)[0], 0x70);
    assert!(scsi_response(ScsiQuery::TestUnitReady).is_empty());
    assert_eq!(scsi_response(ScsiQuery::ModeSense6), vec![0x03, 0, 0, 0]);
}

#[test]
fn firmware_file_written_to_the_disk_is_streamed_to_flash() {
    let mut receiver = FirmwareReceiver::new();
    let mut dir = [0u8; 512];
    dir[32..43].copy_from_slice(b"FIRMWAREBIN");
    dir[60..64].copy_from_slice(&1028u32.to_le_bytes());
    assert_eq!(receiver.write_sector(2, &dir), WriteAction::StartImage);
    assert_eq!(receiver.firmware_size, 1028);
    let data = [0x11u8; 512];
    let base = OTA_TEMP_ADDR + 16;
    assert_eq!(receiver.write_sector(3, &data), WriteAction::Program { addr: base });
    assert_eq!(receiver.write_sector(4, &data), WriteAction::Program { addr: base + 512 });
    assert!(!receiver.firmware_ready);
    assert_eq!(
        receiver.write_sector(5, &data),
        WriteAction::ProgramLast { addr: base + 1024, crc_addr: base + 1024, image_size: 1024 }
    );
    assert!(receiver.firmware_ready);
    assert!(receiver.has_new_firmware());
    assert_eq!(receiver.file_size(), 1028);
    assert_eq!(receiver.bytes_written(), 1536);
    let mut buf = [0xAAu8; 512];
    // FAT of a 1028-byte file: clusters 2 -> 3 -> 4 -> end of chain, the rest zero.
    assert_eq!(receiver.read_sector(1, &mut buf), SectorSource::Ready);
    assert_eq!(&buf[0..8], &[0xF8, 0xFF, 0xFF, 0x03, 0x40, 0x00, 0xFF, 0x0F]);
    assert!(buf[8..].iter().all(|&b| b == 0));
    assert_eq!(receiver.read_sector(5, &mut buf), SectorSource::Flash { addr: base + 1024, len: 4 });
    assert!(buf[4..].iter().all(|&b| b == 0));
    assert_eq!(receiver.read_sector(2, &mut buf), SectorSource::Ready);
    assert_eq!(&buf[32..43], b"FIRMWAREBIN");
    assert_eq!(receiver.write_sector(1, &data), WriteAction::Ignore);
    receiver.reset();
    assert!(!receiver.has_new_firmware() && receiver.file_size() == 0);
    assert_eq!(receiver.write_sector(3, &data), WriteAction::Ignore);
}

#[test]
fn charge_state_machine_phases_and_hysteresis() {
    let mut cm = ChargeManager::new();
    assert_eq!(cm.phase(), ChargePhase::Unknown);
    assert_eq!(cm.update(true, false, true, 14_000, 50, 3000), (ChargePhase::Cc, 3000));
    assert_eq!(cm.charger_status(), ChargerStatus::Connected);
    // Within 200 mA the current does not move.
    assert_eq!(cm.update(true, false, true, 14_000, 50, 3150), (ChargePhase::Cc, 3000));
    assert_eq!(cm.update(true, false, true, 11_000, 50, 2500), (ChargePhase::PreCharge, 2500));
    assert_eq!(cm.update(true, false, true, 16_700, 50, 2500), (ChargePhase::Cv, 2500));
    assert_eq!(
        cm.bq24725_command(),
        Bq24725Command::Enable { current_ma: 2500, voltage_mv: 16_800 }
    );
    assert_eq!(cm.update(true, false, true, 16_700, 50, 0), (ChargePhase::ThermalProtect, 0));
    assert_eq!(cm.update(true, false, true, 16_700, 100, 3000), (ChargePhase::Full, 0));
    assert_eq!(cm.update(true, true, true, 16_700, 50, 3000), (ChargePhase::HusbFault, 0));
    assert_eq!(cm.charger_status(), ChargerStatus::Fault);
    assert_eq!(cm.update(true, false, false, 16_700, 50, 3000), (ChargePhase::Unsupported, 0));
    assert_eq!(cm.update(false, false, true, 16_700, 50, 3000), (ChargePhase::NotCharging, 0));
    assert_eq!(cm.charger_status(), ChargerStatus::Disconnected);
    assert_eq!(cm.bq24725_command(), Bq24725Command::Disable);
    cm.set_charge_enabled(false);
    assert_eq!(cm.update(true, false, true, 14_000, 50, 3000), (ChargePhase::NotCharging, 0));
    cm.set_temp_thresholds(600, 750);
    assert_eq!(cm.temp_thresholds(), (600, 750));
    assert_eq!(ChargePhase::ThermalProtect.code(), 8);
}

#[test]
fn charge_plan_rounds_to_register_steps_and_stops_out_of_range() {
    assert_eq!(quantize_charge_current(3000), 2944);
    assert_eq!(quantize_input_current(3000), 2944);
    assert_eq!(quantize_charge_voltage(16_810), 16_800);
    assert_eq!(plan_bq24725_charge(0, 16_800, 3000), ChargePlan::Disable);
    assert_eq!(
        plan_bq24725_charge(3000, 16_800, 3000),
        ChargePlan::Program { current_ma: 2944, voltage_mv: 16_800, input_current_ma: Some(2944) }
    );
    assert_eq!(
        plan_bq24725_charge(3000, 16_800, 100),
        ChargePlan::Program { current_ma: 2944, voltage_mv: 16_800, input_current_ma: None }
    );
    assert_eq!(plan_bq24725_charge(100, 16_800, 3000), ChargePlan::SafeStop);
    assert_eq!(plan_bq24725_charge(3000, 20_000, 3000), ChargePlan::SafeStop);
    // An input limit above the 8064 mA the register holds stops charging safely.
    assert_eq!(plan_bq24725_charge(3000, 16_800, 8192), ChargePlan::SafeStop);
    assert!(matches!(plan_bq24725_charge(3000, 16_800, 8064), ChargePlan::Program { input_current_ma: Some(8064), .. }));
}

#[test]
fn battery_temperature_limits_the_charge_current() {
    assert_eq!(battery_temp_current_ma(-1, 3000, 8000), 0);
    assert_eq!(battery_temp_current_ma(501, 3000, 8000), 0);
    assert_eq!(battery_temp_current_ma(50, 3000, 8000), 448);
    assert_eq!(battery_temp_current_ma(250, 3000, 8000), 3000);
    assert_eq!(battery_temp_current_ma(450, 3000, 8000), 8000);
    assert_eq!(battery_temp_current_ma(475, 3000, 8000), 4224);
    assert_eq!(battery_temp_current_ma(500, 3000, 8000), 448);
    assert_eq!(battery_temp_current_ma(475, 3000, 100), 448);
}

#[test]
fn charge_inputs_from_the_pd_controller_and_gauge() {
    let pdo = |voltage_mv| PdoInfo { code: 1, protocol: ChargerProtocol::Pd20v, voltage_mv, current_ma: 3000 };
    let contract = ContractInfo { protocol: ChargerProtocol::Pd20v, voltage_mv: 20_000, current_ma: 3000 };
    let status = read_husb_status(Some(true), Some(&[pdo(5000), pdo(20_000)][..]), Some(contract));
    assert!(status.attached && status.support_charge && !status.fault);
    assert_eq!((status.voltage_mv, status.current_ma), (20_000, 3000));
    let status = read_husb_status(None, Some(&[pdo(15_000)][..]), None);
    assert!(!status.attached && !status.support_charge);
    assert_eq!((status.voltage_mv, status.current_ma), (0, 0));
    let battery = read_battery_data(None, Some(16_000), None);
    assert_eq!((battery.temp_c, battery.voltage_mv, battery.soc), (250, 16_000, 50));
    let irq = handle_husb_interrupt(&InterruptStatus { int: 0, int1: 0x01, int2: 0x80 }, true);
    assert!(irq.attached && irq.attach_changed && irq.fault);
}

#[test]
fn protection_trips_after_sustained_faults_and_resets() {
    let mut pm = ProtectionManager::new();
    for _ in 0..149 {
        assert_eq!(pm.check_thermal(true, false), (false, false));
    }
    assert_eq!(pm.check_thermal(true, false), (true, false));
    assert!(pm.flags().servo_thermal);
    assert_eq!(pm.flags().to_u16(), 2);
    assert!(pm.is_servo_power_cut());
    // A cooler reading clears the flag, but the cut stays until reset.
    assert_eq!(pm.check_thermal(false, false), (true, false));
    assert!(!pm.flags().any());
    pm.reset_servo_power();
    assert!(!pm.is_servo_power_cut());
    for _ in 0..599 {
        assert!(!pm.check_current(true));
    }
    assert!(pm.check_current(true));
    assert_eq!(pm.flags().to_u16(), 1);
    let all = ProtectionFlags {
        servo_overcurrent: true,
        servo_thermal: true,
        dcdc_5v_thermal: true,
        charge_derating: true,
        charge_thermal: true,
        battery_low: true,
    };
    assert_eq!(all.to_u16(), 0x3F);
    assert_eq!(ProtectionFlags::new().to_u16(), 0);
}

#[test]
fn telemetry_melody_colors_and_counters() {
    let melody = play();
    assert_eq!(melody.len(), 51);
    assert_eq!(melody[0], Tone { freq_hz: 800, duration_ms: 12 });
    assert_eq!(melody[11], Tone { freq_hz: 3000, duration_ms: 12 });
    assert_eq!(melody[12], Tone { freq_hz: 3500, duration_ms: 30 });
    assert_eq!(melody[18], Tone { freq_hz: 2500, duration_ms: 10 });
    assert_eq!(melody[30], Tone { freq_hz: 700, duration_ms: 10 });
    assert_eq!(melody[50], Tone { freq_hz: 3000, duration_ms: 80 });
    assert_eq!(battery_soc_color(1), Color::Black);
    assert_eq!(battery_soc_color(9), Color::Red);
    assert_eq!(battery_soc_color(29), Color::Orange);
    assert_eq!(battery_soc_color(79), Color::Blue);
    assert_eq!(battery_soc_color(80), Color::Green);
    let mut stats = ErrorStats::new();
    stats.inc_i2c();
    stats.inc_i2c();
    stats.inc_charge();
    assert_eq!(stats, ErrorStats { i2c_errors: 2, spi_errors: 0, charge_errors: 1 });
    let mut full = ErrorStats { spi_errors: usize::MAX, ..stats };
    full.inc_spi();
    assert_eq!(full.spi_errors, 0);
}

#[test]
fn battery_report_from_gauge_reads() {
    let reads = GaugeReadings {
        voltage_mv: Some(16_000),
        current_ma: Some(-1200),
        relative_soc: Some(80),
        temperature: None,
        remaining_capacity_mah: Some(4000),
        design_capacity_mah: Some(5000),
        cell_voltages_mv: Some([4000, 4001, 3999, 4000]),
        battery_status: Some(1 << 6),
        device_chemistry: Some(0x4F4C),
        serial_number: None,
    };
    let state = read_bq40z50_data(&reads);
    assert_eq!(state.charge_status, BatteryChargeStatus::Discharging);
    assert_eq!(state.health, BatteryHealth::Good);
    assert_eq!(state.technology, BatteryTechnology::LiOn);
    assert!(state.present);
    assert_eq!(state.temperature, 250);
    assert_eq!(state.cell_temperatures, [250; 4]);
    assert_eq!(state.cell_voltages_mv, [4000, 4001, 3999, 4000]);
    let missing = GaugeReadings { voltage_mv: None, battery_status: Some(1 << 12), device_chemistry: Some(0x1234), current_ma: Some(5), ..reads };
    let state = read_bq40z50_data(&missing);
    assert!(!state.present);
    assert_eq!(state.health, BatteryHealth::Overheat);
    assert_eq!(state.technology, BatteryTechnology::Unknown);
    assert_eq!(state.charge_status, BatteryChargeStatus::Charging);
}

#[test]
fn bootloader_decisions() {
    let header = [OTA_IMAGE_MAGIC, 0x0000_4101, 1000, 0xDEAD_BEEF];
    let image = pending_image(OTA_PENDING, header).unwrap();
    assert_eq!(image, PendingImage { size: 1000, crc32: 0xDEAD_BEEF });
    assert_eq!(pending_image(OTA_DONE, header), None);
    assert_eq!(pending_image(OTA_PENDING, [OTA_IMAGE_MAGIC, 0x0000_4102, 1000, 0]), None);
    assert_eq!(pending_image(OTA_PENDING, [OTA_IMAGE_MAGIC, 0x0000_4101, 0, 0]), None);
    assert_eq!(pending_image(OTA_PENDING, [OTA_IMAGE_MAGIC, 0x0000_4101, 245_761, 0]), None);
    assert_eq!(after_source_check(image, 0xDEAD_BEEF), BootAction::CopyImage);
    assert_eq!(after_source_check(image, 1), BootAction::ClearFlag);
    assert_eq!(after_copy_check(image, 0xDEAD_BEEF), BootAction::ClearFlag);
    assert_eq!(after_copy_check(image, 2), BootAction::EraseApp);
    assert_eq!(aligned_size(1027), 1024);
    assert_eq!(pad_tail_word(0x1122_3344, 1), 0xFFFF_FF44);
    assert_eq!(pad_tail_word(0x1122_3344, 2), 0xFFFF_3344);
    assert_eq!(pad_tail_word(0x1122_3344, 3), 0xFF22_3344);
    // The header the application writes is accepted as a pending image.
    let written = ota_header_bytes(1000, 0xDEAD_BEEF);
    let words = [0, 4, 8, 12].map(|i| u32::from_le_bytes([written[i], written[i + 1], written[i + 2], written[i + 3]]));
    assert_eq!(pending_image(OTA_PENDING, words), Some(image));
    let mut sector = [0u32; 64];
    sector[0] = OTA_PENDING;
    sector[5] = 0x1234;
    let cleared = clear_ota_flag_words(&sector);
    assert_eq!(cleared[0], OTA_DONE);
    assert_eq!(cleared[5], 0x1234);
    assert!(app_vector_valid(0x2002_0000, 0x0800_4001));
    assert!(!app_vector_valid(0x2002_0000, 0x0800_4000));
    assert!(!app_vector_valid(0x1FFF_FFFF, 0x0800_4001));
    assert!(!app_vector_valid(0x2000_1000, 0x0804_0001));
}

#[test]
fn tone_timer_settings_follow_the_frequency() {
    assert_eq!(tone(0, 5), None);
    assert_eq!(tone(1000, 0), None);
    assert_eq!(tone(4000, 1), Some(ToneTimer { arr: 23999, ccr: 11999, spins: 1000 }));
    // Below ~1465 Hz the period saturates at the 16-bit limit.
    assert_eq!(tone(1000, 10), Some(ToneTimer { arr: 65534, ccr: 32767, spins: 10000 }));
}

#[test]
fn log_messages_are_filtered_by_the_transmit_level() {
    assert!(should_send_log(LogLevel::Info, LogLevel::Warn));
    assert!(should_send_log(LogLevel::Info, LogLevel::Info));
    assert!(!should_send_log(LogLevel::Warn, LogLevel::Debug));
    assert!(!should_send_log(LogLevel::Off, LogLevel::Error));
    assert!(should_send_log(LogLevel::Debug, LogLevel::Debug));
}

#[test]
fn ota_temp_erase_is_sector_six_only() {
    assert_eq!(ota_temp_sectors(), vec![6]);
    assert_eq!(erase_sector_start(6), Ok(OTA_TEMP_ADDR));
    assert_eq!(erase_sector_start(1), Ok(0x0800_4000));
    assert_eq!(erase_sector_start(7), Ok(0x0806_0000));
    assert_eq!(erase_sector_start(8), Err(FlashError::OutOfRange));
}

#[test]
fn scsi_commands_are_dispatched() {
    assert_eq!(
        scsi_dispatch(ScsiCommand::Query(ScsiQuery::ModeSense10)),
        ScsiAction::Reply(vec![0x00, 0x06, 0, 0, 0, 0, 0, 0])
    );
    assert_eq!(
        scsi_dispatch(ScsiCommand::Read { lba: 3, len: 2 }),
        ScsiAction::ReadSectors { lba: 3, count: 2 }
    );
    assert_eq!(
        scsi_dispatch(ScsiCommand::Write { lba: 2, len: 1 }),
        ScsiAction::WriteSectors { lba: 2, count: 1 }
    );
    assert_eq!(scsi_dispatch(ScsiCommand::Unsupported), ScsiAction::Fail);
}

#[test]
fn multi_block_transfers_step_sector_by_sector() {
    let mut read = BlockTransfer::new(3, 2);
    assert_eq!(read.next_read(), Some(3));
    assert_eq!(read.next_read(), Some(4));
    assert_eq!(read.next_read(), None);
    assert!(read.is_finished());
    assert_eq!(read.pass_length(), 1024);

    let mut write = BlockTransfer::new(5, 3);
    assert_eq!(write.next_write(512), Some(5));
    assert_eq!(write.next_write(512), Some(5));
    // A short block ends the write; nothing after it is written.
    assert_eq!(write.next_write(100), None);
    assert!(write.is_finished());
    assert_eq!(write.next_write(512), None);
    assert_eq!(write.pass_length(), 1024);
}

#[test]
fn charge_update_range_check() {
    let mut cm = ChargeManager::new();
    assert!(cm.update_in_range(true, false, true, 50, 3000));
    assert!(cm.update_in_range(false, false, true, 50, 3000));
    cm.set_charge_voltage(100);
    // A charge would start at a regulation voltage below 200 mV.
    assert!(!cm.update_in_range(true, false, true, 50, 3000));
    // No charge goes ahead: nothing to check.
    assert!(cm.update_in_range(true, false, true, 100, 3000));
    assert!(cm.update_in_range(true, false, true, 50, 0));
}
