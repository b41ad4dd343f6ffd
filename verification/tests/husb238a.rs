use servo_robot_board::husb238a::config::{ProtocolConfig, SinkPdo1Current};
use servo_robot_board::husb238a::driver::{ConfigRegisters, Husb238a};
use servo_robot_board::husb238a::error::Error;
use servo_robot_board::husb238a::registers::{
    ADDR_GND, ADDR_VDD, GO_SELECT_PDO, INT1_I_ATTACH, INT1_I_DETACH, INT1_I_FAULT,
    INT1_I_VBUS_OV, INT2_I_TSD, INT2_I_VBUS_UV, INT_I_GO_FAIL, PD_CONTRACT_9V,
    REG_GO_COMMAND, REG_INTERRUPT, REG_INTERRUPT1, REG_INTERRUPT2, REG_SRC_PDO,
    REG_SNK_PPS_CURRENT, REG_SNK_PPS_VOLTAGE, REG_USER_CFG3, SELECT_PDO_20V, SELECT_PDO_5V,
    SELECT_PDO_9V, SELECT_PDO_PPS1, STATUS1_AMS_SUCC, STATUS_ATTACH,
};
use servo_robot_board::husb238a::types::{
    ChargerProtocol, ContractInfo, InterruptStatus, PdoInfo, PpsMaxVoltage, RequestStatus,
};

#[test]
fn interrupt_status_reports_attach_and_detach_changes() {
    assert!(InterruptStatus {
        int: 0,
        int1: INT1_I_ATTACH,
        int2: 0,
    }
    .has_attach_change());
    assert!(InterruptStatus {
        int: 0,
        int1: INT1_I_DETACH,
        int2: 0,
    }
    .has_attach_change());
    assert!(!InterruptStatus {
        int: 0,
        int1: 0,
        int2: 0,
    }
    .has_attach_change());
}

#[test]
fn interrupt_status_reports_all_pd_sink_fault_sources() {
    for status in [
        InterruptStatus {
            int: 0,
            int1: INT1_I_FAULT,
            int2: 0,
        },
        InterruptStatus {
            int: 0,
            int1: INT1_I_VBUS_OV,
            int2: 0,
        },
        InterruptStatus {
            int: 0,
            int1: 0,
            int2: INT2_I_VBUS_UV,
        },
        InterruptStatus {
            int: 0,
            int1: 0,
            int2: INT2_I_TSD,
        },
    ] {
        assert!(status.has_fault());
    }
    assert!(!InterruptStatus {
        int: 0,
        int1: 0,
        int2: 0,
    }
    .has_fault());
}

fn pdo_9v() -> PdoInfo {
    PdoInfo {
        code: SELECT_PDO_9V,
        protocol: ChargerProtocol::Pd9v,
        voltage_mv: 9000,
        current_ma: 3000,
    }
}

#[test]
fn request_pdo_checks_attachment_and_preserves_unrelated_selection_bits() {
    let controller = Husb238a::new();
    let writes = controller.request_pdo::<()>(STATUS_ATTACH, 0xA7, pdo_9v()).unwrap();
    assert_eq!(writes, vec![(REG_SRC_PDO, 0x17), (REG_GO_COMMAND, GO_SELECT_PDO)]);
    assert!(matches!(
        controller.request_pdo::<()>(0, 0xA7, pdo_9v()),
        Err(Error::NotAttached)
    ));
}

#[test]
fn blocking_request_polls_after_a_real_delay_until_contract_succeeds() {
    let mut controller = Husb238a::new();
    let timeout_ms = 25;
    let writes = controller.request_pdo::<()>(STATUS_ATTACH, 0, pdo_9v()).unwrap();
    assert_eq!(
        writes,
        vec![(REG_SRC_PDO, SELECT_PDO_9V << 3), (REG_GO_COMMAND, GO_SELECT_PDO)]
    );
    // Successive reads of STATUS1 and the contract registers.
    let polls = [(0u8, 0u8, 0u8), (STATUS1_AMS_SUCC, PD_CONTRACT_9V << 4, 0)];
    let mut delays_ns: Vec<u64> = Vec::new();
    let mut elapsed_ms = 0;
    let mut contract = None;
    for (status1, c0, c1) in polls {
        let (result, acks) = controller.poll_request::<()>(status1, c0, c1, 0);
        assert!(acks.is_empty());
        match result.unwrap() {
            RequestStatus::Pending => {
                let step = Husb238a::poll_delay_ms(elapsed_ms, timeout_ms).unwrap();
                delays_ns.push(step as u64 * 1_000_000);
                elapsed_ms += step;
            }
            RequestStatus::Succeeded(c) => {
                contract = Some(c);
                break;
            }
        }
    }
    let contract = contract.unwrap();
    assert_eq!(contract.protocol, ChargerProtocol::Pd9v);
    assert_eq!(contract.voltage_mv, 9000);
    assert_eq!(contract.current_ma, 500);
    assert_eq!(delays_ns, vec![10_000_000]);
}

#[test]
fn poll_request_acknowledges_go_failure_before_returning_the_error() {
    let mut controller = Husb238a::new();
    let (result, acks) = controller.poll_request::<()>(0, 0, 0, INT_I_GO_FAIL | 0x01);
    assert!(matches!(result, Err(Error::GoFailed)));
    assert_eq!(acks, vec![(REG_INTERRUPT, INT_I_GO_FAIL | 0x01)]);
}

#[test]
fn blocking_request_times_out_after_the_budget() {
    assert_eq!(Husb238a::poll_delay_ms(0, 25), Some(10));
    assert_eq!(Husb238a::poll_delay_ms(20, 25), Some(5));
    assert_eq!(Husb238a::poll_delay_ms(25, 25), None);
}

#[test]
fn contract_registers_decode_to_protocol_voltage_and_current() {
    let mut c = Husb238a::with_address(ADDR_VDD);
    assert_eq!(c.address(), ADDR_VDD);
    assert_eq!(Husb238a::new().address(), ADDR_GND);
    let info = c.update_contract_info(0x20, 0);
    assert_eq!(info, ContractInfo { protocol: ChargerProtocol::Pd9v, voltage_mv: 9000, current_ma: 500 });
    // PPS1 contract: 50 mA per LSB, voltage negotiated separately.
    let info = c.update_contract_info(0x60, 60);
    assert_eq!(info, ContractInfo { protocol: ChargerProtocol::Pps, voltage_mv: 0, current_ma: 3000 });
    // Legacy CDP contract: 500 mA + 20 mA per LSB up to 0x7D.
    let info = c.update_contract_info(0x03, 0x7D);
    assert_eq!(info, ContractInfo { protocol: ChargerProtocol::Cdp, voltage_mv: 5000, current_ma: 3000 });
    // Above 0x7D: 3000 mA + 40 mA per LSB.
    let info = c.update_contract_info(0x03, 0x80);
    assert_eq!(info.current_ma, 3120);
    let info = c.update_contract_info(0x00, 0x50);
    assert_eq!(info, ContractInfo { protocol: ChargerProtocol::Unknown, voltage_mv: 0, current_ma: 0 });
    assert_eq!(c.contract_protocol(), ChargerProtocol::Unknown);
    assert_eq!(c.read_vbus_mv(160), 20000);
}

#[test]
fn interrupts_drive_fault_and_contract_state() {
    let mut c = Husb238a::new();
    // Attach: the contract is read, the flag acknowledged.
    let (status, acks) = c.handle_interrupt(0, INT1_I_ATTACH, 0, STATUS_ATTACH, 0x50, 0);
    assert_eq!(status, InterruptStatus { int: 0, int1: INT1_I_ATTACH, int2: 0 });
    assert_eq!(acks, vec![(REG_INTERRUPT1, INT1_I_ATTACH)]);
    assert_eq!(c.contract_protocol(), ChargerProtocol::Pd20v);
    assert_eq!(c.contract_voltage_mv(), 20000);
    assert!(!c.is_fault());
    // Fault: flagged, every set register acknowledged, contract kept.
    let (_, acks) = c.handle_interrupt(0x01, INT1_I_FAULT, INT2_I_TSD, STATUS_ATTACH, 0, 0);
    assert_eq!(
        acks,
        vec![(REG_INTERRUPT, 0x01), (REG_INTERRUPT1, INT1_I_FAULT), (REG_INTERRUPT2, INT2_I_TSD)]
    );
    assert!(c.is_fault());
    assert_eq!(c.contract_voltage_mv(), 20000);
    // Detach: the contract is forgotten and the fault cleared.
    let (_, _) = c.handle_interrupt(0, INT1_I_DETACH, 0, 0, 0x50, 0);
    assert!(!c.is_fault());
    assert_eq!(c.contract_protocol(), ChargerProtocol::Unknown);
    assert_eq!(c.contract_current_ma(), 0);
    let (_, acks) = c.read_interrupts(0, 0, 0);
    assert!(acks.is_empty());
}

#[test]
fn source_pdos_lists_advertised_fixed_then_pps() {
    let c = Husb238a::new();
    // 5 V at 3 A and 20 V at 5 A advertised; PPS1 up to 21 V at 5 A.
    let fixed = [0x80 | 30, 0, 0, 0, 0x80 | 50, 0, 0, 0];
    let pps = [0x80 | 50, 0, 0];
    let mut out = [PdoInfo { code: 0, protocol: ChargerProtocol::Unknown, voltage_mv: 0, current_ma: 0 }; 4];
    let n = c.source_pdos(&fixed, 0xC0, &pps, &mut out);
    assert_eq!(n, 3);
    assert_eq!(out[0], PdoInfo { code: SELECT_PDO_5V, protocol: ChargerProtocol::Pd5v, voltage_mv: 5000, current_ma: 3000 });
    assert_eq!(out[1], PdoInfo { code: SELECT_PDO_20V, protocol: ChargerProtocol::Pd20v, voltage_mv: 20000, current_ma: 5000 });
    assert_eq!(out[2], PdoInfo { code: SELECT_PDO_PPS1, protocol: ChargerProtocol::Pps, voltage_mv: 21000, current_ma: 5000 });
    assert_eq!(out[3].code, 0);
    let mut small = [out[3]; 1];
    assert_eq!(c.source_pdos(&fixed, 0xC0, &pps, &mut small), 1);
    assert_eq!(small[0].code, SELECT_PDO_5V);
}

#[test]
fn scans_report_detected_slots_and_ignore_failed_reads() {
    let c = Husb238a::new();
    let fixed = [Some(0x80), None, Some(0x00), Some(0x81), None, None, None, Some(0xFF)];
    assert_eq!(c.scan_fpdo_mask(fixed), 0b1000_1001);
    assert_eq!(c.scan_pps_mask([None, Some(0x80), Some(0x7F)]), 0b010);
    assert_eq!(c.scan_avs_available(Some(0x80), None), (true, false));
    assert_eq!(c.read_fsm_state(0xFF, 0x41), (0x3F, 0x01));
    assert_eq!(PpsMaxVoltage::from_raw(2).max_mv(), 16000);
}

#[test]
fn request_parameters_are_scaled_and_clamped() {
    let c = Husb238a::new();
    assert_eq!(
        c.set_pps_request(5000, 3000, 0xFF),
        vec![(REG_SNK_PPS_VOLTAGE, 100), (REG_SNK_PPS_CURRENT, 60), (REG_SRC_PDO, 0xFC)]
    );
    // 23460 mV is code 0x3FF: the top two bits go to SRC_PDO[1:0].
    assert_eq!(
        c.set_pps_request(30000, 9000, 0x00),
        vec![(REG_SNK_PPS_VOLTAGE, 0xFF), (REG_SNK_PPS_CURRENT, 0x7F), (REG_SRC_PDO, 0x03)]
    );
    assert_eq!(c.set_pps_request(1000, 0, 0x10)[0], (REG_SNK_PPS_VOLTAGE, 0));
    assert_eq!(c.set_avs_request(30000, 100)[0].1, 0xFF);
    let epr = c.set_epr_avs_request(48000, 5000);
    // 480 = 0x1E0: low byte 0xE0, ninth bit with the current code 100.
    assert_eq!(epr[0].1, 0xE0);
    assert_eq!(epr[1].1, 0x01 | 100);
}

#[test]
fn initialisation_writes_configuration() {
    let c = Husb238a::new();
    let regs = ConfigRegisters { control: 0x01, user_cfg1: 0x4B, user_cfg2: 0x00, user_cfg3: 0xFF, control1: 0x00 };
    let writes = c.init(regs);
    assert_eq!(writes.len(), 13);
    assert_eq!(&writes[0..3], &[(REG_INTERRUPT, 0xFF), (REG_INTERRUPT1, 0xFF), (REG_INTERRUPT2, 0xFF)]);
    assert_eq!(writes[3], (0x01, 0x00));
    assert_eq!(writes[8], (0x0D, 0x08));
    assert_eq!(writes[9], (0x02, 0x28));
    let config = ProtocolConfig { snk_pdo1_current: SinkPdo1Current::Amps1_5, ..ProtocolConfig::with_pps() };
    let writes = c.init_with_config(&config, regs);
    assert_eq!(writes.len(), 14);
    // Bit 7 kept, PPS on, AVS/modal/EPR AVS/3.3 V off, PDO1 current code 3.
    assert_eq!(writes[9], (REG_USER_CFG3, 0b1100_0011));
    assert_eq!(ProtocolConfig::default(), ProtocolConfig::pd_only());
    assert!(ProtocolConfig::full().enable_legacy_detection);
    assert!(ProtocolConfig::with_pps_avs().enable_avs);
}
