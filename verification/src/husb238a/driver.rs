//! The HUSB238A driver's transaction logic.
//!
//! The bus stays with the caller. A register is read with an I2C write of its
//! address followed by a one-byte read; a register write sends the two bytes
//! `[register, value]` to [`Husb238a::address`]. The functions here take the
//! bytes that were read and hand back the writes to make, as `(register, value)`
//! pairs in the order the controller must receive them.
use vstd::prelude::*;
use super::config::ProtocolConfig;
use super::error::Error;
use super::registers::{
    ADDR_GND, CFG1_EN_HVDCP, CFG1_OUT2_SEL_MASK, CFG2_PD_PRIOR, CONTRACT_DPM_MASK,
    CONTRACT_PD_MASK, CONTROL1_ENABLE, CONTROL1_EN_DPM_HIZ, CONTROL_INT_MASK, GO_SELECT_PDO,
    INT1_I_ATTACH, INT1_I_DETACH, INT1_I_FAULT, INT1_I_VBUS_OV, INT2_I_TSD, INT2_I_VBUS_UV,
    INT_I_GO_FAIL, INT_I_PD_HV, MASK1_M_DR_ROLE, MASK1_M_FRC_SUCC, MASK1_M_SRC_ALERT,
    MASK1_M_VBUS_UV, MASK1_M_VDM_MSG, MASK2_M_EPR_MODE, MASK2_M_EXIT_EPR, MASK_M_BC_LVL,
    MASK_M_FLGIN, MASK_M_ORIENT, MASK_M_VBUS_CHG, PD_CONTRACT_AVS, PD_CONTRACT_EPR_AVS,
    PD_CONTRACT_PPS1, PD_CONTRACT_PPS3, PD_CONTRACT_TYPEC_5V, REG_CONTROL, REG_CONTROL1,
    REG_GO_COMMAND, REG_INTERRUPT, REG_INTERRUPT1, REG_INTERRUPT2, REG_MASK, REG_MASK1,
    REG_MASK2, REG_SRC_PDO, REG_USER_CFG1, REG_USER_CFG2, REG_USER_CFG3, SRC_PDO_SELECT_MASK,
    STATUS1_AMS_SUCC, STATUS_ATTACH, TYPE_SINK, VBUS_MEAS_LSB_MV, SELECT_PDO_5V, SELECT_PDO_9V,
    SELECT_PDO_12V, SELECT_PDO_15V, SELECT_PDO_20V, SELECT_PDO_28V, SELECT_PDO_36V,
    SELECT_PDO_48V, SELECT_PDO_PPS1, SELECT_PDO_PPS2, SELECT_PDO_PPS3, SRC_PDO_CURRENT_MASK,
    SRC_PDO_DETECT, REG_SNK_PPS_VOLTAGE, REG_SNK_PPS_CURRENT, REG_SNK_AVS_VOLTAGE,
    REG_SNK_AVS_CURRENT, REG_EPR_AVS_VOLTAGE, REG_EPR_AVS_CURRENT,
};
use super::types::{
    dpm_protocol, pd_protocol, pd_voltage, ChargerProtocol, ContractInfo, InterruptStatus,
    PdoInfo, PpsMaxVoltage, RequestStatus,
};

verus! {

/// CONTRACT_STATUS1 current code in mA: 500 mA + 20 mA/LSB up to 0x7D, then
/// 3000 mA + 40 mA/LSB.
pub open spec fn contract_current(raw: u8) -> u32 {
    if raw <= 0x7D {
        (500 + raw * 20) as u32
    } else {
        (3000 + (raw - 0x7D) * 40) as u32
    }
}

/// The fixed-contract current code steps by 20 mA from 500 mA at code 0 up to
/// 3000 mA at code 0x7D, and by 40 mA per code above that.
pub proof fn lemma_contract_current_steps(raw: u8)
    ensures
        contract_current(0) == 500,
        contract_current(0x7D) == 3000,
        raw < 0x7D ==> contract_current((raw + 1) as u8) == contract_current(raw) + 20,
        0x7D <= raw < 0xFF ==> contract_current((raw + 1) as u8) == contract_current(raw) + 40,
{
}

/// Whether a PD_CONTRACT code names a programmable contract (PPS, AVS, EPR AVS),
/// whose CONTRACT_STATUS1 is the current at 50 mA/LSB.
pub open spec fn is_programmable(pd: u8) -> bool {
    (PD_CONTRACT_PPS1 <= pd && pd <= PD_CONTRACT_PPS3) || pd == PD_CONTRACT_AVS || pd
        == PD_CONTRACT_EPR_AVS
}

/// The decoded contract's voltage matches its protocol: each fixed PD contract at
/// its nominal voltage (5, 9, 12, 15, 20, 28, 36, 48 V), the 5 V non-PD contracts
/// (default, divider, SDP, CDP, DCP, HVDCP) at 5 V, and the programmable contracts
/// at 0.
pub proof fn lemma_contract_voltage_matches_protocol(c0: u8, c1: u8)
    ensures
        ({
            let ci = contract_of(c0, c1);
            &&& ci.protocol == ChargerProtocol::Pd5v ==> ci.voltage_mv == 5000
            &&& ci.protocol == ChargerProtocol::Pd9v ==> ci.voltage_mv == 9000
            &&& ci.protocol == ChargerProtocol::Pd12v ==> ci.voltage_mv == 12000
            &&& ci.protocol == ChargerProtocol::Pd15v ==> ci.voltage_mv == 15000
            &&& ci.protocol == ChargerProtocol::Pd20v ==> ci.voltage_mv == 20000
            &&& ci.protocol == ChargerProtocol::Pd28v ==> ci.voltage_mv == 28000
            &&& ci.protocol == ChargerProtocol::Pd36v ==> ci.voltage_mv == 36000
            &&& ci.protocol == ChargerProtocol::Pd48v ==> ci.voltage_mv == 48000
            &&& (ci.protocol == ChargerProtocol::Pps || ci.protocol == ChargerProtocol::Avs
                || ci.protocol == ChargerProtocol::EprAvs) ==> ci.voltage_mv == 0
            &&& (ci.protocol == ChargerProtocol::Default5v || ci.protocol
                == ChargerProtocol::Divider3 || ci.protocol == ChargerProtocol::Sdp || ci.protocol
                == ChargerProtocol::Cdp || ci.protocol == ChargerProtocol::Dcp || ci.protocol
                == ChargerProtocol::Hvdcp) ==> ci.voltage_mv == 5000
        }),
{
    let pd = (c0 & CONTRACT_PD_MASK) >> 4u8;
    super::types::lemma_pd_voltage_is_nominal(pd);
}

/// The contract with no charger.
pub open spec fn no_contract() -> ContractInfo {
    ContractInfo { protocol: ChargerProtocol::Unknown, voltage_mv: 0, current_ma: 0 }
}

/// The contract that CONTRACT_STATUS0 = `c0` and CONTRACT_STATUS1 = `c1` describe.
pub open spec fn contract_of(c0: u8, c1: u8) -> ContractInfo {
    let pd = (c0 & CONTRACT_PD_MASK) >> 4u8;
    let dpm = c0 & CONTRACT_DPM_MASK;
    if pd != PD_CONTRACT_TYPEC_5V {
        ContractInfo {
            protocol: pd_protocol(pd),
            voltage_mv: pd_voltage(pd),
            current_ma: if is_programmable(pd) {
                (c1 * 50) as u32
            } else {
                contract_current(c1)
            },
        }
    } else if dpm != 0 {
        ContractInfo {
            protocol: dpm_protocol(dpm),
            voltage_mv: 5000,
            current_ma: contract_current(c1),
        }
    } else {
        no_contract()
    }
}

/// The write-1-to-clear acknowledgements of the flags read from the three
/// interrupt registers: one write per register that had a flag set.
pub open spec fn ack_writes(int0: u8, int1: u8, int2: u8) -> Seq<(u8, u8)> {
    (if int0 != 0 {
        seq![(REG_INTERRUPT, int0)]
    } else {
        Seq::empty()
    }) + (if int1 != 0 {
        seq![(REG_INTERRUPT1, int1)]
    } else {
        Seq::empty()
    }) + (if int2 != 0 {
        seq![(REG_INTERRUPT2, int2)]
    } else {
        Seq::empty()
    })
}

/// The writes that clear every interrupt flag.
pub open spec fn clear_all_writes() -> Seq<(u8, u8)> {
    seq![(REG_INTERRUPT, 0xFFu8), (REG_INTERRUPT1, 0xFFu8), (REG_INTERRUPT2, 0xFFu8)]
}

/// Whether the interrupt flags report a sink fault (FAULT, VBUS_OV, VBUS_UV or TSD).
pub open spec fn fault_reported(int1: u8, int2: u8) -> bool {
    int1 & INT1_I_FAULT != 0 || int1 & INT1_I_VBUS_OV != 0 || int2 & INT2_I_VBUS_UV != 0 || int2
        & INT2_I_TSD != 0
}

/// Whether an interrupt that is not a fault makes the driver re-read the contract:
/// an attach, a PD high-voltage event, or a charger still attached with no
/// attach/detach/PD event.
pub open spec fn refresh_on_interrupt(int0: u8, int1: u8, status: u8) -> bool {
    int1 & INT1_I_ATTACH != 0 || int0 & INT_I_PD_HV != 0 || (status & STATUS_ATTACH != 0 && int1
        & INT1_I_DETACH == 0)
}

/// Source-PDO current field in mA (100 mA/LSB, seven bits).
pub open spec fn src_pdo_current(raw: u8) -> u16 {
    ((raw & SRC_PDO_CURRENT_MASK) * 100) as u16
}

/// Whether a source-PDO register reports the PDO as advertised.
pub open spec fn pdo_detected(raw: u8) -> bool {
    raw & SRC_PDO_DETECT != 0
}

/// Upper voltage in mV of a two-bit PPS range code.
pub open spec fn pps_max_mv(code: u8) -> u16 {
    if code % 4 == 0 {
        5900
    } else if code % 4 == 1 {
        11000
    } else if code % 4 == 2 {
        16000
    } else {
        21000
    }
}

/// Select code, protocol and voltage of fixed-PDO slot `i` (5 V up to 48 V).
pub open spec fn fixed_slot(i: int) -> (u8, ChargerProtocol, u16) {
    if i == 0 {
        (SELECT_PDO_5V, ChargerProtocol::Pd5v, 5000u16)
    } else if i == 1 {
        (SELECT_PDO_9V, ChargerProtocol::Pd9v, 9000u16)
    } else if i == 2 {
        (SELECT_PDO_12V, ChargerProtocol::Pd12v, 12000u16)
    } else if i == 3 {
        (SELECT_PDO_15V, ChargerProtocol::Pd15v, 15000u16)
    } else if i == 4 {
        (SELECT_PDO_20V, ChargerProtocol::Pd20v, 20000u16)
    } else if i == 5 {
        (SELECT_PDO_28V, ChargerProtocol::Pd28v, 28000u16)
    } else if i == 6 {
        (SELECT_PDO_36V, ChargerProtocol::Pd36v, 36000u16)
    } else {
        (SELECT_PDO_48V, ChargerProtocol::Pd48v, 48000u16)
    }
}

/// Select code and SRC_PPS_VOLTAGE bit position of PPS slot `k` (PPS1..PPS3).
pub open spec fn pps_slot(k: int) -> (u8, u8) {
    if k == 0 {
        (SELECT_PDO_PPS1, 6u8)
    } else if k == 1 {
        (SELECT_PDO_PPS2, 4u8)
    } else {
        (SELECT_PDO_PPS3, 2u8)
    }
}

/// Candidate PDO `i` of the eleven the controller reports (eight fixed PDOs, then
/// three PPS PDOs), and whether the source advertises it.
pub open spec fn pdo_slot(i: int, fixed: Seq<u8>, pps_voltage: u8, pps: Seq<u8>) -> (
    bool,
    PdoInfo,
) {
    if i < 8 {
        let raw = fixed[i];
        (
            pdo_detected(raw),
            PdoInfo {
                code: fixed_slot(i).0,
                protocol: fixed_slot(i).1,
                voltage_mv: fixed_slot(i).2,
                current_ma: src_pdo_current(raw),
            },
        )
    } else {
        let raw = pps[i - 8];
        (
            pdo_detected(raw),
            PdoInfo {
                code: pps_slot(i - 8).0,
                protocol: ChargerProtocol::Pps,
                voltage_mv: pps_max_mv((pps_voltage >> pps_slot(i - 8).1) & 0x03),
                current_ma: src_pdo_current(raw),
            },
        )
    }
}

/// The advertised PDOs among the first `k` candidates, in order.
pub open spec fn advertised(fixed: Seq<u8>, pps_voltage: u8, pps: Seq<u8>, k: nat) -> Seq<
    PdoInfo,
>
    decreases k,
{
    if k == 0 {
        Seq::empty()
    } else {
        let prev = advertised(fixed, pps_voltage, pps, (k - 1) as nat);
        let slot = pdo_slot(k - 1, fixed, pps_voltage, pps);
        if slot.0 {
            prev.push(slot.1)
        } else {
            prev
        }
    }
}

/// Every PDO the source advertises: fixed PDOs from 5 V up, then PPS1..PPS3.
pub open spec fn advertised_pdos(fixed: Seq<u8>, pps_voltage: u8, pps: Seq<u8>) -> Seq<PdoInfo> {
    advertised(fixed, pps_voltage, pps, 11)
}

/// SRC_PDO with its PDO-select field (bits 7:3) replaced by `code`.
pub open spec fn with_selection(src_pdo: u8, code: u8) -> u8 {
    (src_pdo & !SRC_PDO_SELECT_MASK) | ((code << 3u8) & SRC_PDO_SELECT_MASK)
}

/// `a`, capped at `cap`.
pub open spec fn capped(a: int, cap: int) -> int {
    if a > cap {
        cap
    } else {
        a
    }
}

/// Request current code: 50 mA/LSB, at most 0x7F.
pub open spec fn request_current_code(current_ma: u16) -> u8 {
    capped((current_ma / 50) as int, 0x7F) as u8
}

/// PPS request voltage code: 20 mV/LSB above 3 V, at most 0x3FF.
pub open spec fn pps_voltage_code(voltage_mv: u16) -> u16 {
    capped(if voltage_mv >= 3000 { (voltage_mv - 3000) / 20 } else { 0 }, 0x3FF) as u16
}

/// The writes that set a PPS request, given the SRC_PDO register read.
pub open spec fn pps_request_writes(voltage_mv: u16, current_ma: u16, src_pdo: u8) -> Seq<(u8, u8)> {
    let v = pps_voltage_code(voltage_mv);
    seq![
        (REG_SNK_PPS_VOLTAGE, (v & 0xFF) as u8),
        (REG_SNK_PPS_CURRENT, request_current_code(current_ma)),
        (REG_SRC_PDO, (src_pdo & !0x03u8) | ((v >> 8u16) & 0x03) as u8),
    ]
}

/// The writes that set an AVS request (100 mV/LSB, at most 0xFF).
pub open spec fn avs_request_writes(voltage_mv: u16, current_ma: u16) -> Seq<(u8, u8)> {
    seq![
        (REG_SNK_AVS_VOLTAGE, capped((voltage_mv / 100) as int, 0xFF) as u8),
        (REG_SNK_AVS_CURRENT, request_current_code(current_ma)),
    ]
}

/// The writes that set an EPR AVS request (100 mV/LSB, nine bits, the ninth in
/// EPR_AVS_CURRENT bit 0).
pub open spec fn epr_avs_request_writes(voltage_mv: u16, current_ma: u16) -> Seq<(u8, u8)> {
    let v = capped((voltage_mv / 100) as int, 0x1FF) as u16;
    seq![
        (REG_EPR_AVS_VOLTAGE, (v & 0xFF) as u8),
        (REG_EPR_AVS_CURRENT, ((v >> 8u16) & 0x01) as u8 | request_current_code(current_ma)),
    ]
}

/// Bit `j` of `mask`.
pub open spec fn bit(mask: u8, j: u8) -> bool {
    (mask >> j) & 1 == 1
}

/// Whether an optional source-PDO read succeeded and reports the PDO as advertised.
pub open spec fn read_detected(read: Option<u8>) -> bool {
    read matches Some(v) && v & SRC_PDO_DETECT != 0
}

/// A mask whose bit `j` tells whether read `j` reports an advertised PDO.
pub open spec fn is_detect_mask(mask: u8, reads: Seq<Option<u8>>) -> bool {
    forall|j: u8| j < 8 ==> #[trigger] bit(mask, j) == (j < reads.len() && read_detected(reads[j as int]))
}

/// The register values the configuration step of initialisation reads.
#[derive(Debug, Clone, Copy, PartialEq, Eq, Structural)]
pub struct ConfigRegisters {
    pub control: u8,
    pub user_cfg1: u8,
    pub user_cfg2: u8,
    pub user_cfg3: u8,
    pub control1: u8,
}

/// `v` with the bits of `b` set when `on`, cleared otherwise.
pub open spec fn set_bits(v: u8, b: u8, on: bool) -> u8 {
    if on {
        v | b
    } else {
        v & !b
    }
}

/// Interrupt mask register values of initialisation: only ATTACH, DETACH,
/// FAULT and VBUS_OV unmasked in MASK; EXIT_EPR and EPR_MODE masked in MASK2.
pub open spec fn init_mask() -> u8 {
    MASK_M_FLGIN | MASK_M_ORIENT | MASK_M_VBUS_CHG | MASK_M_BC_LVL
}

/// MASK1 of initialisation: TSD, VBUS_UV and FRC_FAIL unmasked.
pub open spec fn init_mask1() -> u8 {
    MASK1_M_DR_ROLE | MASK1_M_SRC_ALERT | MASK1_M_FRC_SUCC | MASK1_M_VDM_MSG
}

/// MASK2 of initialisation.
pub open spec fn init_mask2() -> u8 {
    MASK2_M_EXIT_EPR | MASK2_M_EPR_MODE
}

/// The writes of the default initialisation, given the registers it reads.
pub open spec fn init_writes(regs: ConfigRegisters) -> Seq<(u8, u8)> {
    clear_all_writes() + seq![
        (REG_CONTROL, regs.control & !CONTROL_INT_MASK),
        (REG_MASK, init_mask()),
        (REG_MASK1, init_mask1()),
        (REG_MASK2, init_mask2()),
        (REG_USER_CFG2, regs.user_cfg2 | CFG2_PD_PRIOR),
        (REG_USER_CFG1, (regs.user_cfg1 & !CFG1_OUT2_SEL_MASK) & !CFG1_EN_HVDCP),
        (REG_CONTROL1, (regs.control1 | CONTROL1_ENABLE) | CONTROL1_EN_DPM_HIZ),
    ] + clear_all_writes()
}

/// USER_CFG3 under `config`: the PPS, AVS, modal, EPR AVS and 3.3 V bits, and
/// the PDO1 current code in bits 1:0.
pub open spec fn config_cfg3(config: ProtocolConfig, cfg3: u8) -> u8 {
    let v = set_bits(
        set_bits(
            set_bits(
                set_bits(set_bits(cfg3, 1u8 << 6u8, config.enable_pps), 1u8 << 5u8, config.enable_avs),
                1u8 << 4u8,
                config.enable_modal_operation,
            ),
            1u8 << 3u8,
            config.enable_epr_avs,
        ),
        1u8 << 2u8,
        config.snk_cap_min_voltage_3v3,
    );
    (v & !0x03u8) | (config.snk_pdo1_current.code() & 0x03)
}

/// The writes of initialisation under `config`, given the registers it reads.
pub open spec fn config_writes(config: ProtocolConfig, regs: ConfigRegisters) -> Seq<(u8, u8)> {
    clear_all_writes() + seq![
        (REG_CONTROL, regs.control & !CONTROL_INT_MASK),
        (REG_MASK, init_mask()),
        (REG_MASK1, set_bits(init_mask1(), MASK1_M_VBUS_UV, !config.enable_vbus_uv_detection)),
        (REG_MASK2, init_mask2()),
        (REG_USER_CFG2, set_bits(regs.user_cfg2, CFG2_PD_PRIOR, config.pd_priority)),
        (REG_USER_CFG1, set_bits(
            set_bits(regs.user_cfg1 & !CFG1_OUT2_SEL_MASK, CFG1_EN_HVDCP, config.enable_hvdcp),
            1u8 << 3u8,
            config.enable_vbus_uv_detection,
        )),
        (REG_USER_CFG3, config_cfg3(config, regs.user_cfg3)),
        (REG_CONTROL1, set_bits(
            regs.control1 | CONTROL1_ENABLE,
            CONTROL1_EN_DPM_HIZ,
            !config.enable_legacy_detection,
        )),
    ] + clear_all_writes()
}

/// Setting bit `i` of a byte changes bit `i` only; the empty mask has no bit set.
proof fn lemma_mask_bit(mask: u8, i: u8, j: u8)
    by (bit_vector)
    requires
        i < 8,
        j < 8,
    ensures
        ((mask | (1u8 << i)) >> j) & 1 == (if i == j { 1u8 } else { (mask >> j) & 1 }),
        (0u8 >> j) & 1 == 0,
{
}

/// Selecting a PDO keeps the other bits of SRC_PDO: bits 2:0 are unchanged and
/// bits 7:3 hold the select code.
pub proof fn lemma_selection_keeps_other_bits(src_pdo: u8, code: u8)
    requires
        code < 32,
    ensures
        with_selection(src_pdo, code) & 0x07 == src_pdo & 0x07,
        with_selection(src_pdo, code) >> 3u8 == code,
{
    assert(((src_pdo & !SRC_PDO_SELECT_MASK) | ((code << 3u8) & SRC_PDO_SELECT_MASK)) & 0x07
        == src_pdo & 0x07 && ((src_pdo & !SRC_PDO_SELECT_MASK) | ((code << 3u8)
        & SRC_PDO_SELECT_MASK)) >> 3u8 == code) by (bit_vector)
        requires
            code < 32,
    ;
}

/// HUSB238A driver state.
pub struct Husb238a {
    address: u8,
    contract: ContractInfo,
    charger_detected: bool,
    is_fault: bool,
}

impl Husb238a {
    /// The 7-bit I2C address the driver talks to.
    pub closed spec fn addr(&self) -> u8 {
        self.address
    }

    /// The last contract the driver read.
    pub closed spec fn contract_info(&self) -> ContractInfo {
        self.contract
    }

    /// Whether the driver has seen a charger attach since the last detach.
    pub closed spec fn detected(&self) -> bool {
        self.charger_detected
    }

    /// Whether the last interrupt handled reported a fault.
    pub closed spec fn fault_flag(&self) -> bool {
        self.is_fault
    }

    /// Create a new HUSB238A driver with ADDR pin connected to GND (default)
    pub fn new() -> (r: Self)
        ensures
            r.addr() == ADDR_GND,
            r.contract_info() == no_contract(),
            !r.detected(),
            !r.fault_flag(),
    {
        Self::with_address(ADDR_GND)
    }

    /// Create a new HUSB238A driver with custom address
    pub fn with_address(address: u8) -> (r: Self)
        ensures
            r.addr() == address,
            r.contract_info() == no_contract(),
            !r.detected(),
            !r.fault_flag(),
    {
        Self {
            address,
            contract: ContractInfo {
                protocol: ChargerProtocol::Unknown,
                voltage_mv: 0,
                current_ma: 0,
            },
            charger_detected: false,
            is_fault: false,
        }
    }

    /// The 7-bit I2C address every transaction goes to.
    pub fn address(&self) -> (r: u8)
        ensures
            r == self.addr(),
    {
        self.address
    }

    /// Whether a charger is attached, from a read of `REG_STATUS`.
    pub fn charger_attached(&self, status: u8) -> (r: bool)
        ensures
            r == (status & STATUS_ATTACH != 0),
    {
        (status & STATUS_ATTACH) != 0
    }

    /// Check if fault occurred
    pub fn is_fault(&self) -> (r: bool)
        ensures
            r == self.fault_flag(),
    {
        self.is_fault
    }

    /// Get current contract protocol
    pub fn contract_protocol(&self) -> (r: ChargerProtocol)
        ensures
            r == self.contract_info().protocol,
    {
        self.contract.protocol
    }

    /// Get current contract voltage in mV
    pub fn contract_voltage_mv(&self) -> (r: u16)
        ensures
            r == self.contract_info().voltage_mv,
    {
        self.contract.voltage_mv
    }

    /// Get current contract current in mA
    pub fn contract_current_ma(&self) -> (r: u32)
        ensures
            r == self.contract_info().current_ma,
    {
        self.contract.current_ma
    }

    /// VBUS voltage in mV from a read of `REG_VBUS_MEASUREMENT` (125 mV per LSB).
    pub fn read_vbus_mv(&self, raw: u8) -> (r: u16)
        ensures
            r == raw * 125,
    {
        raw as u16 * VBUS_MEAS_LSB_MV
    }

    /// Convert CONTRACT_STATUS1 raw current to mA.
    fn contract_current_to_ma(raw: u8) -> (r: u32)
        ensures
            r == contract_current(raw),
    {
        if raw <= 0x7D {
            500 + raw as u32 * 20
        } else {
            3000 + (raw as u32 - 0x7D) * 40
        }
    }

    /// Refresh the contract from reads of CONTRACT_STATUS0 and CONTRACT_STATUS1.
    pub fn update_contract_info(&mut self, contract0: u8, contract1: u8) -> (r: ContractInfo)
        ensures
            r == contract_of(contract0, contract1),
            final(self).contract_info() == r,
            final(self).addr() == old(self).addr(),
            final(self).detected() == old(self).detected(),
            final(self).fault_flag() == old(self).fault_flag(),
    {
        let pd_contract = (contract0 & CONTRACT_PD_MASK) >> 4u8;
        let dpm_contract = contract0 & CONTRACT_DPM_MASK;
        self.contract = if pd_contract != PD_CONTRACT_TYPEC_5V {
            let current_ma = if (PD_CONTRACT_PPS1 <= pd_contract && pd_contract
                <= PD_CONTRACT_PPS3) || pd_contract == PD_CONTRACT_AVS || pd_contract
                == PD_CONTRACT_EPR_AVS {
                contract1 as u32 * 50
            } else {
                Self::contract_current_to_ma(contract1)
            };
            ContractInfo {
                protocol: ChargerProtocol::from_pd_contract(pd_contract),
                voltage_mv: ChargerProtocol::pd_voltage_mv(pd_contract),
                current_ma,
            }
        } else if dpm_contract != 0 {
            ContractInfo {
                protocol: ChargerProtocol::from_dpm_contract(dpm_contract),
                voltage_mv: 5000,
                current_ma: Self::contract_current_to_ma(contract1),
            }
        } else {
            ContractInfo { protocol: ChargerProtocol::Unknown, voltage_mv: 0, current_ma: 0 }
        };
        self.contract
    }

    /// The acknowledgement writes for the flags read from the interrupt registers.
    fn ack_interrupts(int0: u8, int1: u8, int2: u8) -> (r: Vec<(u8, u8)>)
        ensures
            r@ == ack_writes(int0, int1, int2),
    {
        let mut writes: Vec<(u8, u8)> = Vec::new();
        if int0 != 0 {
            writes.push((REG_INTERRUPT, int0));
        }
        if int1 != 0 {
            writes.push((REG_INTERRUPT1, int1));
        }
        if int2 != 0 {
            writes.push((REG_INTERRUPT2, int2));
        }
        assert(writes@ =~= ack_writes(int0, int1, int2));
        writes
    }

    /// Interrupt status from reads of INTERRUPT, INTERRUPT1 and INTERRUPT2, with the
    /// writes that clear the flags that were set.
    pub fn read_interrupts(&self, int0: u8, int1: u8, int2: u8) -> (r: (
        InterruptStatus,
        Vec<(u8, u8)>,
    ))
        ensures
            r.0 == (InterruptStatus { int: int0, int1, int2 }),
            r.1@ == ack_writes(int0, int1, int2),
    {
        (InterruptStatus { int: int0, int1, int2 }, Self::ack_interrupts(int0, int1, int2))
    }

    /// Handle an interrupt (EXTI callback).
    ///
    /// Takes the three interrupt registers, `REG_STATUS`, and the two contract
    /// registers. A detach forgets the contract; a fault (FAULT, VBUS_OV, VBUS_UV or
    /// TSD) sets the fault flag and does nothing more; otherwise the fault flag is
    /// cleared and the contract is re-read after an attach, a PD high-voltage event,
    /// or while a charger stays attached. Returns the interrupt status and the
    /// writes that acknowledge the flags.
    pub fn handle_interrupt(
        &mut self,
        int0: u8,
        int1: u8,
        int2: u8,
        status: u8,
        contract0: u8,
        contract1: u8,
    ) -> (r: (InterruptStatus, Vec<(u8, u8)>))
        ensures
            r.0 == (InterruptStatus { int: int0, int1, int2 }),
            r.1@ == ack_writes(int0, int1, int2),
            final(self).addr() == old(self).addr(),
            final(self).fault_flag() == fault_reported(int1, int2),
            fault_reported(int1, int2) ==> {
                &&& final(self).detected() == (old(self).detected() && int1 & INT1_I_DETACH
                    == 0)
                &&& final(self).contract_info() == (if int1 & INT1_I_DETACH != 0 {
                    no_contract()
                } else {
                    old(self).contract_info()
                })
            },
            !fault_reported(int1, int2) ==> {
                &&& final(self).detected() == (if refresh_on_interrupt(int0, int1, status) {
                    true
                } else {
                    old(self).detected() && int1 & INT1_I_DETACH == 0
                })
                &&& final(self).contract_info() == (if refresh_on_interrupt(int0, int1, status) {
                    contract_of(contract0, contract1)
                } else if int1 & INT1_I_DETACH != 0 {
                    no_contract()
                } else {
                    old(self).contract_info()
                })
            },
    {
        let is_attach = int1 & INT1_I_ATTACH != 0;
        let is_detach = int1 & INT1_I_DETACH != 0;
        let is_pd_hv = int0 & INT_I_PD_HV != 0;
        let is_fault_int = int1 & INT1_I_FAULT != 0;
        let is_vbus_ov = int1 & INT1_I_VBUS_OV != 0;
        let is_vbus_uv = int2 & INT2_I_VBUS_UV != 0;
        let is_tsd = int2 & INT2_I_TSD != 0;
        let attached = self.charger_attached(status);

        if is_detach {
            self.charger_detected = false;
            self.contract = ContractInfo {
                protocol: ChargerProtocol::Unknown,
                voltage_mv: 0,
                current_ma: 0,
            };
        }
        if is_fault_int || is_vbus_ov || is_vbus_uv || is_tsd {
            self.is_fault = true;
            return (InterruptStatus { int: int0, int1, int2 }, Self::ack_interrupts(int0, int1, int2));
        }
        self.is_fault = false;
        if is_attach || is_pd_hv {
            self.charger_detected = true;
            self.update_contract_info(contract0, contract1);
        }
        if attached && !is_attach && !is_detach && !is_pd_hv {
            self.charger_detected = true;
            self.update_contract_info(contract0, contract1);
        }
        (InterruptStatus { int: int0, int1, int2 }, Self::ack_interrupts(int0, int1, int2))
    }

    /// Record that a charger is attached and refresh the contract from reads of
    /// CONTRACT_STATUS0 and CONTRACT_STATUS1 (the last step of initialisation
    /// when `charger_attached` holds).
    pub fn record_attached(&mut self, contract0: u8, contract1: u8) -> (r: ContractInfo)
        ensures
            r == contract_of(contract0, contract1),
            final(self).contract_info() == r,
            final(self).detected(),
            final(self).addr() == old(self).addr(),
            final(self).fault_flag() == old(self).fault_flag(),
    {
        self.charger_detected = true;
        self.update_contract_info(contract0, contract1)
    }

    /// The writes that clear every interrupt flag (write-1-to-clear).
    fn clear_all_interrupts(writes: &mut Vec<(u8, u8)>)
        ensures
            final(writes)@ == old(writes)@ + clear_all_writes(),
    {
        writes.push((REG_INTERRUPT, 0xFF));
        writes.push((REG_INTERRUPT1, 0xFF));
        writes.push((REG_INTERRUPT2, 0xFF));
        assert(writes@ =~= old(writes)@ + clear_all_writes());
    }

    /// The writes of the default initialisation, in order: clear all interrupt
    /// flags, unmask global interrupts, configure MASK/MASK1/MASK2 for the key
    /// interrupts only, set PD_PRIORITY, put OUT2 in fault-indication mode and
    /// disable HVDCP, enable the controller with legacy detection off, and clear
    /// all flags again.
    ///
    /// `regs` holds the reads of CONTROL, USER_CFG1, USER_CFG2 and CONTROL1 that
    /// these writes modify. Before them the caller reads `REG_STATUS` to probe the
    /// chip; after them it reads `REG_STATUS` again and, when a charger is attached,
    /// calls [`Husb238a::record_attached`].
    pub fn init(&self, regs: ConfigRegisters) -> (r: Vec<(u8, u8)>)
        ensures
            r@ == init_writes(regs),
    {
        let mut writes: Vec<(u8, u8)> = Vec::new();
        Self::clear_all_interrupts(&mut writes);
        writes.push((REG_CONTROL, regs.control & !CONTROL_INT_MASK));
        writes.push((REG_MASK, MASK_M_FLGIN | MASK_M_ORIENT | MASK_M_VBUS_CHG | MASK_M_BC_LVL));
        writes.push(
            (REG_MASK1, MASK1_M_DR_ROLE | MASK1_M_SRC_ALERT | MASK1_M_FRC_SUCC | MASK1_M_VDM_MSG),
        );
        writes.push((REG_MASK2, MASK2_M_EXIT_EPR | MASK2_M_EPR_MODE));
        writes.push((REG_USER_CFG2, regs.user_cfg2 | CFG2_PD_PRIOR));
        writes.push((REG_USER_CFG1, (regs.user_cfg1 & !CFG1_OUT2_SEL_MASK) & !CFG1_EN_HVDCP));
        writes.push((REG_CONTROL1, (regs.control1 | CONTROL1_ENABLE) | CONTROL1_EN_DPM_HIZ));
        Self::clear_all_interrupts(&mut writes);
        assert(writes@ =~= init_writes(regs));
        writes
    }

    /// `v` with the bits of `b` set when `on`, cleared otherwise.
    fn set_bits(v: u8, b: u8, on: bool) -> (r: u8)
        ensures
            r == set_bits(v, b, on),
    {
        if on {
            v | b
        } else {
            v & !b
        }
    }

    /// USER_CFG3 under `config`, given its current value.
    fn config_cfg3(config: &ProtocolConfig, current: u8) -> (r: u8)
        ensures
            r == config_cfg3(*config, current),
    {
        let mut cfg3 = Self::set_bits(current, 1u8 << 6u8, config.enable_pps);
        cfg3 = Self::set_bits(cfg3, 1u8 << 5u8, config.enable_avs);
        cfg3 = Self::set_bits(cfg3, 1u8 << 4u8, config.enable_modal_operation);
        cfg3 = Self::set_bits(cfg3, 1u8 << 3u8, config.enable_epr_avs);
        cfg3 = Self::set_bits(cfg3, 1u8 << 2u8, config.snk_cap_min_voltage_3v3);
        (cfg3 & !0x03u8) | (config.snk_pdo1_current.bits() & 0x03)
    }

    /// The writes of initialisation under `config`: as [`Husb238a::init`], with
    /// VBUS_UV masked unless its detection is on, PD_PRIORITY, HVDCP and VBUS_UV
    /// detection as configured, USER_CFG3 holding the sink capabilities, and
    /// legacy D+/D- detection as configured.
    ///
    /// `regs` holds the reads of CONTROL, USER_CFG1, USER_CFG2, USER_CFG3 and
    /// CONTROL1.
    pub fn init_with_config(&self, config: &ProtocolConfig, regs: ConfigRegisters) -> (r: Vec<
        (u8, u8),
    >)
        ensures
            r@ == config_writes(*config, regs),
    {
        let mut writes: Vec<(u8, u8)> = Vec::new();
        Self::clear_all_interrupts(&mut writes);
        writes.push((REG_CONTROL, regs.control & !CONTROL_INT_MASK));
        writes.push((REG_MASK, MASK_M_FLGIN | MASK_M_ORIENT | MASK_M_VBUS_CHG | MASK_M_BC_LVL));
        let mask1 = MASK1_M_DR_ROLE | MASK1_M_SRC_ALERT | MASK1_M_FRC_SUCC | MASK1_M_VDM_MSG;
        writes.push((REG_MASK1, Self::set_bits(mask1, MASK1_M_VBUS_UV, !config.enable_vbus_uv_detection)));
        writes.push((REG_MASK2, MASK2_M_EXIT_EPR | MASK2_M_EPR_MODE));
        writes.push((REG_USER_CFG2, Self::set_bits(regs.user_cfg2, CFG2_PD_PRIOR, config.pd_priority)));
        let cfg1 = Self::set_bits(regs.user_cfg1 & !CFG1_OUT2_SEL_MASK, CFG1_EN_HVDCP, config.enable_hvdcp);
        writes.push((REG_USER_CFG1, Self::set_bits(cfg1, 1u8 << 3u8, config.enable_vbus_uv_detection)));
        let cfg3 = Self::config_cfg3(config, regs.user_cfg3);
        writes.push((REG_USER_CFG3, cfg3));
        writes.push(
            (REG_CONTROL1, Self::set_bits(
                regs.control1 | CONTROL1_ENABLE,
                CONTROL1_EN_DPM_HIZ,
                !config.enable_legacy_detection,
            )),
        );
        let ghost middle = writes@;
        Self::clear_all_interrupts(&mut writes);
        assert(middle.subrange(3, 11) =~= config_writes(*config, regs).subrange(3, 11));
        assert(writes@ =~= config_writes(*config, regs));
        writes
    }

    /// Convert a source-PDO current field (100 mA/LSB) to mA.
    fn src_pdo_current_to_ma(raw: u8) -> (r: u16)
        ensures
            r == src_pdo_current(raw),
    {
        (raw & SRC_PDO_CURRENT_MASK) as u16 * 100
    }

    /// Candidate PDO `i` and whether it is advertised.
    fn pdo_slot(i: usize, fixed: &[u8; 8], pps_voltage: u8, pps: &[u8; 3]) -> (r: (bool, PdoInfo))
        requires
            i < 11,
        ensures
            r == pdo_slot(i as int, fixed@, pps_voltage, pps@),
    {
        if i < 8 {
            let raw = fixed[i];
            let (code, protocol, voltage_mv): (u8, ChargerProtocol, u16) = if i == 0 {
                (SELECT_PDO_5V, ChargerProtocol::Pd5v, 5000)
            } else if i == 1 {
                (SELECT_PDO_9V, ChargerProtocol::Pd9v, 9000)
            } else if i == 2 {
                (SELECT_PDO_12V, ChargerProtocol::Pd12v, 12000)
            } else if i == 3 {
                (SELECT_PDO_15V, ChargerProtocol::Pd15v, 15000)
            } else if i == 4 {
                (SELECT_PDO_20V, ChargerProtocol::Pd20v, 20000)
            } else if i == 5 {
                (SELECT_PDO_28V, ChargerProtocol::Pd28v, 28000)
            } else if i == 6 {
                (SELECT_PDO_36V, ChargerProtocol::Pd36v, 36000)
            } else {
                (SELECT_PDO_48V, ChargerProtocol::Pd48v, 48000)
            };
            (
                raw & SRC_PDO_DETECT != 0,
                PdoInfo { code, protocol, voltage_mv, current_ma: Self::src_pdo_current_to_ma(raw) },
            )
        } else {
            let raw = pps[i - 8];
            let (code, shift): (u8, u8) = if i == 8 {
                (SELECT_PDO_PPS1, 6)
            } else if i == 9 {
                (SELECT_PDO_PPS2, 4)
            } else {
                (SELECT_PDO_PPS3, 2)
            };
            (
                raw & SRC_PDO_DETECT != 0,
                PdoInfo {
                    code,
                    protocol: ChargerProtocol::Pps,
                    voltage_mv: PpsMaxVoltage::from_raw((pps_voltage >> shift) & 0x03).max_mv(),
                    current_ma: Self::src_pdo_current_to_ma(raw),
                },
            )
        }
    }

    /// Copy the advertised source PDOs into `out` and return how many were written.
    ///
    /// `fixed` holds the reads of SRC_PDO_5V..SRC_PDO_48V, `pps_voltage` that of
    /// SRC_PPS_VOLTAGE, and `pps` those of SRC_PDO_PPS1..PPS3. The PDOs come in
    /// that order; the caller owns selection policy. If `out` is smaller than the
    /// advertised list, later PDOs are omitted; entries past the count are left
    /// untouched.
    pub fn source_pdos(
        &self,
        fixed: &[u8; 8],
        pps_voltage: u8,
        pps: &[u8; 3],
        out: &mut [PdoInfo],
    ) -> (r: usize)
        ensures
            r as int == capped(
                advertised_pdos(fixed@, pps_voltage, pps@).len() as int,
                old(out)@.len() as int,
            ),
            final(out)@.len() == old(out)@.len(),
            final(out)@.take(r as int) == advertised_pdos(fixed@, pps_voltage, pps@).take(r as int),
            final(out)@.skip(r as int) == old(out)@.skip(r as int),
    {
        let ghost old_out = out@;
        let mut written: usize = 0;
        let mut i: usize = 0;
        while i < 11
            invariant
                i <= 11,
                out@.len() == old_out.len(),
                written as int == capped(
                    advertised(fixed@, pps_voltage, pps@, i as nat).len() as int,
                    old_out.len() as int,
                ),
                forall|k: int|
                    0 <= k < written ==> #[trigger] out@[k] == advertised(
                        fixed@,
                        pps_voltage,
                        pps@,
                        i as nat,
                    )[k],
                forall|k: int| written <= k < out@.len() ==> #[trigger] out@[k] == old_out[k],
            decreases 11 - i,
        {
            let (present, pdo) = Self::pdo_slot(i, fixed, pps_voltage, pps);
            proof {
                let prev = advertised(fixed@, pps_voltage, pps@, i as nat);
                assert(advertised(fixed@, pps_voltage, pps@, (i + 1) as nat) == if present {
                    prev.push(pdo)
                } else {
                    prev
                });
            }
            if present && written < out.len() {
                out[written] = pdo;
                written = written + 1;
            }
            i = i + 1;
        }
        let ghost list = advertised_pdos(fixed@, pps_voltage, pps@);
        assert(out@.take(written as int) =~= list.take(written as int));
        assert(out@.skip(written as int) =~= old_out.skip(written as int));
        written
    }

    /// Start a request for the caller-selected PDO.
    ///
    /// `status` is a read of `REG_STATUS` and `src_pdo` one of `REG_SRC_PDO`. With no
    /// charger attached the request is refused with `NotAttached`; otherwise the
    /// writes put the PDO's select code in SRC_PDO bits 7:3, keep its other bits,
    /// and issue the GO command that selects it.
    pub fn request_pdo<E>(&self, status: u8, src_pdo: u8, pdo: PdoInfo) -> (r: Result<
        Vec<(u8, u8)>,
        Error<E>,
    >)
        ensures
            r is Ok <==> status & STATUS_ATTACH != 0,
            r matches Err(e) ==> e is NotAttached,
            r matches Ok(w) ==> w@ == seq![
                (REG_SRC_PDO, with_selection(src_pdo, pdo.code)),
                (REG_GO_COMMAND, GO_SELECT_PDO),
            ],
    {
        if !self.charger_attached(status) {
            return Err(Error::NotAttached);
        }
        let mut writes: Vec<(u8, u8)> = Vec::new();
        writes.push(
            (REG_SRC_PDO, (src_pdo & !SRC_PDO_SELECT_MASK) | ((pdo.code << 3u8)
                & SRC_PDO_SELECT_MASK)),
        );
        writes.push((REG_GO_COMMAND, GO_SELECT_PDO));
        assert(writes@ =~= seq![
            (REG_SRC_PDO, with_selection(src_pdo, pdo.code)),
            (REG_GO_COMMAND, GO_SELECT_PDO),
        ]);
        Ok(writes)
    }

    /// Poll a PDO request without waiting (suitable for an event loop).
    ///
    /// `status1` is a read of `REG_STATUS1`, `contract0`/`contract1` reads of the
    /// contract registers and `interrupts` a read of `REG_INTERRUPT`. When the
    /// request succeeded (AMS_SUCC) the contract is refreshed and returned; when the
    /// controller reports GO_FAIL the flags are acknowledged and the request fails;
    /// otherwise it is still pending. The writes are the acknowledgement, if any.
    pub fn poll_request<E>(&mut self, status1: u8, contract0: u8, contract1: u8, interrupts: u8) -> (r: (
        Result<RequestStatus, Error<E>>,
        Vec<(u8, u8)>,
    ))
        ensures
            final(self).addr() == old(self).addr(),
            final(self).detected() == old(self).detected(),
            final(self).fault_flag() == old(self).fault_flag(),
            status1 & STATUS1_AMS_SUCC != 0 ==> {
                &&& r.0 == Ok::<RequestStatus, Error<E>>(
                    RequestStatus::Succeeded(contract_of(contract0, contract1)),
                )
                &&& r.1@ == Seq::<(u8, u8)>::empty()
                &&& final(self).contract_info() == contract_of(contract0, contract1)
            },
            status1 & STATUS1_AMS_SUCC == 0 ==> final(self).contract_info() == old(
                self,
            ).contract_info(),
            status1 & STATUS1_AMS_SUCC == 0 && interrupts & INT_I_GO_FAIL != 0 ==> {
                &&& r.0 matches Err(e) && e is GoFailed
                &&& r.1@ == seq![(REG_INTERRUPT, interrupts)]
            },
            status1 & STATUS1_AMS_SUCC == 0 && interrupts & INT_I_GO_FAIL == 0 ==> {
                &&& r.0 == Ok::<RequestStatus, Error<E>>(RequestStatus::Pending)
                &&& r.1@ == Seq::<(u8, u8)>::empty()
            },
    {
        let mut writes: Vec<(u8, u8)> = Vec::new();
        if status1 & STATUS1_AMS_SUCC != 0 {
            let contract = self.update_contract_info(contract0, contract1);
            return (Ok(RequestStatus::Succeeded(contract)), writes);
        }
        if interrupts & INT_I_GO_FAIL != 0 {
            writes.push((REG_INTERRUPT, interrupts));
            assert(writes@ =~= seq![(REG_INTERRUPT, interrupts)]);
            return (Err(Error::GoFailed), writes);
        }
        (Ok(RequestStatus::Pending), writes)
    }

    /// How long a blocking request waits before polling again: 10 ms, or what is
    /// left of the timeout if that is less; `None` once `elapsed_ms` has reached
    /// `timeout_ms`, when the request has timed out.
    pub fn poll_delay_ms(elapsed_ms: u32, timeout_ms: u32) -> (r: Option<u32>)
        ensures
            r is Some <==> elapsed_ms < timeout_ms,
            r matches Some(step) ==> step == capped(timeout_ms - elapsed_ms, 10) && 0 < step
                && elapsed_ms + step <= timeout_ms,
    {
        if elapsed_ms < timeout_ms {
            let left = timeout_ms - elapsed_ms;
            Some(if left < 10 { left } else { 10 })
        } else {
            None
        }
    }

    /// Request current code: 50 mA/LSB, at most 0x7F.
    fn request_current_code(current_ma: u16) -> (r: u8)
        ensures
            r == request_current_code(current_ma),
    {
        let c = current_ma / 50;
        if c > 0x7F {
            0x7F
        } else {
            c as u8
        }
    }

    /// The writes that set the PPS request voltage (3000–23460 mV, 20 mV steps)
    /// and current (0–6350 mA, 50 mA steps); `src_pdo` is a read of `REG_SRC_PDO`,
    /// whose bits 1:0 take the voltage's top two bits. Out-of-range values are
    /// clamped. After this, select a PPS PDO with [`Husb238a::request_pdo`].
    pub fn set_pps_request(&self, voltage_mv: u16, current_ma: u16, src_pdo: u8) -> (r: Vec<
        (u8, u8),
    >)
        ensures
            r@ == pps_request_writes(voltage_mv, current_ma, src_pdo),
    {
        let above: u16 = if voltage_mv >= 3000 { (voltage_mv - 3000) / 20 } else { 0 };
        let volt_raw: u16 = if above > 0x3FF { 0x3FF } else { above };
        let curr_raw = Self::request_current_code(current_ma);
        let mut writes: Vec<(u8, u8)> = Vec::new();
        writes.push((REG_SNK_PPS_VOLTAGE, (volt_raw & 0xFF) as u8));
        writes.push((REG_SNK_PPS_CURRENT, curr_raw));
        writes.push((REG_SRC_PDO, (src_pdo & !0x03u8) | ((volt_raw >> 8u16) & 0x03) as u8));
        assert(writes@ =~= pps_request_writes(voltage_mv, current_ma, src_pdo));
        writes
    }

    /// The writes that set the AVS request voltage (0–25500 mV, 100 mV steps) and
    /// current (0–6350 mA, 50 mA steps), clamped to their fields.
    pub fn set_avs_request(&self, voltage_mv: u16, current_ma: u16) -> (r: Vec<(u8, u8)>)
        ensures
            r@ == avs_request_writes(voltage_mv, current_ma),
    {
        let v = voltage_mv / 100;
        let volt_raw: u8 = if v > 0xFF { 0xFF } else { v as u8 };
        let mut writes: Vec<(u8, u8)> = Vec::new();
        writes.push((REG_SNK_AVS_VOLTAGE, volt_raw));
        writes.push((REG_SNK_AVS_CURRENT, Self::request_current_code(current_ma)));
        assert(writes@ =~= avs_request_writes(voltage_mv, current_ma));
        writes
    }

    /// The writes that set the EPR AVS request voltage (0–51100 mV, 100 mV steps)
    /// and current (0–6350 mA, 50 mA steps), clamped to their fields.
    pub fn set_epr_avs_request(&self, voltage_mv: u16, current_ma: u16) -> (r: Vec<(u8, u8)>)
        ensures
            r@ == epr_avs_request_writes(voltage_mv, current_ma),
    {
        let v = voltage_mv / 100;
        let volt_raw: u16 = if v > 0x1FF { 0x1FF } else { v };
        let curr_raw = Self::request_current_code(current_ma);
        let mut writes: Vec<(u8, u8)> = Vec::new();
        writes.push((REG_EPR_AVS_VOLTAGE, (volt_raw & 0xFF) as u8));
        writes.push((REG_EPR_AVS_CURRENT, ((volt_raw >> 8u16) & 0x01) as u8 | curr_raw));
        assert(writes@ =~= epr_avs_request_writes(voltage_mv, current_ma));
        writes
    }

    /// A mask whose bit `j` tells whether `reads[j]` succeeded and reports an
    /// advertised PDO; a failed read counts as not advertised.
    fn detect_mask(reads: &[Option<u8>]) -> (r: u8)
        requires
            reads@.len() <= 8,
        ensures
            is_detect_mask(r, reads@),
    {
        let mut mask: u8 = 0;
        let mut i: usize = 0;
        assert forall|j: u8| j < 8 implies !#[trigger] bit(mask, j) by {
            lemma_mask_bit(0, 0, j);
        }
        while i < reads.len()
            invariant
                i <= reads@.len() <= 8,
                forall|j: u8|
                    j < 8 ==> #[trigger] bit(mask, j) == (j < i && read_detected(reads@[j as int])),
            decreases reads@.len() - i,
        {
            let hit = match reads[i] {
                Some(v) => v & SRC_PDO_DETECT != 0,
                None => false,
            };
            let ghost before = mask;
            if hit {
                mask = mask | (1u8 << (i as u8));
            }
            assert forall|j: u8| j < 8 implies #[trigger] bit(mask, j) == (j < i + 1
                && read_detected(reads@[j as int])) by {
                lemma_mask_bit(before, i as u8, j);
                assert(bit(before, j) == (j < i && read_detected(reads@[j as int])));
                assert(hit == read_detected(reads@[i as int]));
            }
            i = i + 1;
        }
        mask
    }

    /// Bitmask of the fixed PDOs the source advertises, from reads of
    /// SRC_PDO_5V..SRC_PDO_48V: bit 0 = 5V, bit 1 = 9V, ..., bit 7 = 48V. A failed
    /// read leaves its bit clear.
    pub fn scan_fpdo_mask(&self, reads: [Option<u8>; 8]) -> (r: u8)
        ensures
            is_detect_mask(r, reads@),
    {
        Self::detect_mask(&reads)
    }

    /// Bitmask of the PPS PDOs the source advertises, from reads of
    /// SRC_PDO_PPS1..PPS3: bit 0 = PPS1, bit 1 = PPS2, bit 2 = PPS3. A failed read
    /// leaves its bit clear.
    pub fn scan_pps_mask(&self, reads: [Option<u8>; 3]) -> (r: u8)
        ensures
            is_detect_mask(r, reads@),
    {
        Self::detect_mask(&reads)
    }

    /// Whether an AVS and an EPR AVS PDO are available, from reads of SRC_PDO_AVS
    /// and SRC_EPR_AVS (bit 7 of each); a failed read counts as unavailable.
    pub fn scan_avs_available(&self, avs: Option<u8>, epr_avs: Option<u8>) -> (r: (bool, bool))
        ensures
            r == (read_detected(avs), read_detected(epr_avs)),
    {
        let a = match avs {
            Some(v) => v & SRC_PDO_DETECT != 0,
            None => false,
        };
        let e = match epr_avs {
            Some(v) => v & (1u8 << 7u8) != 0,
            None => false,
        };
        (a, e)
    }

    /// Whether the controller is in Attached.SNK, from a read of `REG_TYPE`.
    pub fn is_sink_attached(&self, type_reg: u8) -> (r: bool)
        ensures
            r == (type_reg & TYPE_SINK != 0),
    {
        (type_reg & TYPE_SINK) != 0
    }

    /// Sink and source state-machine states (six bits each), from reads of
    /// `REG_SINK_STATE` and `REG_SOURCE_STATE`.
    pub fn read_fsm_state(&self, sink: u8, source: u8) -> (r: (u8, u8))
        ensures
            r == (sink & 0x3F, source & 0x3F),
    {
        (sink & 0x3F, source & 0x3F)
    }
}

} // verus!
