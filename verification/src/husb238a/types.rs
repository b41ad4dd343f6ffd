//! Data types for the HUSB238A driver.
use vstd::prelude::*;
use super::registers::{
    INT1_I_ATTACH, INT1_I_DETACH, INT1_I_FAULT, INT1_I_VBUS_OV, INT2_I_TSD, INT2_I_VBUS_UV,
    PD_CONTRACT_12V, PD_CONTRACT_15V, PD_CONTRACT_20V, PD_CONTRACT_28V, PD_CONTRACT_36V,
    PD_CONTRACT_48V, PD_CONTRACT_5V, PD_CONTRACT_9V, PD_CONTRACT_AVS, PD_CONTRACT_EPR_AVS,
    PD_CONTRACT_PPS1, PD_CONTRACT_PPS2, PD_CONTRACT_PPS3, PD_CONTRACT_TYPEC_5V,
};

verus! {

/// Charger protocol type
///
/// Covers all protocols supported by the HUSB238A:
/// - PD contracts (fixed PDO: 5V–48V, PPS, AVS, EPR AVS)
/// - Legacy DPM contracts (BC1.2, Divider-3, QC2, HVDCP)
#[derive(Debug, Clone, Copy, PartialEq, Eq, Structural)]
pub enum ChargerProtocol {
    /// No contract established
    Unknown,
    /// 5V Type-C contract (no PD negotiation)
    TypeC5v,
    /// 5V PD contract (PDO1)
    Pd5v,
    /// 9V PD contract (PDO2)
    Pd9v,
    /// 12V PD contract (PDO3)
    Pd12v,
    /// 15V PD contract (PDO4)
    Pd15v,
    /// 20V PD contract (PDO5)
    Pd20v,
    /// 28V PD contract (EPR PDO1)
    Pd28v,
    /// 36V PD contract (EPR PDO2)
    Pd36v,
    /// 48V PD contract (EPR PDO3)
    Pd48v,
    /// Programmable Power Supply contract (PPS1/PPS2/PPS3)
    Pps,
    /// Adjustable Voltage Supply contract
    Avs,
    /// EPR Adjustable Voltage Supply contract
    EprAvs,
    /// 5V Default Contract (BC1.2 DCP/SDP/CDP or unconfigured)
    Default5v,
    /// 5V Divider-3 Contract
    Divider3,
    /// 5V SDP (Standard Downstream Port)
    Sdp,
    /// 5V CDP (Charging Downstream Port)
    Cdp,
    /// 5V DCP (Dedicated Charging Port)
    Dcp,
    /// 5V HVDCP (High Voltage Dedicated Charging Port)
    Hvdcp,
    /// QC2 9V Contract
    Qc2_9v,
    /// QC2 12V Contract
    Qc2_12v,
}

/// The protocol of a PD_CONTRACT code (CONTRACT_STATUS0[7:4]).
pub open spec fn pd_protocol(code: u8) -> ChargerProtocol {
    if code == PD_CONTRACT_TYPEC_5V {
        ChargerProtocol::TypeC5v
    } else if code == PD_CONTRACT_5V {
        ChargerProtocol::Pd5v
    } else if code == PD_CONTRACT_9V {
        ChargerProtocol::Pd9v
    } else if code == PD_CONTRACT_12V {
        ChargerProtocol::Pd12v
    } else if code == PD_CONTRACT_15V {
        ChargerProtocol::Pd15v
    } else if code == PD_CONTRACT_20V {
        ChargerProtocol::Pd20v
    } else if code == PD_CONTRACT_PPS1 || code == PD_CONTRACT_PPS2 || code == PD_CONTRACT_PPS3 {
        ChargerProtocol::Pps
    } else if code == PD_CONTRACT_AVS {
        ChargerProtocol::Avs
    } else if code == PD_CONTRACT_28V {
        ChargerProtocol::Pd28v
    } else if code == PD_CONTRACT_36V {
        ChargerProtocol::Pd36v
    } else if code == PD_CONTRACT_48V {
        ChargerProtocol::Pd48v
    } else if code == PD_CONTRACT_EPR_AVS {
        ChargerProtocol::EprAvs
    } else {
        ChargerProtocol::Unknown
    }
}

/// The protocol of a DPM_CONTRACT code (CONTRACT_STATUS0[3:0]).
pub open spec fn dpm_protocol(code: u8) -> ChargerProtocol {
    if code == 0 {
        ChargerProtocol::Default5v
    } else if code == 1 {
        ChargerProtocol::Divider3
    } else if code == 2 {
        ChargerProtocol::Sdp
    } else if code == 3 {
        ChargerProtocol::Cdp
    } else if code == 4 {
        ChargerProtocol::Dcp
    } else if code == 5 {
        ChargerProtocol::Hvdcp
    } else if code == 6 {
        ChargerProtocol::Qc2_9v
    } else if code == 7 {
        ChargerProtocol::Qc2_12v
    } else {
        ChargerProtocol::Unknown
    }
}

/// The voltage (mV) of a PD_CONTRACT code; 0 for PPS/AVS/EPR AVS and unknown codes.
pub open spec fn pd_voltage(code: u8) -> u16 {
    if code == PD_CONTRACT_TYPEC_5V || code == PD_CONTRACT_5V {
        5000
    } else if code == PD_CONTRACT_9V {
        9000
    } else if code == PD_CONTRACT_12V {
        12000
    } else if code == PD_CONTRACT_15V {
        15000
    } else if code == PD_CONTRACT_20V {
        20000
    } else if code == PD_CONTRACT_28V {
        28000
    } else if code == PD_CONTRACT_36V {
        36000
    } else if code == PD_CONTRACT_48V {
        48000
    } else {
        0
    }
}

impl ChargerProtocol {
    /// Map PD_CONTRACT code (CONTRACT_STATUS0[7:4]) to ChargerProtocol.
    pub fn from_pd_contract(code: u8) -> (r: Self)
        ensures
            r == pd_protocol(code),
    {
        if code == PD_CONTRACT_TYPEC_5V {
            Self::TypeC5v
        } else if code == PD_CONTRACT_5V {
            Self::Pd5v
        } else if code == PD_CONTRACT_9V {
            Self::Pd9v
        } else if code == PD_CONTRACT_12V {
            Self::Pd12v
        } else if code == PD_CONTRACT_15V {
            Self::Pd15v
        } else if code == PD_CONTRACT_20V {
            Self::Pd20v
        } else if code == PD_CONTRACT_PPS1 || code == PD_CONTRACT_PPS2 || code
            == PD_CONTRACT_PPS3 {
            Self::Pps
        } else if code == PD_CONTRACT_AVS {
            Self::Avs
        } else if code == PD_CONTRACT_28V {
            Self::Pd28v
        } else if code == PD_CONTRACT_36V {
            Self::Pd36v
        } else if code == PD_CONTRACT_48V {
            Self::Pd48v
        } else if code == PD_CONTRACT_EPR_AVS {
            Self::EprAvs
        } else {
            Self::Unknown
        }
    }

    /// Map DPM_CONTRACT code (CONTRACT_STATUS0[3:0]) to ChargerProtocol.
    pub fn from_dpm_contract(code: u8) -> (r: Self)
        ensures
            r == dpm_protocol(code),
    {
        if code == 0 {
            Self::Default5v
        } else if code == 1 {
            Self::Divider3
        } else if code == 2 {
            Self::Sdp
        } else if code == 3 {
            Self::Cdp
        } else if code == 4 {
            Self::Dcp
        } else if code == 5 {
            Self::Hvdcp
        } else if code == 6 {
            Self::Qc2_9v
        } else if code == 7 {
            Self::Qc2_12v
        } else {
            Self::Unknown
        }
    }

    /// Convert PD contract code to voltage in mV.
    /// Returns 0 for PPS/AVS/EPR_AVS (voltage is negotiated separately).
    pub fn pd_voltage_mv(code: u8) -> (r: u16)
        ensures
            r == pd_voltage(code),
    {
        if code == PD_CONTRACT_TYPEC_5V || code == PD_CONTRACT_5V {
            5000
        } else if code == PD_CONTRACT_9V {
            9000
        } else if code == PD_CONTRACT_12V {
            12000
        } else if code == PD_CONTRACT_15V {
            15000
        } else if code == PD_CONTRACT_20V {
            20000
        } else if code == PD_CONTRACT_28V {
            28000
        } else if code == PD_CONTRACT_36V {
            36000
        } else if code == PD_CONTRACT_48V {
            48000
        } else {
            0
        }
    }
}

/// PDO information
#[derive(Debug, Clone, Copy, PartialEq, Eq, Structural)]
pub struct PdoInfo {
    pub code: u8,
    pub protocol: ChargerProtocol,
    pub voltage_mv: u16,
    pub current_ma: u16,
}

/// Contract information from the charger. Every current the controller reports is
/// a whole number of milliamps.
#[derive(Debug, Clone, Copy, PartialEq, Eq, Structural)]
pub struct ContractInfo {
    pub protocol: ChargerProtocol,
    pub voltage_mv: u16,
    pub current_ma: u32,
}

/// State of an explicit PDO request.
#[derive(Debug, Clone, Copy, PartialEq, Eq, Structural)]
pub enum RequestStatus {
    /// Negotiation is still in progress.
    Pending,
    /// Negotiation completed and this is the active contract.
    Succeeded(ContractInfo),
}

/// Interrupt status from the three interrupt registers
#[derive(Debug, Clone, Copy, PartialEq, Eq, Structural)]
pub struct InterruptStatus {
    pub int: u8,
    pub int1: u8,
    pub int2: u8,
}

impl InterruptStatus {
    /// Whether the flags report a Type-C source attachment or detachment.
    pub open spec fn has_attach_change_spec(&self) -> bool {
        self.int1 & (INT1_I_ATTACH | INT1_I_DETACH) != 0
    }

    /// Whether the flags report a PD sink fault (FAULT, VBUS_OV, VBUS_UV or TSD).
    pub open spec fn has_fault_spec(&self) -> bool {
        self.int1 & (INT1_I_FAULT | INT1_I_VBUS_OV) != 0 || self.int2 & (INT2_I_VBUS_UV
            | INT2_I_TSD) != 0
    }

    /// Returns true when the controller reported Type-C source attachment or detachment.
    pub fn has_attach_change(&self) -> (r: bool)
        ensures
            r == self.has_attach_change_spec(),
    {
        self.int1 & (INT1_I_ATTACH | INT1_I_DETACH) != 0
    }

    /// Returns true when the controller reported a PD sink fault condition.
    pub fn has_fault(&self) -> (r: bool)
        ensures
            r == self.has_fault_spec(),
    {
        self.int1 & (INT1_I_FAULT | INT1_I_VBUS_OV) != 0 || self.int2 & (INT2_I_VBUS_UV
            | INT2_I_TSD) != 0
    }
}

/// PPS max voltage codes (SRC_PPS_VOLTAGE register bits [7:6], [5:4], [3:2])
#[derive(Debug, Clone, Copy, PartialEq, Eq, Structural)]
pub enum PpsMaxVoltage {
    /// 0V–7V
    V5_9,
    /// 7.02V–12V
    V11,
    /// 12.02V–17V
    V16,
    /// >17.02V
    V21,
}

impl PpsMaxVoltage {
    /// Upper voltage bound in millivolts for this PPS range code.
    pub fn max_mv(self) -> (r: u16)
        ensures
            r == match self {
                PpsMaxVoltage::V5_9 => 5900u16,
                PpsMaxVoltage::V11 => 11000,
                PpsMaxVoltage::V16 => 16000,
                PpsMaxVoltage::V21 => 21000,
            },
    {
        match self {
            Self::V5_9 => 5900,
            Self::V11 => 11000,
            Self::V16 => 16000,
            Self::V21 => 21000,
        }
    }

    /// Decode from 2-bit raw register value
    pub fn from_raw(raw: u8) -> (r: Self)
        ensures
            r == (if raw % 4 == 0 {
                PpsMaxVoltage::V5_9
            } else if raw % 4 == 1 {
                PpsMaxVoltage::V11
            } else if raw % 4 == 2 {
                PpsMaxVoltage::V16
            } else {
                PpsMaxVoltage::V21
            }),
    {
        let code = raw % 4;
        if code == 0 {
            Self::V5_9
        } else if code == 1 {
            Self::V11
        } else if code == 2 {
            Self::V16
        } else {
            Self::V21
        }
    }
}

/// A PD contract's voltage is its protocol's nominal voltage: 5 V for the Type-C
/// and 5 V PD contracts, 9, 12, 15, 20, 28, 36 and 48 V for the fixed PDOs; the
/// programmable contracts (PPS, AVS, EPR AVS) and unknown codes carry no fixed
/// voltage (0).
pub proof fn lemma_pd_voltage_is_nominal(code: u8)
    ensures
        pd_protocol(code) == ChargerProtocol::TypeC5v ==> pd_voltage(code) == 5000,
        pd_protocol(code) == ChargerProtocol::Pd5v ==> pd_voltage(code) == 5000,
        pd_protocol(code) == ChargerProtocol::Pd9v ==> pd_voltage(code) == 9000,
        pd_protocol(code) == ChargerProtocol::Pd12v ==> pd_voltage(code) == 12000,
        pd_protocol(code) == ChargerProtocol::Pd15v ==> pd_voltage(code) == 15000,
        pd_protocol(code) == ChargerProtocol::Pd20v ==> pd_voltage(code) == 20000,
        pd_protocol(code) == ChargerProtocol::Pd28v ==> pd_voltage(code) == 28000,
        pd_protocol(code) == ChargerProtocol::Pd36v ==> pd_voltage(code) == 36000,
        pd_protocol(code) == ChargerProtocol::Pd48v ==> pd_voltage(code) == 48000,
        pd_protocol(code) == ChargerProtocol::Pps || pd_protocol(code) == ChargerProtocol::Avs
            || pd_protocol(code) == ChargerProtocol::EprAvs || pd_protocol(code)
            == ChargerProtocol::Unknown ==> pd_voltage(code) == 0,
{
}

} // verus!
