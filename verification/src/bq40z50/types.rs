//! BQ40Z50 data types and status flag wrappers.
use vstd::prelude::*;
use super::flags::{
    CHG_STATUS_HT, CHG_STATUS_HV, CHG_STATUS_IN, CHG_STATUS_LT, CHG_STATUS_LV, CHG_STATUS_MCHG, CHG_STATUS_MV, CHG_STATUS_OT, CHG_STATUS_PV, CHG_STATUS_RT, CHG_STATUS_UT, CHG_STATUS_VCT, GAUGE_BAL_EN, GAUGE_CF, GAUGE_DSG, GAUGE_EDV, GAUGE_FC, GAUGE_FD, GAUGE_LDMD, GAUGE_QEN, GAUGE_REST, GAUGE_R_DIS, GAUGE_TC, GAUGE_TD, GAUGE_VDQ, GAUGE_VOK, OP_STATUS_CB, OP_STATUS_CHG, OP_STATUS_DSG, OP_STATUS_EMSHUT, OP_STATUS_FUSE, OP_STATUS_INIT, OP_STATUS_PCHG, OP_STATUS_PF, OP_STATUS_PRES, OP_STATUS_SLEEP, OP_STATUS_SS, OP_STATUS_XCHG, OP_STATUS_XDSG, SAFETY_AOLD, SAFETY_ASCC, SAFETY_ASCD, SAFETY_CHGC, SAFETY_CHGV, SAFETY_COV, SAFETY_CTO, SAFETY_CUV, SAFETY_CUVC, SAFETY_OC, SAFETY_OCC1, SAFETY_OCC2, SAFETY_OCD1, SAFETY_OCD2, SAFETY_OTC, SAFETY_OTD, SAFETY_OTF, SAFETY_PCHGC, SAFETY_PTO, SAFETY_UTC, SAFETY_UTD,
};

verus! {

/// Driver error
#[derive(Debug, PartialEq, Eq)]
pub enum Error<I2cError> {
    /// I²C communication error.
    I2c(I2cError),
    /// The SMBus count byte exceeds the protocol or caller-buffer capacity.
    InvalidBlockLength { reported: u8, capacity: u8 },
    /// A fixed-size typed response did not contain the required number of bytes.
    UnexpectedBlockLength { expected: u8, reported: u8 },
}

/// Detailed temperature readings from DAStatus2 sub-command (0x0072), each in whole
/// degrees Celsius: the gauge's 0.1 K value as (raw - 2732) / 10.
#[derive(Debug, Clone, Copy, Default, PartialEq, Eq, Structural)]
pub struct TempDetail {
    /// Internal temperature (°C)
    pub int_temp: i16,
    /// TS1 temperature (°C)
    pub ts1_temp: i16,
    /// TS2 temperature (°C)
    pub ts2_temp: i16,
    /// TS3 temperature (°C)
    pub ts3_temp: i16,
    /// TS4 temperature (°C)
    pub ts4_temp: i16,
    /// Cell temperature (°C)
    pub cell_temp: i16,
    /// FET temperature (°C)
    pub fet_temp: i16,
}

/// Safety alert/status flags (32-bit), from MAC sub-commands 0x0050 (SafetyAlert) / 0x0051 (SafetyStatus).
#[derive(Debug, Clone, Copy, Default, PartialEq, Eq, Structural)]
pub struct SafetyFlags(pub u32);

impl SafetyFlags {
    /// Whether the `SAFETY_UTD` bit is set.
    pub fn utd(self) -> (r: bool)
        ensures
            r == (self.0 & SAFETY_UTD != 0),
    {
        self.0 & SAFETY_UTD != 0
    }

    /// Whether the `SAFETY_UTC` bit is set.
    pub fn utc(self) -> (r: bool)
        ensures
            r == (self.0 & SAFETY_UTC != 0),
    {
        self.0 & SAFETY_UTC != 0
    }

    /// Whether the `SAFETY_PCHGC` bit is set.
    pub fn pchgc(self) -> (r: bool)
        ensures
            r == (self.0 & SAFETY_PCHGC != 0),
    {
        self.0 & SAFETY_PCHGC != 0
    }

    /// Whether the `SAFETY_CHGV` bit is set.
    pub fn chgv(self) -> (r: bool)
        ensures
            r == (self.0 & SAFETY_CHGV != 0),
    {
        self.0 & SAFETY_CHGV != 0
    }

    /// Whether the `SAFETY_CHGC` bit is set.
    pub fn chgc(self) -> (r: bool)
        ensures
            r == (self.0 & SAFETY_CHGC != 0),
    {
        self.0 & SAFETY_CHGC != 0
    }

    /// Whether the `SAFETY_OC` bit is set.
    pub fn oc(self) -> (r: bool)
        ensures
            r == (self.0 & SAFETY_OC != 0),
    {
        self.0 & SAFETY_OC != 0
    }

    /// Whether the `SAFETY_CTO` bit is set.
    pub fn cto(self) -> (r: bool)
        ensures
            r == (self.0 & SAFETY_CTO != 0),
    {
        self.0 & SAFETY_CTO != 0
    }

    /// Whether the `SAFETY_PTO` bit is set.
    pub fn pto(self) -> (r: bool)
        ensures
            r == (self.0 & SAFETY_PTO != 0),
    {
        self.0 & SAFETY_PTO != 0
    }

    /// Whether the `SAFETY_OTF` bit is set.
    pub fn otf(self) -> (r: bool)
        ensures
            r == (self.0 & SAFETY_OTF != 0),
    {
        self.0 & SAFETY_OTF != 0
    }

    /// Whether the `SAFETY_CUVC` bit is set.
    pub fn cuvc(self) -> (r: bool)
        ensures
            r == (self.0 & SAFETY_CUVC != 0),
    {
        self.0 & SAFETY_CUVC != 0
    }

    /// Whether the `SAFETY_OTD` bit is set.
    pub fn otd(self) -> (r: bool)
        ensures
            r == (self.0 & SAFETY_OTD != 0),
    {
        self.0 & SAFETY_OTD != 0
    }

    /// Whether the `SAFETY_OTC` bit is set.
    pub fn otc(self) -> (r: bool)
        ensures
            r == (self.0 & SAFETY_OTC != 0),
    {
        self.0 & SAFETY_OTC != 0
    }

    /// Whether the `SAFETY_ASCD` bit is set.
    pub fn ascd(self) -> (r: bool)
        ensures
            r == (self.0 & SAFETY_ASCD != 0),
    {
        self.0 & SAFETY_ASCD != 0
    }

    /// Whether the `SAFETY_ASCC` bit is set.
    pub fn ascc(self) -> (r: bool)
        ensures
            r == (self.0 & SAFETY_ASCC != 0),
    {
        self.0 & SAFETY_ASCC != 0
    }

    /// Whether the `SAFETY_AOLD` bit is set.
    pub fn aold(self) -> (r: bool)
        ensures
            r == (self.0 & SAFETY_AOLD != 0),
    {
        self.0 & SAFETY_AOLD != 0
    }

    /// Whether the `SAFETY_OCD2` bit is set.
    pub fn ocd2(self) -> (r: bool)
        ensures
            r == (self.0 & SAFETY_OCD2 != 0),
    {
        self.0 & SAFETY_OCD2 != 0
    }

    /// Whether the `SAFETY_OCD1` bit is set.
    pub fn ocd1(self) -> (r: bool)
        ensures
            r == (self.0 & SAFETY_OCD1 != 0),
    {
        self.0 & SAFETY_OCD1 != 0
    }

    /// Whether the `SAFETY_OCC2` bit is set.
    pub fn occ2(self) -> (r: bool)
        ensures
            r == (self.0 & SAFETY_OCC2 != 0),
    {
        self.0 & SAFETY_OCC2 != 0
    }

    /// Whether the `SAFETY_OCC1` bit is set.
    pub fn occ1(self) -> (r: bool)
        ensures
            r == (self.0 & SAFETY_OCC1 != 0),
    {
        self.0 & SAFETY_OCC1 != 0
    }

    /// Whether the `SAFETY_COV` bit is set.
    pub fn cov(self) -> (r: bool)
        ensures
            r == (self.0 & SAFETY_COV != 0),
    {
        self.0 & SAFETY_COV != 0
    }

    /// Whether the `SAFETY_CUV` bit is set.
    pub fn cuv(self) -> (r: bool)
        ensures
            r == (self.0 & SAFETY_CUV != 0),
    {
        self.0 & SAFETY_CUV != 0
    }

    /// Check if any safety flag is set
    pub fn has_any(self) -> (r: bool)
        ensures
            r == (self.0 != 0),
    {
        self.0 != 0
    }

}

/// Operation status flags (32-bit), from MAC sub-command 0x0054 (OperationStatus).
#[derive(Debug, Clone, Copy, Default, PartialEq, Eq, Structural)]
pub struct OperationStatus(pub u32);

impl OperationStatus {
    /// Whether the `OP_STATUS_EMSHUT` bit is set.
    pub fn emergency_shutdown(self) -> (r: bool)
        ensures
            r == (self.0 & OP_STATUS_EMSHUT != 0),
    {
        self.0 & OP_STATUS_EMSHUT != 0
    }

    /// Whether the `OP_STATUS_CB` bit is set.
    pub fn cell_balancing(self) -> (r: bool)
        ensures
            r == (self.0 & OP_STATUS_CB != 0),
    {
        self.0 & OP_STATUS_CB != 0
    }

    /// Whether the `OP_STATUS_INIT` bit is set.
    pub fn initializing(self) -> (r: bool)
        ensures
            r == (self.0 & OP_STATUS_INIT != 0),
    {
        self.0 & OP_STATUS_INIT != 0
    }

    /// Whether the `OP_STATUS_SLEEP` bit is set.
    pub fn sleep_mode(self) -> (r: bool)
        ensures
            r == (self.0 & OP_STATUS_SLEEP != 0),
    {
        self.0 & OP_STATUS_SLEEP != 0
    }

    /// Whether the `OP_STATUS_XCHG` bit is set.
    pub fn charging_disabled(self) -> (r: bool)
        ensures
            r == (self.0 & OP_STATUS_XCHG != 0),
    {
        self.0 & OP_STATUS_XCHG != 0
    }

    /// Whether the `OP_STATUS_XDSG` bit is set.
    pub fn discharging_disabled(self) -> (r: bool)
        ensures
            r == (self.0 & OP_STATUS_XDSG != 0),
    {
        self.0 & OP_STATUS_XDSG != 0
    }

    /// Whether the `OP_STATUS_PF` bit is set.
    pub fn permanent_failure(self) -> (r: bool)
        ensures
            r == (self.0 & OP_STATUS_PF != 0),
    {
        self.0 & OP_STATUS_PF != 0
    }

    /// Whether the `OP_STATUS_SS` bit is set.
    pub fn safety_mode(self) -> (r: bool)
        ensures
            r == (self.0 & OP_STATUS_SS != 0),
    {
        self.0 & OP_STATUS_SS != 0
    }

    /// Whether the `OP_STATUS_FUSE` bit is set.
    pub fn fuse_active(self) -> (r: bool)
        ensures
            r == (self.0 & OP_STATUS_FUSE != 0),
    {
        self.0 & OP_STATUS_FUSE != 0
    }

    /// Whether the `OP_STATUS_PCHG` bit is set.
    pub fn precharge_fet(self) -> (r: bool)
        ensures
            r == (self.0 & OP_STATUS_PCHG != 0),
    {
        self.0 & OP_STATUS_PCHG != 0
    }

    /// Whether the `OP_STATUS_CHG` bit is set.
    pub fn charge_fet(self) -> (r: bool)
        ensures
            r == (self.0 & OP_STATUS_CHG != 0),
    {
        self.0 & OP_STATUS_CHG != 0
    }

    /// Whether the `OP_STATUS_DSG` bit is set.
    pub fn discharge_fet(self) -> (r: bool)
        ensures
            r == (self.0 & OP_STATUS_DSG != 0),
    {
        self.0 & OP_STATUS_DSG != 0
    }

    /// Whether the `OP_STATUS_PRES` bit is set.
    pub fn system_present(self) -> (r: bool)
        ensures
            r == (self.0 & OP_STATUS_PRES != 0),
    {
        self.0 & OP_STATUS_PRES != 0
    }

    /// Extract security mode from SEC1:SEC0 (Bits 9:8)
    pub fn security_mode(self) -> (r: SecurityMode)
        ensures
            r == security_mode_of(((self.0 >> 8u32) & 3u32) as int),
    {
        let sec = (self.0 >> 8) & 0x03;
        if sec == 1 {
            SecurityMode::FullAccess
        } else if sec == 2 {
            SecurityMode::Unsealed
        } else if sec == 3 {
            SecurityMode::Sealed
        } else {
            SecurityMode::Reserved
        }
    }

}

/// Charging status flags (32-bit), from MAC sub-command 0x0055 (ChargingStatus).
#[derive(Debug, Clone, Copy, Default, PartialEq, Eq, Structural)]
pub struct ChargingStatus(pub u32);

impl ChargingStatus {
    /// Whether the `CHG_STATUS_VCT` bit is set.
    pub fn charge_terminated(self) -> (r: bool)
        ensures
            r == (self.0 & CHG_STATUS_VCT != 0),
    {
        self.0 & CHG_STATUS_VCT != 0
    }

    /// Whether the `CHG_STATUS_MCHG` bit is set.
    pub fn maintenance_charge(self) -> (r: bool)
        ensures
            r == (self.0 & CHG_STATUS_MCHG != 0),
    {
        self.0 & CHG_STATUS_MCHG != 0
    }

    /// Whether the `CHG_STATUS_IN` bit is set.
    pub fn charge_inhibit(self) -> (r: bool)
        ensures
            r == (self.0 & CHG_STATUS_IN != 0),
    {
        self.0 & CHG_STATUS_IN != 0
    }

    /// Whether the `CHG_STATUS_HV` bit is set.
    pub fn high_voltage_region(self) -> (r: bool)
        ensures
            r == (self.0 & CHG_STATUS_HV != 0),
    {
        self.0 & CHG_STATUS_HV != 0
    }

    /// Whether the `CHG_STATUS_MV` bit is set.
    pub fn mid_voltage_region(self) -> (r: bool)
        ensures
            r == (self.0 & CHG_STATUS_MV != 0),
    {
        self.0 & CHG_STATUS_MV != 0
    }

    /// Whether the `CHG_STATUS_LV` bit is set.
    pub fn low_voltage_region(self) -> (r: bool)
        ensures
            r == (self.0 & CHG_STATUS_LV != 0),
    {
        self.0 & CHG_STATUS_LV != 0
    }

    /// Whether the `CHG_STATUS_PV` bit is set.
    pub fn precharge_region(self) -> (r: bool)
        ensures
            r == (self.0 & CHG_STATUS_PV != 0),
    {
        self.0 & CHG_STATUS_PV != 0
    }

    /// Whether the `CHG_STATUS_OT` bit is set.
    pub fn overtemp_region(self) -> (r: bool)
        ensures
            r == (self.0 & CHG_STATUS_OT != 0),
    {
        self.0 & CHG_STATUS_OT != 0
    }

    /// Whether the `CHG_STATUS_HT` bit is set.
    pub fn high_temp_region(self) -> (r: bool)
        ensures
            r == (self.0 & CHG_STATUS_HT != 0),
    {
        self.0 & CHG_STATUS_HT != 0
    }

    /// Whether the `CHG_STATUS_RT` bit is set.
    pub fn recommended_temp_region(self) -> (r: bool)
        ensures
            r == (self.0 & CHG_STATUS_RT != 0),
    {
        self.0 & CHG_STATUS_RT != 0
    }

    /// Whether the `CHG_STATUS_LT` bit is set.
    pub fn low_temp_region(self) -> (r: bool)
        ensures
            r == (self.0 & CHG_STATUS_LT != 0),
    {
        self.0 & CHG_STATUS_LT != 0
    }

    /// Whether the `CHG_STATUS_UT` bit is set.
    pub fn under_temp_region(self) -> (r: bool)
        ensures
            r == (self.0 & CHG_STATUS_UT != 0),
    {
        self.0 & CHG_STATUS_UT != 0
    }

}

/// Gauging status flags (32-bit), from MAC sub-command 0x0056 (GaugingStatus).
#[derive(Debug, Clone, Copy, Default, PartialEq, Eq, Structural)]
pub struct GaugingStatus(pub u32);

impl GaugingStatus {
    /// Whether the `GAUGE_QEN` bit is set.
    pub fn it_enabled(self) -> (r: bool)
        ensures
            r == (self.0 & GAUGE_QEN != 0),
    {
        self.0 & GAUGE_QEN != 0
    }

    /// Whether the `GAUGE_VOK` bit is set.
    pub fn vok(self) -> (r: bool)
        ensures
            r == (self.0 & GAUGE_VOK != 0),
    {
        self.0 & GAUGE_VOK != 0
    }

    /// Whether the `GAUGE_R_DIS` bit is set.
    pub fn resistance_updates_disabled(self) -> (r: bool)
        ensures
            r == (self.0 & GAUGE_R_DIS != 0),
    {
        self.0 & GAUGE_R_DIS != 0
    }

    /// Whether the `GAUGE_REST` bit is set.
    pub fn ocv_reading_taken(self) -> (r: bool)
        ensures
            r == (self.0 & GAUGE_REST != 0),
    {
        self.0 & GAUGE_REST != 0
    }

    /// Whether the `GAUGE_CF` bit is set.
    pub fn condition_flag(self) -> (r: bool)
        ensures
            r == (self.0 & GAUGE_CF != 0),
    {
        self.0 & GAUGE_CF != 0
    }

    /// Whether the `GAUGE_DSG` bit is set.
    pub fn discharging(self) -> (r: bool)
        ensures
            r == (self.0 & GAUGE_DSG != 0),
    {
        self.0 & GAUGE_DSG != 0
    }

    /// Whether the `GAUGE_EDV` bit is set.
    pub fn edv_reached(self) -> (r: bool)
        ensures
            r == (self.0 & GAUGE_EDV != 0),
    {
        self.0 & GAUGE_EDV != 0
    }

    /// Whether the `GAUGE_BAL_EN` bit is set.
    pub fn cell_balancing_possible(self) -> (r: bool)
        ensures
            r == (self.0 & GAUGE_BAL_EN != 0),
    {
        self.0 & GAUGE_BAL_EN != 0
    }

    /// Whether the `GAUGE_TC` bit is set.
    pub fn terminate_charge(self) -> (r: bool)
        ensures
            r == (self.0 & GAUGE_TC != 0),
    {
        self.0 & GAUGE_TC != 0
    }

    /// Whether the `GAUGE_TD` bit is set.
    pub fn terminate_discharge(self) -> (r: bool)
        ensures
            r == (self.0 & GAUGE_TD != 0),
    {
        self.0 & GAUGE_TD != 0
    }

    /// Whether the `GAUGE_FC` bit is set.
    pub fn fully_charged(self) -> (r: bool)
        ensures
            r == (self.0 & GAUGE_FC != 0),
    {
        self.0 & GAUGE_FC != 0
    }

    /// Whether the `GAUGE_FD` bit is set.
    pub fn fully_discharged(self) -> (r: bool)
        ensures
            r == (self.0 & GAUGE_FD != 0),
    {
        self.0 & GAUGE_FD != 0
    }

    /// Whether the `GAUGE_VDQ` bit is set.
    pub fn discharge_qualified(self) -> (r: bool)
        ensures
            r == (self.0 & GAUGE_VDQ != 0),
    {
        self.0 & GAUGE_VDQ != 0
    }

    /// Whether the `GAUGE_LDMD` bit is set.
    pub fn constant_power_load(self) -> (r: bool)
        ensures
            r == (self.0 & GAUGE_LDMD != 0),
    {
        self.0 & GAUGE_LDMD != 0
    }

}

/// Security mode extracted from OperationStatus SEC1:SEC0 bits.
#[derive(Debug, Clone, Copy, PartialEq, Eq, Structural)]
pub enum SecurityMode {
    /// Reserved
    Reserved,
    /// Full Access — full configuration access
    FullAccess,
    /// Unsealed — most commands available
    Unsealed,
    /// Sealed — standard SBS commands only
    Sealed,
}

/// The security mode that the two SEC bits select.
pub open spec fn security_mode_of(sec: int) -> SecurityMode {
    if sec == 1 {
        SecurityMode::FullAccess
    } else if sec == 2 {
        SecurityMode::Unsealed
    } else if sec == 3 {
        SecurityMode::Sealed
    } else {
        SecurityMode::Reserved
    }
}

/// State of Health data from MAC 0x0077.
#[derive(Debug, Clone, Copy, Default, PartialEq, Eq, Structural)]
pub struct StateOfHealth {
    /// SOH Full Charge Capacity (mAh)
    pub fcc_mah: u16,
    /// SOH energy (cWh)
    pub energy_cwh: u16,
}

} // verus!
