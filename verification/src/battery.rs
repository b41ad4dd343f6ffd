//! The battery report assembled from the BQ40Z50 gauge's reads.
use vstd::prelude::*;
use crate::bq40z50::flags::{STATUS_OVER_CHARGE_ALARM, STATUS_OVER_TEMP_ALARM};

verus! {

/// Whether the pack is charging.
#[derive(Debug, Clone, Copy, PartialEq, Eq, Structural)]
pub enum BatteryChargeStatus {
    Discharging,
    Full,
    Charging,
    NotCharging,
}

/// Pack health as the gauge's alarms tell it.
#[derive(Debug, Clone, Copy, PartialEq, Eq, Structural)]
pub enum BatteryHealth {
    Overheat,
    Overvoltage,
    Good,
}

/// Cell chemistry.
#[derive(Debug, Clone, Copy, PartialEq, Eq, Structural)]
pub enum BatteryTechnology {
    LiOn,
    LiPo,
    LiFe,
    Unknown,
}

/// The gauge reads a battery report is made from; `None` is a failed read.
#[derive(Debug, Clone, Copy)]
pub struct GaugeReadings {
    pub voltage_mv: Option<u16>,
    pub current_ma: Option<i16>,
    pub relative_soc: Option<u8>,
    pub temperature: Option<i16>,
    pub remaining_capacity_mah: Option<u16>,
    pub design_capacity_mah: Option<u16>,
    pub cell_voltages_mv: Option<[u16; 4]>,
    pub battery_status: Option<u16>,
    pub device_chemistry: Option<u16>,
    pub serial_number: Option<u16>,
}

/// Battery state as reported to the host.
#[derive(Debug, Clone, Copy)]
pub struct BatteryState {
    pub voltage_mv: u16,
    pub current_ma: i16,
    pub capacity_mah: u16,
    pub design_capacity_mah: u16,
    pub percentage: u8,
    /// Temperature in 0.1 °C.
    pub temperature: i16,
    pub charge_status: BatteryChargeStatus,
    pub health: BatteryHealth,
    pub technology: BatteryTechnology,
    /// A pack answers with a nonzero voltage.
    pub present: bool,
    pub serial_number: u16,
    pub cell_voltages_mv: [u16; 4],
    /// Every cell reported at the pack temperature.
    pub cell_temperatures: [i16; 4],
}

/// The value of a read, or `default` when it failed.
pub open spec fn or_default<T>(read: Option<T>, default: T) -> T {
    match read {
        Some(v) => v,
        None => default,
    }
}

/// Charge status from BatteryStatus and the current: DSG (bit 6) means
/// discharging, else FC (bit 5) full, else any current means charging.
pub open spec fn charge_status_of(status: u16, current_ma: i16) -> BatteryChargeStatus {
    if status & (1u16 << 6u16) != 0 {
        BatteryChargeStatus::Discharging
    } else if status & (1u16 << 5u16) != 0 {
        BatteryChargeStatus::Full
    } else if current_ma != 0 {
        BatteryChargeStatus::Charging
    } else {
        BatteryChargeStatus::NotCharging
    }
}

/// Health from BatteryStatus: the over-temperature alarm, then the overcharge alarm.
pub open spec fn health_of(status: u16) -> BatteryHealth {
    if status & STATUS_OVER_TEMP_ALARM != 0 {
        BatteryHealth::Overheat
    } else if status & STATUS_OVER_CHARGE_ALARM != 0 {
        BatteryHealth::Overvoltage
    } else {
        BatteryHealth::Good
    }
}

/// Chemistry from DeviceChemistry's first two characters ("LO", "LP", "LF").
pub open spec fn technology_of(chemistry: Option<u16>) -> BatteryTechnology {
    match chemistry {
        Some(0x4F4Cu16) => BatteryTechnology::LiOn,
        Some(0x504Cu16) => BatteryTechnology::LiPo,
        Some(0x464Cu16) => BatteryTechnology::LiFe,
        _ => BatteryTechnology::Unknown,
    }
}

/// The battery report of a set of gauge reads. Failed reads count as zero, but
/// the temperature as 25.0 °C.
pub open spec fn battery_report(g: GaugeReadings) -> BatteryState {
    let voltage_mv = or_default(g.voltage_mv, 0);
    let current_ma = or_default(g.current_ma, 0);
    let status = or_default(g.battery_status, 0);
    let temperature = or_default(g.temperature, 250);
    BatteryState {
        voltage_mv,
        current_ma,
        capacity_mah: or_default(g.remaining_capacity_mah, 0),
        design_capacity_mah: or_default(g.design_capacity_mah, 0),
        percentage: or_default(g.relative_soc, 0),
        temperature,
        charge_status: charge_status_of(status, current_ma),
        health: health_of(status),
        technology: technology_of(g.device_chemistry),
        present: voltage_mv > 0,
        serial_number: or_default(g.serial_number, 0),
        cell_voltages_mv: or_default(g.cell_voltages_mv, [0u16, 0, 0, 0]),
        cell_temperatures: [temperature, temperature, temperature, temperature],
    }
}

/// Read the complete battery state from the gauge's reads.
pub fn read_bq40z50_data(g: &GaugeReadings) -> (r: BatteryState)
    ensures
        r == battery_report(*g),
{
    let voltage_mv = match g.voltage_mv {
        Some(v) => v,
        None => 0,
    };
    let current_ma = match g.current_ma {
        Some(v) => v,
        None => 0,
    };
    let battery_status = match g.battery_status {
        Some(v) => v,
        None => 0,
    };
    let temperature = match g.temperature {
        Some(v) => v,
        None => 250,
    };
    let charge_status = if battery_status & (1u16 << 6u16) != 0 {
        BatteryChargeStatus::Discharging
    } else if battery_status & (1u16 << 5u16) != 0 {
        BatteryChargeStatus::Full
    } else if current_ma != 0 {
        BatteryChargeStatus::Charging
    } else {
        BatteryChargeStatus::NotCharging
    };
    let health = if battery_status & STATUS_OVER_TEMP_ALARM != 0 {
        BatteryHealth::Overheat
    } else if battery_status & STATUS_OVER_CHARGE_ALARM != 0 {
        BatteryHealth::Overvoltage
    } else {
        BatteryHealth::Good
    };
    let technology = match g.device_chemistry {
        Some(0x4F4C) => BatteryTechnology::LiOn,
        Some(0x504C) => BatteryTechnology::LiPo,
        Some(0x464C) => BatteryTechnology::LiFe,
        _ => BatteryTechnology::Unknown,
    };
    BatteryState {
        voltage_mv,
        current_ma,
        capacity_mah: match g.remaining_capacity_mah {
            Some(v) => v,
            None => 0,
        },
        design_capacity_mah: match g.design_capacity_mah {
            Some(v) => v,
            None => 0,
        },
        percentage: match g.relative_soc {
            Some(v) => v,
            None => 0,
        },
        temperature,
        charge_status,
        health,
        technology,
        present: voltage_mv > 0,
        serial_number: match g.serial_number {
            Some(v) => v,
            None => 0,
        },
        cell_voltages_mv: match g.cell_voltages_mv {
            Some(v) => v,
            None => [0u16, 0, 0, 0],
        },
        cell_temperatures: [temperature, temperature, temperature, temperature],
    }
}

/// The reported charge status follows BatteryStatus and the current: DSG (bit 6,
/// 0x0040) set means discharging; else FC (bit 5, 0x0020) set means full; else a
/// nonzero current means charging, and no current not charging. A failed status
/// read counts as no flag set, a failed current read as no current.
pub proof fn lemma_charge_status_law(g: GaugeReadings)
    ensures
        ({
            let s: u16 = match g.battery_status {
                Some(v) => v,
                None => 0,
            };
            let c: i16 = match g.current_ma {
                Some(v) => v,
                None => 0,
            };
            let st = battery_report(g).charge_status;
            &&& s & 0x0040 != 0 ==> st == BatteryChargeStatus::Discharging
            &&& s & 0x0040 == 0 && s & 0x0020 != 0 ==> st == BatteryChargeStatus::Full
            &&& s & 0x0060 == 0 && c != 0 ==> st == BatteryChargeStatus::Charging
            &&& s & 0x0060 == 0 && c == 0 ==> st == BatteryChargeStatus::NotCharging
        }),
{
    let s: u16 = match g.battery_status {
        Some(v) => v,
        None => 0,
    };
    assert(s & (1u16 << 6u16) == s & 0x0040) by (bit_vector);
    assert(s & (1u16 << 5u16) == s & 0x0020) by (bit_vector);
    assert(s & 0x0060 == 0 <==> (s & 0x0040 == 0 && s & 0x0020 == 0)) by (bit_vector);
}

/// The rest of the report follows the reads: health is overheat when the
/// over-temperature alarm (bit 12, 0x1000) is set, else overvoltage when the
/// overcharged alarm (bit 15, 0x8000) is set, else good; a pack is present when it
/// reports a nonzero voltage; the chemistry "LO", "LP", "LF" (first two characters,
/// low byte first) is Li-ion, Li-polymer, LiFePO4; a failed temperature read
/// counts as 25.0 °C, and every cell is reported at the pack temperature.
pub proof fn lemma_battery_report_law(g: GaugeReadings)
    ensures
        ({
            let s: u16 = match g.battery_status {
                Some(v) => v,
                None => 0,
            };
            let r = battery_report(g);
            &&& s & 0x1000 != 0 ==> r.health == BatteryHealth::Overheat
            &&& s & 0x1000 == 0 && s & 0x8000 != 0 ==> r.health == BatteryHealth::Overvoltage
            &&& s & 0x9000 == 0 ==> r.health == BatteryHealth::Good
            &&& r.present <==> (g.voltage_mv matches Some(v) && v > 0)
            &&& g.device_chemistry == Some(0x4F4Cu16) ==> r.technology == BatteryTechnology::LiOn
            &&& g.device_chemistry == Some(0x504Cu16) ==> r.technology == BatteryTechnology::LiPo
            &&& g.device_chemistry == Some(0x464Cu16) ==> r.technology == BatteryTechnology::LiFe
            &&& g.temperature is None ==> r.temperature == 250
            &&& forall|k: int| 0 <= k < 4 ==> r.cell_temperatures[k] == r.temperature
        }),
{
    let s: u16 = match g.battery_status {
        Some(v) => v,
        None => 0,
    };
    assert(STATUS_OVER_TEMP_ALARM == 0x1000) by (bit_vector);
    assert(STATUS_OVER_CHARGE_ALARM == 0x8000) by (bit_vector);
    assert(s & 0x9000 == 0 <==> (s & 0x1000 == 0 && s & 0x8000 == 0)) by (bit_vector);
}

} // verus!
