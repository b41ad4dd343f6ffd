//! Charging state machine, phase definitions and the BQ24725 programming plan.
use vstd::prelude::*;
use crate::husb238a::driver::no_contract;
use crate::husb238a::types::{ContractInfo, InterruptStatus, PdoInfo};

verus! {

/// BQ24725 driver allowed charging current upper limit
pub const BQ24725_CHARGE_CURRENT_MAX_MA: u16 = 8128;
/// Default maximum charging current: 8.0A
pub const CHARGE_CURRENT_MAX_DEFAULT_MA: u16 = 8000;
/// Default charging voltage (4S: 16.8V)
pub const CHARGE_VOLTAGE_DEFAULT_MV: u16 = 16800;
/// Current hysteresis band (mA)
pub const CURRENT_HYSTERESIS_MA: u16 = 200;
/// Battery voltage below which charging is pre-charge (mV)
pub const PRECHARGE_VOLTAGE_MV: u16 = 12000;

/// BQ24725 charge current quantized to 64mA step (round down)
pub fn quantize_charge_current(ma: u16) -> (r: u16)
    ensures
        r == ma - ma % 64,
{
    (ma / 64) * 64
}

/// BQ24725 input current quantized to 128mA step (round down)
pub fn quantize_input_current(ma: u16) -> (r: u16)
    ensures
        r == ma - ma % 128,
{
    (ma / 128) * 128
}

/// BQ24725 charge voltage quantized to 16mV step (round down)
pub fn quantize_charge_voltage(mv: u16) -> (r: u16)
    ensures
        r == mv - mv % 16,
{
    (mv / 16) * 16
}

/// Battery temperature (0.1 °C) below which charging stops.
pub const BAT_TEMP_COLD_LIMIT: i16 = 0;
/// Battery temperature (0.1 °C) below which charging is slow.
pub const BAT_TEMP_COOL_LIMIT: i16 = 100;
/// Battery temperature (0.1 °C) above which the current is derated.
pub const BAT_TEMP_WARM_LIMIT: i16 = 450;
/// Battery temperature (0.1 °C) above which charging stops.
pub const BAT_TEMP_HOT_LIMIT: i16 = 500;
/// Minimum charging current (mA), a multiple of the BQ24725's 64 mA step.
pub const CHARGE_CURRENT_MIN_MA: u16 = 448;

/// The charge current the battery temperature allows: none outside 0–50 °C, the
/// minimum below 10 °C, the power budget's current up to 45 °C, and from 45 °C to
/// 50 °C a linear fall from the maximum to the minimum.
pub open spec fn battery_temp_current(batt_temp: i16, budget_ma: u16, max_current_ma: u16) -> u16 {
    if batt_temp < BAT_TEMP_COLD_LIMIT || batt_temp > BAT_TEMP_HOT_LIMIT {
        0
    } else if batt_temp < BAT_TEMP_COOL_LIMIT {
        CHARGE_CURRENT_MIN_MA
    } else if batt_temp < BAT_TEMP_WARM_LIMIT {
        budget_ma
    } else {
        let ratio = (BAT_TEMP_HOT_LIMIT - batt_temp) * 10000 / (BAT_TEMP_HOT_LIMIT
            - BAT_TEMP_WARM_LIMIT);
        let span = if max_current_ma >= CHARGE_CURRENT_MIN_MA {
            max_current_ma - CHARGE_CURRENT_MIN_MA
        } else {
            0
        };
        (CHARGE_CURRENT_MIN_MA + span * ratio / 10000) as u16
    }
}

/// The battery-temperature step of the target charge current (battery
/// temperature in 0.1 °C). `budget_ma` is the current the charger's power budget
/// allows at room temperature (85 % of the contract power over the battery
/// voltage, at most the maximum current), which the caller computes.
pub fn battery_temp_current_ma(batt_temp: i16, budget_ma: u16, max_current_ma: u16) -> (r: u16)
    ensures
        r == battery_temp_current(batt_temp, budget_ma, max_current_ma),
{
    if batt_temp < BAT_TEMP_COLD_LIMIT || batt_temp > BAT_TEMP_HOT_LIMIT {
        return 0;
    }
    if batt_temp < BAT_TEMP_COOL_LIMIT {
        CHARGE_CURRENT_MIN_MA
    } else if batt_temp < BAT_TEMP_WARM_LIMIT {
        budget_ma
    } else {
        let range: i32 = (BAT_TEMP_HOT_LIMIT - BAT_TEMP_WARM_LIMIT) as i32;
        let delta: i32 = (BAT_TEMP_HOT_LIMIT - batt_temp) as i32;
        let raw: i32 = delta * 10000 / range;
        let ratio: u32 = if raw < 0 {
            0
        } else if raw > 10000 {
            10000
        } else {
            raw as u32
        };
        let span: u32 = if max_current_ma >= CHARGE_CURRENT_MIN_MA {
            (max_current_ma - CHARGE_CURRENT_MIN_MA) as u32
        } else {
            0
        };
        assert(span * ratio <= 65535 * 10000) by (nonlinear_arith)
            requires
                span <= 65535,
                ratio <= 10000,
        ;
        assert(span * ratio / 10000 <= span) by (nonlinear_arith)
            requires
                ratio <= 10000,
        ;
        CHARGE_CURRENT_MIN_MA + (span * ratio / 10000) as u16
    }
}

/// The current the battery temperature allows, over every temperature (0.1 °C):
/// nothing below 0 °C or above 50 °C; 448 mA from 0 °C up to 10 °C; the power
/// budget from 10 °C up to 45 °C; and from 45 °C to 50 °C a fall linear in the
/// temperature, 448 mA plus (max - 448) * (50 °C - t) / 5 °C (plain 448 mA when the
/// maximum is below 448 mA). At 46.0 °C that is 448 + (max - 448) * 4 / 5.
pub proof fn lemma_battery_temp_current_law(t: i16, budget_ma: u16, max_current_ma: u16)
    ensures
        (t < 0 || t > 500) ==> battery_temp_current(t, budget_ma, max_current_ma) == 0,
        0 <= t < 100 ==> battery_temp_current(t, budget_ma, max_current_ma) == 448,
        100 <= t < 450 ==> battery_temp_current(t, budget_ma, max_current_ma) == budget_ma,
        450 <= t <= 500 && max_current_ma >= 448 ==> battery_temp_current(
            t,
            budget_ma,
            max_current_ma,
        ) == 448 + (max_current_ma - 448) * (500 - t) / 50,
        450 <= t <= 500 && max_current_ma < 448 ==> battery_temp_current(
            t,
            budget_ma,
            max_current_ma,
        ) == 448,
{
    if 450 <= t <= 500 {
        let span: int = if max_current_ma >= 448 {
            max_current_ma - 448
        } else {
            0
        };
        let d: int = 500 - t;
        assert(span * (d * 10000 / 50) / 10000 == span * d / 50) by (nonlinear_arith)
            requires
                0 <= d <= 50,
                0 <= span,
        {
            assert(d * 10000 / 50 == d * 200);
            assert(span * (d * 200) == (span * d) * 200);
            assert((span * d) * 200 / 10000 == span * d / 50);
        }
        assert(span * d / 50 <= span) by (nonlinear_arith)
            requires
                0 <= d <= 50,
                0 <= span,
        ;
    }
}

/// Charging phase
#[derive(Debug, Clone, Copy, PartialEq, Eq, Structural)]
pub enum ChargePhase {
    Unknown,
    NotCharging,
    PreCharge,
    Cc,
    Cv,
    Full,
    HusbFault,
    Unsupported,
    ThermalProtect,
}

impl ChargePhase {
    /// The phase's wire code.
    pub fn code(self) -> (r: u8)
        ensures
            r == match self {
                ChargePhase::Unknown => 0u8,
                ChargePhase::NotCharging => 1,
                ChargePhase::PreCharge => 2,
                ChargePhase::Cc => 3,
                ChargePhase::Cv => 4,
                ChargePhase::Full => 5,
                ChargePhase::HusbFault => 6,
                ChargePhase::Unsupported => 7,
                ChargePhase::ThermalProtect => 8,
            },
    {
        match self {
            ChargePhase::Unknown => 0,
            ChargePhase::NotCharging => 1,
            ChargePhase::PreCharge => 2,
            ChargePhase::Cc => 3,
            ChargePhase::Cv => 4,
            ChargePhase::Full => 5,
            ChargePhase::HusbFault => 6,
            ChargePhase::Unsupported => 7,
            ChargePhase::ThermalProtect => 8,
        }
    }
}

/// Charger status
#[derive(Debug, Clone, Copy, PartialEq, Eq, Structural)]
pub enum ChargerStatus {
    Disconnected,
    Connected,
    Fault,
    Unsupported,
}

/// BQ24725 command for the current charge state.
#[derive(Debug, Clone, Copy, PartialEq, Eq, Structural)]
pub enum Bq24725Command {
    Disable,
    Enable { current_ma: u16, voltage_mv: u16 },
}

/// Charge manager
pub struct ChargeManager {
    current_ma: u16,
    phase: ChargePhase,
    charger_status: ChargerStatus,
    max_current_ma: u16,
    charge_voltage_mv: u16,
    charge_enabled: bool,
    charge_temp_derating: i16,
    charge_temp_limit: i16,
}

/// The charge current after the hysteresis rule: a new target replaces the current
/// value only when it differs from it by more than 200 mA.
pub open spec fn hysteresis(current: u16, target: u16) -> u16 {
    if target > current + 200 || target < (if current >= 200 {
        current - 200
    } else {
        0
    }) {
        target
    } else {
        current
    }
}

/// The phase of an active charge at battery voltage `batt_mv` with regulation voltage `cv_mv`.
pub open spec fn active_phase(current: u16, batt_mv: u16, cv_mv: u16) -> ChargePhase {
    if current > 0 {
        if batt_mv >= cv_mv - 200 {
            ChargePhase::Cv
        } else if batt_mv < 12000 {
            ChargePhase::PreCharge
        } else {
            ChargePhase::Cc
        }
    } else {
        ChargePhase::NotCharging
    }
}

impl ChargeManager {
    /// Present charge current (mA).
    pub closed spec fn current(&self) -> u16 {
        self.current_ma
    }

    /// Present phase.
    pub closed spec fn phase_of(&self) -> ChargePhase {
        self.phase
    }

    /// Present charger status.
    pub closed spec fn status(&self) -> ChargerStatus {
        self.charger_status
    }

    /// Configured maximum charge current (mA).
    pub closed spec fn max_current(&self) -> u16 {
        self.max_current_ma
    }

    /// Configured charge voltage (mV).
    pub closed spec fn voltage(&self) -> u16 {
        self.charge_voltage_mv
    }

    /// Whether charging is enabled by configuration.
    pub closed spec fn enabled(&self) -> bool {
        self.charge_enabled
    }

    /// Charge-circuit derating temperature (0.1 °C).
    pub closed spec fn derating(&self) -> i16 {
        self.charge_temp_derating
    }

    /// Charge-circuit limit temperature (0.1 °C).
    pub closed spec fn limit(&self) -> i16 {
        self.charge_temp_limit
    }

    /// A manager at rest: no charge, 8 A max, 16.8 V, enabled, derating at 65 °C and
    /// limit at 80 °C.
    pub fn new() -> (r: Self)
        ensures
            r.current() == 0,
            r.phase_of() == ChargePhase::Unknown,
            r.status() == ChargerStatus::Disconnected,
            r.max_current() == CHARGE_CURRENT_MAX_DEFAULT_MA,
            r.voltage() == CHARGE_VOLTAGE_DEFAULT_MV,
            r.enabled(),
            r.derating() == 650,
            r.limit() == 800,
    {
        Self {
            current_ma: 0,
            phase: ChargePhase::Unknown,
            charger_status: ChargerStatus::Disconnected,
            max_current_ma: CHARGE_CURRENT_MAX_DEFAULT_MA,
            charge_voltage_mv: CHARGE_VOLTAGE_DEFAULT_MV,
            charge_enabled: true,
            charge_temp_derating: 650,
            charge_temp_limit: 800,
        }
    }

    /// Whether an `update` with these inputs stays within the 16-bit arithmetic of
    /// the state machine: when a charge goes ahead (charger attached, no fault,
    /// charging supported and enabled, battery not full, a target current), the
    /// present current plus the 200 mA band fits in 16 bits, and a non-zero
    /// resulting current comes with a charge voltage of at least 200 mV.
    pub open spec fn update_in_range_spec(
        &self,
        husb_attached: bool,
        husb_fault: bool,
        husb_support_charge: bool,
        batt_soc: u8,
        target_ma: u16,
    ) -> bool {
        husb_attached && !husb_fault && husb_support_charge && self.enabled() && batt_soc < 100
            && target_ma != 0 ==> {
            &&& self.current() <= 65335
            &&& hysteresis(self.current(), target_ma) > 0 ==> self.voltage() >= 200
        }
    }

    /// Check that `update` may be called with these inputs (see
    /// `update_in_range_spec`); where it is false, the update would overflow.
    pub fn update_in_range(
        &self,
        husb_attached: bool,
        husb_fault: bool,
        husb_support_charge: bool,
        batt_soc: u8,
        target_ma: u16,
    ) -> (r: bool)
        ensures
            r == self.update_in_range_spec(
                husb_attached,
                husb_fault,
                husb_support_charge,
                batt_soc,
                target_ma,
            ),
    {
        if !(husb_attached && !husb_fault && husb_support_charge && self.charge_enabled && batt_soc
            < 100 && target_ma != 0) {
            return true;
        }
        if self.current_ma > 65335 {
            return false;
        }
        let next = if target_ma > self.current_ma + CURRENT_HYSTERESIS_MA || target_ma
            < self.current_ma.saturating_sub(CURRENT_HYSTERESIS_MA) {
            target_ma
        } else {
            self.current_ma
        };
        next == 0 || self.charge_voltage_mv >= 200
    }

    /// Present phase.
    pub fn phase(&self) -> (r: ChargePhase)
        ensures
            r == self.phase_of(),
    {
        self.phase
    }

    /// Present charger status.
    pub fn charger_status(&self) -> (r: ChargerStatus)
        ensures
            r == self.status(),
    {
        self.charger_status
    }

    /// Present charge current (mA).
    pub fn current_ma(&self) -> (r: u16)
        ensures
            r == self.current(),
    {
        self.current_ma
    }

    /// Configured maximum charge current (mA).
    pub fn max_current_ma(&self) -> (r: u16)
        ensures
            r == self.max_current(),
    {
        self.max_current_ma
    }

    /// Charge-circuit derating and limit temperatures (0.1 °C).
    pub fn temp_thresholds(&self) -> (r: (i16, i16))
        ensures
            r == (self.derating(), self.limit()),
    {
        (self.charge_temp_derating, self.charge_temp_limit)
    }

    /// Set the charge voltage (mV).
    pub fn set_charge_voltage(&mut self, mv: u16)
        ensures
            final(self).voltage() == mv,
            final(self).current() == old(self).current(),
            final(self).phase_of() == old(self).phase_of(),
            final(self).status() == old(self).status(),
            final(self).max_current() == old(self).max_current(),
            final(self).enabled() == old(self).enabled(),
            final(self).derating() == old(self).derating(),
            final(self).limit() == old(self).limit(),
    {
        self.charge_voltage_mv = mv;
    }

    /// Set the maximum charge current (mA).
    pub fn set_max_current(&mut self, ma: u16)
        ensures
            final(self).max_current() == ma,
            final(self).current() == old(self).current(),
            final(self).phase_of() == old(self).phase_of(),
            final(self).status() == old(self).status(),
            final(self).voltage() == old(self).voltage(),
            final(self).enabled() == old(self).enabled(),
            final(self).derating() == old(self).derating(),
            final(self).limit() == old(self).limit(),
    {
        self.max_current_ma = ma;
    }

    /// Enable or disable charging.
    pub fn set_charge_enabled(&mut self, enabled: bool)
        ensures
            final(self).enabled() == enabled,
            final(self).current() == old(self).current(),
            final(self).phase_of() == old(self).phase_of(),
            final(self).status() == old(self).status(),
            final(self).voltage() == old(self).voltage(),
            final(self).max_current() == old(self).max_current(),
            final(self).derating() == old(self).derating(),
            final(self).limit() == old(self).limit(),
    {
        self.charge_enabled = enabled;
    }

    /// Set the charge-circuit derating and limit temperatures (0.1 °C).
    pub fn set_temp_thresholds(&mut self, derating: i16, limit: i16)
        ensures
            final(self).derating() == derating,
            final(self).limit() == limit,
            final(self).current() == old(self).current(),
            final(self).phase_of() == old(self).phase_of(),
            final(self).status() == old(self).status(),
            final(self).voltage() == old(self).voltage(),
            final(self).max_current() == old(self).max_current(),
            final(self).enabled() == old(self).enabled(),
    {
        self.charge_temp_derating = derating;
        self.charge_temp_limit = limit;
    }

    /// One step of the charging state machine (1 Hz).
    ///
    /// `target_ma` is the charge current that the temperature and power-budget rule
    /// allows for this step, computed with this manager's maximum current and
    /// temperature thresholds; zero means temperature protection.
    pub fn update(
        &mut self,
        husb_attached: bool,
        husb_fault: bool,
        husb_support_charge: bool,
        batt_voltage_mv: u16,
        batt_soc: u8,
        target_ma: u16,
    ) -> (r: (ChargePhase, u16))
        requires
            old(self).update_in_range_spec(
                husb_attached,
                husb_fault,
                husb_support_charge,
                batt_soc,
                target_ma,
            ),
        ensures
            r == (final(self).phase_of(), final(self).current()),
            final(self).max_current() == old(self).max_current(),
            final(self).voltage() == old(self).voltage(),
            final(self).enabled() == old(self).enabled(),
            final(self).derating() == old(self).derating(),
            final(self).limit() == old(self).limit(),
            !husb_attached ==> final(self).status() == ChargerStatus::Disconnected
                && final(self).current() == 0 && final(self).phase_of()
                == ChargePhase::NotCharging,
            husb_attached && husb_fault ==> final(self).status() == ChargerStatus::Fault
                && final(self).current() == 0 && final(self).phase_of() == ChargePhase::HusbFault,
            husb_attached && !husb_fault && !husb_support_charge ==> final(self).status()
                == ChargerStatus::Unsupported && final(self).current() == 0
                && final(self).phase_of() == ChargePhase::Unsupported,
            husb_attached && !husb_fault && husb_support_charge ==> final(self).status()
                == ChargerStatus::Connected,
            husb_attached && !husb_fault && husb_support_charge && !old(self).enabled()
                ==> final(self).current() == 0 && final(self).phase_of()
                == ChargePhase::NotCharging,
            husb_attached && !husb_fault && husb_support_charge && old(self).enabled() && batt_soc
                >= 100 ==> final(self).current() == 0 && final(self).phase_of()
                == ChargePhase::Full,
            husb_attached && !husb_fault && husb_support_charge && old(self).enabled() && batt_soc
                < 100 && target_ma == 0 ==> final(self).current() == 0 && final(self).phase_of()
                == ChargePhase::ThermalProtect,
            husb_attached && !husb_fault && husb_support_charge && old(self).enabled() && batt_soc
                < 100 && target_ma != 0 ==> final(self).current() == hysteresis(
                old(self).current(),
                target_ma,
            ) && final(self).phase_of() == active_phase(
                final(self).current(),
                batt_voltage_mv,
                old(self).voltage(),
            ),
    {
        if !husb_attached {
            self.charger_status = ChargerStatus::Disconnected;
            self.current_ma = 0;
            self.phase = ChargePhase::NotCharging;
            return (self.phase, 0);
        }
        if husb_fault {
            self.charger_status = ChargerStatus::Fault;
            self.current_ma = 0;
            self.phase = ChargePhase::HusbFault;
            return (self.phase, 0);
        }
        if !husb_support_charge {
            self.charger_status = ChargerStatus::Unsupported;
            self.current_ma = 0;
            self.phase = ChargePhase::Unsupported;
            return (self.phase, 0);
        }
        self.charger_status = ChargerStatus::Connected;
        if !self.charge_enabled {
            self.current_ma = 0;
            self.phase = ChargePhase::NotCharging;
            return (self.phase, 0);
        }
        if batt_soc >= 100 {
            self.current_ma = 0;
            self.phase = ChargePhase::Full;
            return (self.phase, 0);
        }
        if target_ma == 0 {
            self.current_ma = 0;
            self.phase = ChargePhase::ThermalProtect;
            return (self.phase, 0);
        }
        if target_ma > self.current_ma + CURRENT_HYSTERESIS_MA || target_ma
            < self.current_ma.saturating_sub(CURRENT_HYSTERESIS_MA) {
            self.current_ma = target_ma;
        }
        if self.current_ma > 0 {
            if batt_voltage_mv >= self.charge_voltage_mv - 200 {
                self.phase = ChargePhase::Cv;
            } else if batt_voltage_mv < PRECHARGE_VOLTAGE_MV {
                self.phase = ChargePhase::PreCharge;
            } else {
                self.phase = ChargePhase::Cc;
            }
        } else {
            self.phase = ChargePhase::NotCharging;
        }
        (self.phase, self.current_ma)
    }

    /// BQ24725 command for the current state.
    pub fn bq24725_command(&self) -> (r: Bq24725Command)
        ensures
            self.current() == 0 ==> r == Bq24725Command::Disable,
            self.current() != 0 ==> r == (Bq24725Command::Enable {
                current_ma: self.current(),
                voltage_mv: self.voltage(),
            }),
    {
        if self.current_ma == 0 {
            Bq24725Command::Disable
        } else {
            Bq24725Command::Enable { current_ma: self.current_ma, voltage_mv: self.charge_voltage_mv }
        }
    }
}

/// HUSB238A status snapshot for one charge cycle.
#[derive(Debug, Clone, Copy, PartialEq, Eq, Structural)]
pub struct HusbStatus {
    pub attached: bool,
    pub fault: bool,
    pub support_charge: bool,
    pub voltage_mv: u16,
    pub current_ma: u32,
}

/// Whether a source offers a PDO of at least 19 V, enough to charge the pack.
pub open spec fn offers_charge_voltage(pdos: Seq<PdoInfo>) -> bool {
    exists|i: int| 0 <= i < pdos.len() && #[trigger] pdos[i].voltage_mv >= 19_000
}

/// The HUSB238A status of one charge cycle, from a fresh driver's reads: the
/// attachment (`None` when the read failed, taken as detached), the advertised
/// PDOs (`None` when reading them failed, taken as no charging support), and the
/// contract (`None` when reading it failed: a fresh driver then reports no
/// contract). A fresh driver has seen no fault interrupt, so `fault` is false.
pub fn read_husb_status(
    attached: Option<bool>,
    pdos: Option<&[PdoInfo]>,
    contract: Option<ContractInfo>,
) -> (r: HusbStatus)
    ensures
        r.attached == (attached == Some(true)),
        !r.fault,
        r.support_charge == (pdos matches Some(p) && offers_charge_voltage(p@)),
        r.voltage_mv == (match contract {
            Some(c) => c.voltage_mv,
            None => no_contract().voltage_mv,
        }),
        r.current_ma == (match contract {
            Some(c) => c.current_ma,
            None => no_contract().current_ma,
        }),
{
    let attached = match attached {
        Some(a) => a,
        None => false,
    };
    let support_charge = match pdos {
        Some(p) => {
            let mut found = false;
            let mut i: usize = 0;
            while i < p.len()
                invariant
                    i <= p@.len(),
                    found == exists|j: int| 0 <= j < i && #[trigger] p@[j].voltage_mv >= 19_000,
                decreases p@.len() - i,
            {
                if p[i].voltage_mv >= 19_000 {
                    found = true;
                }
                i = i + 1;
            }
            found
        },
        None => false,
    };
    let (voltage_mv, current_ma) = match contract {
        Some(c) => (c.voltage_mv, c.current_ma),
        None => (0, 0),
    };
    HusbStatus { attached, fault: false, support_charge, voltage_mv, current_ma }
}

/// BQ40Z50 battery data snapshot.
#[derive(Debug, Clone, Copy, PartialEq, Eq, Structural)]
pub struct BatteryData {
    pub temp_c: i16,
    pub voltage_mv: u16,
    pub soc: u8,
}

/// The battery snapshot of one charge cycle from the gauge's temperature,
/// voltage and relative state-of-charge reads; a failed read stands in as
/// 25.0 °C, 16.8 V or 50 %.
pub fn read_battery_data(temp_c: Option<i16>, voltage_mv: Option<u16>, soc: Option<u8>) -> (r:
    BatteryData)
    ensures
        r.temp_c == (match temp_c {
            Some(t) => t,
            None => 250,
        }),
        r.voltage_mv == (match voltage_mv {
            Some(v) => v,
            None => 16800,
        }),
        r.soc == (match soc {
            Some(s) => s,
            None => 50,
        }),
{
    BatteryData {
        temp_c: match temp_c {
            Some(t) => t,
            None => 250,
        },
        voltage_mv: match voltage_mv {
            Some(v) => v,
            None => 16800,
        },
        soc: match soc {
            Some(s) => s,
            None => 50,
        },
    }
}

/// HUSB interrupt data projected into the charge feature's event model.
#[derive(Debug, Clone, Copy, PartialEq, Eq, Structural)]
pub struct HusbInterrupt {
    pub attached: bool,
    pub attach_changed: bool,
    pub fault: bool,
}

/// Project a handled HUSB238A interrupt and the attachment read after it onto the
/// charge feature's event model.
pub fn handle_husb_interrupt(status: &InterruptStatus, attached: bool) -> (r: HusbInterrupt)
    ensures
        r.attached == attached,
        r.attach_changed == status.has_attach_change_spec(),
        r.fault == status.has_fault_spec(),
{
    HusbInterrupt {
        attached,
        attach_changed: status.has_attach_change(),
        fault: status.has_fault(),
    }
}

/// The writes that bring the BQ24725 to a charge target.
#[derive(Debug, Clone, Copy, PartialEq, Eq, Structural)]
pub enum ChargePlan {
    /// Target zero: clear the charge-enable bit (charging stops as asked).
    Disable,
    /// A quantized value is out of the charger's range: clear the charge-enable bit,
    /// ignoring bus errors, and report the stop.
    SafeStop,
    /// Program charge current and voltage, the input current when given, then set
    /// the charge-enable bit.
    Program { current_ma: u16, voltage_mv: u16, input_current_ma: Option<u16> },
}

/// How to program the BQ24725 for a target charge current, regulation voltage and
/// input-current limit: values are rounded down to the register steps (64 mA, 16 mV,
/// 128 mA); a charge current outside 128..=8128 mA, a voltage outside
/// 1024..=19200 mV or an input current above 8064 mA stops charging; an input
/// current below 128 mA is left unset.
pub fn plan_bq24725_charge(target_current_ma: u16, voltage_mv: u16, input_current_ma: u16) -> (r:
    ChargePlan)
    ensures
        target_current_ma == 0 ==> r == ChargePlan::Disable,
        target_current_ma != 0 ==> ({
            let current = target_current_ma - target_current_ma % 64;
            let voltage = voltage_mv - voltage_mv % 16;
            let input = input_current_ma - input_current_ma % 128;
            if current < 128 || current > 8128 || voltage < 1024 || voltage > 19200 || input
                > 8064 {
                r == ChargePlan::SafeStop
            } else {
                r == ChargePlan::Program {
                    current_ma: current as u16,
                    voltage_mv: voltage as u16,
                    input_current_ma: if input >= 128 {
                        Some(input as u16)
                    } else {
                        None
                    },
                }
            }
        }),
{
    if target_current_ma == 0 {
        return ChargePlan::Disable;
    }
    let target_current = quantize_charge_current(target_current_ma);
    let input_current = quantize_input_current(input_current_ma);
    let charge_voltage = quantize_charge_voltage(voltage_mv);
    if target_current < 128 || target_current > BQ24725_CHARGE_CURRENT_MAX_MA {
        return ChargePlan::SafeStop;
    }
    if charge_voltage < 1024 || charge_voltage > 19200 {
        return ChargePlan::SafeStop;
    }
    if input_current > 8064 {
        return ChargePlan::SafeStop;
    }
    ChargePlan::Program {
        current_ma: target_current,
        voltage_mv: charge_voltage,
        input_current_ma: if input_current >= 128 {
            Some(input_current)
        } else {
            None
        },
    }
}

/// Every value a charge plan programs is one the BQ24725 registers accept, so the
/// driver's range checks never refuse a planned write.
pub proof fn lemma_plan_values_accepted(target: u16, voltage: u16, input: u16, plan: ChargePlan)
    requires
        plan == ({
            let current = target - target % 64;
            let v = voltage - voltage % 16;
            let i = input - input % 128;
            if target == 0 {
                ChargePlan::Disable
            } else if current < 128 || current > 8128 || v < 1024 || v > 19200 || i > 8064 {
                ChargePlan::SafeStop
            } else {
                ChargePlan::Program {
                    current_ma: current as u16,
                    voltage_mv: v as u16,
                    input_current_ma: if i >= 128 {
                        Some(i as u16)
                    } else {
                        None
                    },
                }
            }
        }),
    ensures
        plan matches ChargePlan::Program { current_ma, voltage_mv, input_current_ma } ==> {
            &&& crate::bq24725::types::valid_charge_current(current_ma as int)
            &&& crate::bq24725::types::valid_charge_voltage(voltage_mv as int)
            &&& input_current_ma matches Some(i) ==> crate::bq24725::types::valid_input_current(i as int)
        },
{
}

/// The phase of an active charge: with a current flowing, constant voltage once
/// the battery is within 200 mV of the regulation voltage, else pre-charge below
/// 12.0 V, else constant current; with no current, not charging.
pub proof fn lemma_active_phase_law(current: u16, batt_mv: u16, cv_mv: u16)
    ensures
        current > 0 && batt_mv + 200 >= cv_mv ==> active_phase(current, batt_mv, cv_mv)
            == ChargePhase::Cv,
        current > 0 && batt_mv + 200 < cv_mv && batt_mv < 12000 ==> active_phase(
            current,
            batt_mv,
            cv_mv,
        ) == ChargePhase::PreCharge,
        current > 0 && batt_mv + 200 < cv_mv && batt_mv >= 12000 ==> active_phase(
            current,
            batt_mv,
            cv_mv,
        ) == ChargePhase::Cc,
        current == 0 ==> active_phase(current, batt_mv, cv_mv) == ChargePhase::NotCharging,
{
}

/// Within the hysteresis band the charge current does not move, and outside it the
/// new target is taken as is.
pub proof fn lemma_hysteresis_band(current: u16, target: u16)
    requires
        current <= 65335,
    ensures
        current <= target + 200 && target <= current + 200 ==> hysteresis(current, target)
            == current,
        (target > current + 200 || target + 200 < current) ==> hysteresis(current, target)
            == target,
{
}

/// Between 45 °C and 50 °C the allowed current falls as the battery warms: from
/// the maximum current (when it is at least the minimum) to the minimum.
pub proof fn lemma_warm_derating(t1: i16, t2: i16, budget_ma: u16, max_current_ma: u16)
    requires
        BAT_TEMP_WARM_LIMIT <= t1 <= t2 <= BAT_TEMP_HOT_LIMIT,
    ensures
        battery_temp_current(t2, budget_ma, max_current_ma) <= battery_temp_current(
            t1,
            budget_ma,
            max_current_ma,
        ),
        battery_temp_current(BAT_TEMP_HOT_LIMIT, budget_ma, max_current_ma) == CHARGE_CURRENT_MIN_MA,
        max_current_ma >= CHARGE_CURRENT_MIN_MA ==> battery_temp_current(
            BAT_TEMP_WARM_LIMIT,
            budget_ma,
            max_current_ma,
        ) == max_current_ma,
{
    let span: int = if max_current_ma >= CHARGE_CURRENT_MIN_MA {
        max_current_ma - CHARGE_CURRENT_MIN_MA
    } else {
        0
    };
    let r1: int = (BAT_TEMP_HOT_LIMIT - t1) * 10000 / 50;
    let r2: int = (BAT_TEMP_HOT_LIMIT - t2) * 10000 / 50;
    assert(r2 <= r1);
    assert(0 <= r2);
    assert(span * r2 / 10000 <= span * r1 / 10000) by (nonlinear_arith)
        requires
            0 <= r2 <= r1,
            0 <= span,
    {
        assert(span * r2 <= span * r1);
        vstd::arithmetic::div_mod::lemma_div_is_ordered(span * r2, span * r1, 10000);
    }
    assert(span * r1 / 10000 <= span) by (nonlinear_arith)
        requires
            0 <= r1 <= 10000,
            0 <= span,
    ;
    assert(span * 10000 / 10000 == span) by (nonlinear_arith);
}

} // verus!
