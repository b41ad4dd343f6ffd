//! Over-temperature and over-current protection.
//!
//! - servo supply over temperature for 30 s (150 checks at 5 Hz) cuts the servo supply
//! - 5 V supply over temperature for 30 s cuts the 5 V supply
//! - servo over current for 30 s (600 checks at 20 Hz) cuts the servo supply
//!
//! The comparisons with the configured limits are made by the caller, which hands in
//! whether each reading is over its limit.
use vstd::prelude::*;

verus! {

/// Consecutive over-temperature checks (5 Hz) before a supply is cut.
pub const THERMAL_TRIP_COUNT: u16 = 150;
/// Consecutive over-current checks (20 Hz) before the servo supply is cut.
pub const CURRENT_TRIP_COUNT: u16 = 600;

/// Protection flags
#[derive(Debug, Clone, Copy, PartialEq, Eq, Structural)]
pub struct ProtectionFlags {
    pub servo_overcurrent: bool,
    pub servo_thermal: bool,
    pub dcdc_5v_thermal: bool,
    pub charge_derating: bool,
    pub charge_thermal: bool,
    pub battery_low: bool,
}

/// The protocol bit field of a set of flags: bit 0 servo over-current, 1 servo
/// thermal, 2 5 V thermal, 3 charge derating, 4 charge thermal, 5 battery low.
pub open spec fn flags_word(f: ProtectionFlags) -> u16 {
    ((if f.servo_overcurrent { 1int } else { 0 }) + (if f.servo_thermal { 2int } else { 0 }) + (
    if f.dcdc_5v_thermal { 4int } else { 0 }) + (if f.charge_derating { 8int } else { 0 }) + (
    if f.charge_thermal { 16int } else { 0 }) + (if f.battery_low { 32int } else { 0 })) as u16
}

impl ProtectionFlags {
    /// No protection active.
    pub fn new() -> (r: Self)
        ensures
            !r.servo_overcurrent && !r.servo_thermal && !r.dcdc_5v_thermal && !r.charge_derating
                && !r.charge_thermal && !r.battery_low,
    {
        Self {
            servo_overcurrent: false,
            servo_thermal: false,
            dcdc_5v_thermal: false,
            charge_derating: false,
            charge_thermal: false,
            battery_low: false,
        }
    }

    /// The protocol bit field.
    pub fn to_u16(&self) -> (r: u16)
        ensures
            r == flags_word(*self),
    {
        let mut flags = 0u16;
        if self.servo_overcurrent {
            flags = flags + 1;
        }
        if self.servo_thermal {
            flags = flags + 2;
        }
        if self.dcdc_5v_thermal {
            flags = flags + 4;
        }
        if self.charge_derating {
            flags = flags + 8;
        }
        if self.charge_thermal {
            flags = flags + 16;
        }
        if self.battery_low {
            flags = flags + 32;
        }
        flags
    }

    /// Whether any protection is active.
    pub fn any(&self) -> (r: bool)
        ensures
            r == (self.servo_overcurrent || self.servo_thermal || self.dcdc_5v_thermal
                || self.charge_derating || self.charge_thermal || self.battery_low),
            r == (flags_word(*self) != 0),
    {
        self.servo_overcurrent || self.servo_thermal || self.dcdc_5v_thermal
            || self.charge_derating || self.charge_thermal || self.battery_low
    }
}

/// GPIO-independent outcomes of the periodic thermal-control update.
#[derive(Debug, Clone, Copy, PartialEq, Eq, Structural)]
pub struct ThermalControl {
    pub protection_flags: ProtectionFlags,
    pub cut_servo_power: bool,
    pub cut_5v_power: bool,
    pub fan_on: bool,
}

/// Protection manager: consecutive-check counters and the supply cut-off state.
pub struct ProtectionManager {
    servo_thermal_count: u16,
    dcdc_5v_thermal_count: u16,
    servo_overcurrent_count: u16,
    flags: ProtectionFlags,
    servo_power_cut: bool,
    power_5v_cut: bool,
}

impl ProtectionManager {
    /// Consecutive servo over-temperature checks.
    pub closed spec fn servo_thermal_run(&self) -> u16 {
        self.servo_thermal_count
    }

    /// Consecutive 5 V over-temperature checks.
    pub closed spec fn v5_thermal_run(&self) -> u16 {
        self.dcdc_5v_thermal_count
    }

    /// Consecutive servo over-current checks.
    pub closed spec fn overcurrent_run(&self) -> u16 {
        self.servo_overcurrent_count
    }

    /// Present flags.
    pub closed spec fn flags_of(&self) -> ProtectionFlags {
        self.flags
    }

    /// Whether the servo supply has been cut.
    pub closed spec fn servo_cut(&self) -> bool {
        self.servo_power_cut
    }

    /// Whether the 5 V supply has been cut.
    pub closed spec fn v5_cut(&self) -> bool {
        self.power_5v_cut
    }

    /// The manager after one temperature check (see `check_thermal`).
    pub closed spec fn thermal_step(self, servo_over_limit: bool, v5_over_limit: bool) -> Self {
        let s_run: u16 = if servo_over_limit {
            (self.servo_thermal_count + 1) as u16
        } else {
            0
        };
        let v_run: u16 = if v5_over_limit {
            (self.dcdc_5v_thermal_count + 1) as u16
        } else {
            0
        };
        let s_trip = servo_over_limit && s_run >= THERMAL_TRIP_COUNT;
        let v_trip = v5_over_limit && v_run >= THERMAL_TRIP_COUNT;
        ProtectionManager {
            servo_thermal_count: s_run,
            dcdc_5v_thermal_count: v_run,
            flags: ProtectionFlags {
                servo_thermal: if servo_over_limit {
                    self.flags.servo_thermal || s_trip
                } else {
                    false
                },
                dcdc_5v_thermal: if v5_over_limit {
                    self.flags.dcdc_5v_thermal || v_trip
                } else {
                    false
                },
                ..self.flags
            },
            servo_power_cut: self.servo_power_cut || s_trip,
            power_5v_cut: self.power_5v_cut || v_trip,
            ..self
        }
    }

    /// The manager after one current check (see `check_current`).
    pub closed spec fn current_step(self, servo_over_limit: bool) -> Self {
        let run: u16 = if servo_over_limit {
            (self.servo_overcurrent_count + 1) as u16
        } else {
            0
        };
        let trip = servo_over_limit && run >= CURRENT_TRIP_COUNT;
        ProtectionManager {
            servo_overcurrent_count: run,
            flags: ProtectionFlags {
                servo_overcurrent: if servo_over_limit {
                    self.flags.servo_overcurrent || trip
                } else {
                    false
                },
                ..self.flags
            },
            servo_power_cut: self.servo_power_cut || trip,
            ..self
        }
    }

    /// No protection active, all counters zero.
    pub fn new() -> (r: Self)
        ensures
            r.servo_thermal_run() == 0 && r.v5_thermal_run() == 0 && r.overcurrent_run() == 0,
            r.flags_of() == (ProtectionFlags {
                servo_overcurrent: false,
                servo_thermal: false,
                dcdc_5v_thermal: false,
                charge_derating: false,
                charge_thermal: false,
                battery_low: false,
            }),
            !r.servo_cut() && !r.v5_cut(),
    {
        Self {
            servo_thermal_count: 0,
            dcdc_5v_thermal_count: 0,
            servo_overcurrent_count: 0,
            flags: ProtectionFlags::new(),
            servo_power_cut: false,
            power_5v_cut: false,
        }
    }

    /// Present flags.
    pub fn flags(&self) -> (r: ProtectionFlags)
        ensures
            r == self.flags_of(),
    {
        self.flags
    }

    /// The runs of consecutive over-limit checks: servo temperature, 5 V
    /// temperature, servo current. Each check that extends a run adds one to it,
    /// which a caller must keep below `u16::MAX`.
    pub fn run_lengths(&self) -> (r: (u16, u16, u16))
        ensures
            r == (self.servo_thermal_run(), self.v5_thermal_run(), self.overcurrent_run()),
    {
        (self.servo_thermal_count, self.dcdc_5v_thermal_count, self.servo_overcurrent_count)
    }

    /// Whether the servo supply has been cut.
    pub fn is_servo_power_cut(&self) -> (r: bool)
        ensures
            r == self.servo_cut(),
    {
        self.servo_power_cut
    }

    /// Whether the 5 V supply has been cut.
    pub fn is_5v_power_cut(&self) -> (r: bool)
        ensures
            r == self.v5_cut(),
    {
        self.power_5v_cut
    }

    /// Temperature protection check (5 Hz); returns `(servo_should_cut, 5v_should_cut)`.
    ///
    /// A reading over its limit extends that supply's run of over-temperature checks;
    /// at 150 the thermal flag is set and the supply cut. A reading within the limit
    /// ends the run and clears the flag; a cut stays until reset.
    pub fn check_thermal(&mut self, servo_over_limit: bool, v5_over_limit: bool) -> (r: (bool, bool))
        requires
            servo_over_limit ==> old(self).servo_thermal_run() < u16::MAX,
            v5_over_limit ==> old(self).v5_thermal_run() < u16::MAX,
        ensures
            *final(self) == old(self).thermal_step(servo_over_limit, v5_over_limit),
            r == (final(self).servo_cut(), final(self).v5_cut()),
            final(self).overcurrent_run() == old(self).overcurrent_run(),
            final(self).flags_of().servo_overcurrent == old(self).flags_of().servo_overcurrent,
            final(self).flags_of().charge_derating == old(self).flags_of().charge_derating,
            final(self).flags_of().charge_thermal == old(self).flags_of().charge_thermal,
            final(self).flags_of().battery_low == old(self).flags_of().battery_low,
            servo_over_limit ==> {
                &&& final(self).servo_thermal_run() == old(self).servo_thermal_run() + 1
                &&& final(self).flags_of().servo_thermal == (old(self).flags_of().servo_thermal
                    || final(self).servo_thermal_run() >= 150)
                &&& final(self).servo_cut() == (old(self).servo_cut()
                    || final(self).servo_thermal_run() >= 150)
            },
            !servo_over_limit ==> {
                &&& final(self).servo_thermal_run() == 0
                &&& !final(self).flags_of().servo_thermal
                &&& final(self).servo_cut() == old(self).servo_cut()
            },
            v5_over_limit ==> {
                &&& final(self).v5_thermal_run() == old(self).v5_thermal_run() + 1
                &&& final(self).flags_of().dcdc_5v_thermal == (old(self).flags_of().dcdc_5v_thermal
                    || final(self).v5_thermal_run() >= 150)
                &&& final(self).v5_cut() == (old(self).v5_cut() || final(self).v5_thermal_run()
                    >= 150)
            },
            !v5_over_limit ==> {
                &&& final(self).v5_thermal_run() == 0
                &&& !final(self).flags_of().dcdc_5v_thermal
                &&& final(self).v5_cut() == old(self).v5_cut()
            },
    {
        if servo_over_limit {
            self.servo_thermal_count = self.servo_thermal_count + 1;
            if self.servo_thermal_count >= THERMAL_TRIP_COUNT {
                self.flags.servo_thermal = true;
                self.servo_power_cut = true;
            }
        } else {
            self.servo_thermal_count = 0;
            self.flags.servo_thermal = false;
        }
        if v5_over_limit {
            self.dcdc_5v_thermal_count = self.dcdc_5v_thermal_count + 1;
            if self.dcdc_5v_thermal_count >= THERMAL_TRIP_COUNT {
                self.flags.dcdc_5v_thermal = true;
                self.power_5v_cut = true;
            }
        } else {
            self.dcdc_5v_thermal_count = 0;
            self.flags.dcdc_5v_thermal = false;
        }
        (self.servo_power_cut, self.power_5v_cut)
    }

    /// Current protection check (20 Hz); returns whether the servo supply is cut.
    ///
    /// A reading over the limit extends the run of over-current checks; at 600 the
    /// over-current flag is set and the servo supply cut. A reading within the limit
    /// ends the run and clears the flag.
    pub fn check_current(&mut self, servo_over_limit: bool) -> (r: bool)
        requires
            servo_over_limit ==> old(self).overcurrent_run() < u16::MAX,
        ensures
            *final(self) == old(self).current_step(servo_over_limit),
            r == final(self).servo_cut(),
            final(self).servo_thermal_run() == old(self).servo_thermal_run(),
            final(self).v5_thermal_run() == old(self).v5_thermal_run(),
            final(self).v5_cut() == old(self).v5_cut(),
            final(self).flags_of() == (ProtectionFlags {
                servo_overcurrent: final(self).flags_of().servo_overcurrent,
                ..old(self).flags_of()
            }),
            servo_over_limit ==> {
                &&& final(self).overcurrent_run() == old(self).overcurrent_run() + 1
                &&& final(self).flags_of().servo_overcurrent == (
                old(self).flags_of().servo_overcurrent || final(self).overcurrent_run() >= 600)
                &&& final(self).servo_cut() == (old(self).servo_cut()
                    || final(self).overcurrent_run() >= 600)
            },
            !servo_over_limit ==> {
                &&& final(self).overcurrent_run() == 0
                &&& !final(self).flags_of().servo_overcurrent
                &&& final(self).servo_cut() == old(self).servo_cut()
            },
    {
        if servo_over_limit {
            self.servo_overcurrent_count = self.servo_overcurrent_count + 1;
            if self.servo_overcurrent_count >= CURRENT_TRIP_COUNT {
                self.flags.servo_overcurrent = true;
                self.servo_power_cut = true;
            }
        } else {
            self.servo_overcurrent_count = 0;
            self.flags.servo_overcurrent = false;
        }
        self.servo_power_cut
    }

    /// Re-enable the servo supply (host request): clears its cut, counters and flags.
    pub fn reset_servo_power(&mut self)
        ensures
            !final(self).servo_cut(),
            final(self).servo_thermal_run() == 0,
            final(self).overcurrent_run() == 0,
            final(self).v5_thermal_run() == old(self).v5_thermal_run(),
            final(self).v5_cut() == old(self).v5_cut(),
            final(self).flags_of() == (ProtectionFlags {
                servo_thermal: false,
                servo_overcurrent: false,
                ..old(self).flags_of()
            }),
    {
        self.servo_power_cut = false;
        self.servo_thermal_count = 0;
        self.servo_overcurrent_count = 0;
        self.flags.servo_thermal = false;
        self.flags.servo_overcurrent = false;
    }

    /// Re-enable the 5 V supply (host request): clears its cut, counter and flag.
    pub fn reset_5v_power(&mut self)
        ensures
            !final(self).v5_cut(),
            final(self).v5_thermal_run() == 0,
            final(self).servo_thermal_run() == old(self).servo_thermal_run(),
            final(self).overcurrent_run() == old(self).overcurrent_run(),
            final(self).servo_cut() == old(self).servo_cut(),
            final(self).flags_of() == (ProtectionFlags {
                dcdc_5v_thermal: false,
                ..old(self).flags_of()
            }),
    {
        self.power_5v_cut = false;
        self.dcdc_5v_thermal_count = 0;
        self.flags.dcdc_5v_thermal = false;
    }
}

/// The manager after consecutive over-temperature servo checks, the i-th taken with
/// the 5 V reading `v5[i]`.
pub open spec fn servo_hot_checks(m: ProtectionManager, v5: Seq<bool>) -> ProtectionManager
    decreases v5.len(),
{
    if v5.len() == 0 {
        m
    } else {
        servo_hot_checks(m, v5.drop_last()).thermal_step(true, v5.last())
    }
}

/// The manager after consecutive over-temperature 5 V checks, the i-th taken with
/// the servo reading `servo[i]`.
pub open spec fn v5_hot_checks(m: ProtectionManager, servo: Seq<bool>) -> ProtectionManager
    decreases servo.len(),
{
    if servo.len() == 0 {
        m
    } else {
        v5_hot_checks(m, servo.drop_last()).thermal_step(servo.last(), true)
    }
}

/// The manager after `k` consecutive over-current checks.
pub open spec fn overcurrent_checks(m: ProtectionManager, k: nat) -> ProtectionManager
    decreases k,
{
    if k == 0 {
        m
    } else {
        overcurrent_checks(m, (k - 1) as nat).current_step(true)
    }
}

/// A supply is cut only after 150 consecutive over-temperature checks (30 s at
/// 5 Hz): from a servo run of `n` checks with the supply not cut, `k` more
/// over-limit checks leave a run of `n + k`, and the servo supply is cut and its
/// thermal flag set exactly when `k > 0` and `n + k >= 150`; from a fresh manager,
/// exactly at the 150th check. (A within-limit check ends the run,
/// and a cut stays until reset: see `check_thermal`.)
pub proof fn lemma_thermal_trip_after_run(m: ProtectionManager, v5: Seq<bool>)
    requires
        !m.servo_cut(),
        !m.flags_of().servo_thermal,
        m.servo_thermal_run() + v5.len() < 65535,
    ensures
        servo_hot_checks(m, v5).servo_thermal_run() == m.servo_thermal_run() + v5.len(),
        servo_hot_checks(m, v5).servo_cut() <==> v5.len() > 0 && m.servo_thermal_run() + v5.len()
            >= 150,
        servo_hot_checks(m, v5).flags_of().servo_thermal <==> v5.len() > 0 && m.servo_thermal_run()
            + v5.len() >= 150,
    decreases v5.len(),
{
    if v5.len() > 0 {
        lemma_thermal_trip_after_run(m, v5.drop_last());
    }
}

/// The same for the 5 V supply: `k` over-limit checks after a run of `n` cut it and
/// set its thermal flag exactly when `k > 0` and `n + k >= 150`.
pub proof fn lemma_v5_thermal_trip_after_run(m: ProtectionManager, servo: Seq<bool>)
    requires
        !m.v5_cut(),
        !m.flags_of().dcdc_5v_thermal,
        m.v5_thermal_run() + servo.len() < 65535,
    ensures
        v5_hot_checks(m, servo).v5_thermal_run() == m.v5_thermal_run() + servo.len(),
        v5_hot_checks(m, servo).v5_cut() <==> servo.len() > 0 && m.v5_thermal_run() + servo.len()
            >= 150,
        v5_hot_checks(m, servo).flags_of().dcdc_5v_thermal <==> servo.len() > 0
            && m.v5_thermal_run() + servo.len() >= 150,
    decreases servo.len(),
{
    if servo.len() > 0 {
        lemma_v5_thermal_trip_after_run(m, servo.drop_last());
    }
}

/// The servo supply is cut for over-current only after 600 consecutive over-limit
/// checks (30 s at 20 Hz): from a run of `n` with the supply not cut, `k` more cut it
/// and set the over-current flag exactly when `k > 0` and `n + k >= 600`.
pub proof fn lemma_current_trip_after_run(m: ProtectionManager, k: nat)
    requires
        !m.servo_cut(),
        !m.flags_of().servo_overcurrent,
        m.overcurrent_run() + k < 65535,
    ensures
        overcurrent_checks(m, k).overcurrent_run() == m.overcurrent_run() + k,
        overcurrent_checks(m, k).servo_cut() <==> k > 0 && m.overcurrent_run() + k >= 600,
        overcurrent_checks(m, k).flags_of().servo_overcurrent <==> k > 0 && m.overcurrent_run()
            + k >= 600,
    decreases k,
{
    if k > 0 {
        lemma_current_trip_after_run(m, (k - 1) as nat);
    }
}

/// The protocol bit field of a flag set determines each flag.
pub proof fn lemma_flags_word_injective(a: ProtectionFlags, b: ProtectionFlags)
    requires
        flags_word(a) == flags_word(b),
    ensures
        a == b,
{
}

} // verus!
