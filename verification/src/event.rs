//! The board event: the state that is reported to the host whenever it changes.
//!
//! Each task updates its part of the event (charge phase, state flags, protection
//! and error flags); the event task sends the event only when one of those parts
//! differs from what was last sent.
use vstd::prelude::*;
use crate::charge::{ChargePhase, HusbInterrupt};
use crate::config::StateFlag;
use crate::protection::ProtectionFlags;

verus! {

/// The charge phase as the host sees it.
#[derive(Debug, Clone, Copy, PartialEq, Eq, Structural)]
pub enum EventChargePhase {
    NotCharging,
    PreCharge,
    Cc,
    Cv,
    Full,
    PdSinkFault,
    UnsupportedCharger,
}

/// Board state flags reported in the event.
#[derive(Debug, Clone, Copy, PartialEq, Eq, Structural)]
pub struct StateChangeFlags {
    pub servo_power_on: bool,
    pub power_5v_on: bool,
    pub bat_ext_out_on: bool,
    pub fan_enabled: bool,
    pub charger_connected: bool,
}

/// Bus error flags: set for each bus whose error counter is not zero.
#[derive(Debug, Clone, Copy, PartialEq, Eq, Structural)]
pub struct ErrorFlags {
    pub i2c1: bool,
    pub spi1: bool,
    pub uart1: bool,
    pub usb: bool,
}

/// The reported board event.
#[derive(Debug, Clone, Copy, PartialEq, Eq, Structural)]
pub struct BoardEvent {
    pub charge_phase: EventChargePhase,
    pub state_change_flags: StateChangeFlags,
    pub protection_flags: ProtectionFlags,
    pub error_flags: ErrorFlags,
}

/// The host-side phase of a charge phase: faults and the unsupported charger keep
/// their own phase, the unknown and thermal-protect phases read as not charging.
pub open spec fn event_phase(phase: ChargePhase) -> EventChargePhase {
    match phase {
        ChargePhase::NotCharging => EventChargePhase::NotCharging,
        ChargePhase::PreCharge => EventChargePhase::PreCharge,
        ChargePhase::Cc => EventChargePhase::Cc,
        ChargePhase::Cv => EventChargePhase::Cv,
        ChargePhase::Full => EventChargePhase::Full,
        ChargePhase::HusbFault => EventChargePhase::PdSinkFault,
        ChargePhase::Unsupported => EventChargePhase::UnsupportedCharger,
        ChargePhase::Unknown | ChargePhase::ThermalProtect => EventChargePhase::NotCharging,
    }
}

/// Whether a flag is set.
pub open spec fn flag_set(s: StateChangeFlags, flag: StateFlag) -> bool {
    match flag {
        StateFlag::ServoPowerOn => s.servo_power_on,
        StateFlag::Power5vOn => s.power_5v_on,
        StateFlag::BatExtOutOn => s.bat_ext_out_on,
        StateFlag::FanEnabled => s.fan_enabled,
        StateFlag::ChargerConnected => s.charger_connected,
    }
}

/// Whether two events differ in a part that is reported.
pub open spec fn event_changed(prev: BoardEvent, current: BoardEvent) -> bool {
    current.charge_phase != prev.charge_phase || current.state_change_flags
        != prev.state_change_flags || current.protection_flags != prev.protection_flags
        || current.error_flags != prev.error_flags
}

/// Map the charge manager's phase to the host-side phase.
pub fn protocol_charge_phase(phase: ChargePhase) -> (r: EventChargePhase)
    ensures
        r == event_phase(phase),
{
    match phase {
        ChargePhase::NotCharging => EventChargePhase::NotCharging,
        ChargePhase::PreCharge => EventChargePhase::PreCharge,
        ChargePhase::Cc => EventChargePhase::Cc,
        ChargePhase::Cv => EventChargePhase::Cv,
        ChargePhase::Full => EventChargePhase::Full,
        ChargePhase::HusbFault => EventChargePhase::PdSinkFault,
        ChargePhase::Unsupported => EventChargePhase::UnsupportedCharger,
        ChargePhase::Unknown | ChargePhase::ThermalProtect => EventChargePhase::NotCharging,
    }
}

impl StateChangeFlags {
    /// No flag set.
    pub fn empty() -> (r: Self)
        ensures
            forall|f: StateFlag| !flag_set(r, f),
    {
        StateChangeFlags {
            servo_power_on: false,
            power_5v_on: false,
            bat_ext_out_on: false,
            fan_enabled: false,
            charger_connected: false,
        }
    }

    /// Whether `flag` is set.
    pub fn contains(&self, flag: StateFlag) -> (r: bool)
        ensures
            r == flag_set(*self, flag),
    {
        match flag {
            StateFlag::ServoPowerOn => self.servo_power_on,
            StateFlag::Power5vOn => self.power_5v_on,
            StateFlag::BatExtOutOn => self.bat_ext_out_on,
            StateFlag::FanEnabled => self.fan_enabled,
            StateFlag::ChargerConnected => self.charger_connected,
        }
    }

    /// Set or clear `flag`, leaving the others as they are.
    pub fn set(&mut self, flag: StateFlag, on: bool)
        ensures
            flag_set(*final(self), flag) == on,
            forall|f: StateFlag| f != flag ==> flag_set(*final(self), f) == flag_set(*old(self), f),
    {
        match flag {
            StateFlag::ServoPowerOn => self.servo_power_on = on,
            StateFlag::Power5vOn => self.power_5v_on = on,
            StateFlag::BatExtOutOn => self.bat_ext_out_on = on,
            StateFlag::FanEnabled => self.fan_enabled = on,
            StateFlag::ChargerConnected => self.charger_connected = on,
        }
    }
}

impl ErrorFlags {
    /// No error flag set.
    pub fn empty() -> (r: Self)
        ensures
            !r.i2c1 && !r.spi1 && !r.uart1 && !r.usb,
    {
        ErrorFlags { i2c1: false, spi1: false, uart1: false, usb: false }
    }
}

impl BoardEvent {
    /// The event at power-up: not charging, nothing set.
    pub fn new() -> (r: Self)
        ensures
            r.charge_phase == EventChargePhase::NotCharging,
            forall|f: StateFlag| !flag_set(r.state_change_flags, f),
            !r.protection_flags.servo_overcurrent && !r.protection_flags.servo_thermal
                && !r.protection_flags.dcdc_5v_thermal && !r.protection_flags.charge_derating
                && !r.protection_flags.charge_thermal && !r.protection_flags.battery_low,
            !r.error_flags.i2c1 && !r.error_flags.spi1 && !r.error_flags.uart1
                && !r.error_flags.usb,
    {
        BoardEvent {
            charge_phase: EventChargePhase::NotCharging,
            state_change_flags: StateChangeFlags::empty(),
            protection_flags: ProtectionFlags::new(),
            error_flags: ErrorFlags::empty(),
        }
    }
}

/// Error flags from the bus error counters.
pub fn compute_error_flags(i2c_errors: u16, spi_errors: u16, uart_errors: u16, usb_errors: u16) -> (r:
    ErrorFlags)
    ensures
        r.i2c1 == (i2c_errors > 0),
        r.spi1 == (spi_errors > 0),
        r.uart1 == (uart_errors > 0),
        r.usb == (usb_errors > 0),
{
    let mut err = ErrorFlags::empty();
    if i2c_errors > 0 {
        err.i2c1 = true;
    }
    if spi_errors > 0 {
        err.spi1 = true;
    }
    if uart_errors > 0 {
        err.uart1 = true;
    }
    if usb_errors > 0 {
        err.usb = true;
    }
    err
}

/// Record whether a charger is connected (the BC_ACOK level).
pub fn set_charger_connected(event: &mut BoardEvent, connected: bool)
    ensures
        final(event).charge_phase == old(event).charge_phase,
        final(event).protection_flags == old(event).protection_flags,
        final(event).error_flags == old(event).error_flags,
        final(event).state_change_flags.charger_connected == connected,
        forall|f: StateFlag|
            f != StateFlag::ChargerConnected ==> flag_set(final(event).state_change_flags, f)
                == flag_set(old(event).state_change_flags, f),
{
    event.state_change_flags.set(StateFlag::ChargerConnected, connected);
}

/// Apply a HUSB238A interrupt snapshot: record the attachment, and report a PD sink
/// fault when the interrupt carried one.
pub fn apply_husb_interrupt(event: &mut BoardEvent, interrupt: HusbInterrupt)
    ensures
        final(event).state_change_flags.charger_connected == interrupt.attached,
        forall|f: StateFlag|
            f != StateFlag::ChargerConnected ==> flag_set(final(event).state_change_flags, f)
                == flag_set(old(event).state_change_flags, f),
        final(event).charge_phase == (if interrupt.fault {
            EventChargePhase::PdSinkFault
        } else {
            old(event).charge_phase
        }),
        final(event).protection_flags == old(event).protection_flags,
        final(event).error_flags == old(event).error_flags,
{
    set_charger_connected(event, interrupt.attached);
    if interrupt.fault {
        event.charge_phase = EventChargePhase::PdSinkFault;
    }
}

/// Compare the current event with the one last sent. When a reported part differs,
/// remember the current event and return `true`; otherwise return `false` and leave
/// `prev` as it was.
pub fn diff_and_update(prev: &mut BoardEvent, current: &BoardEvent) -> (r: bool)
    ensures
        r == event_changed(*old(prev), *current),
        *final(prev) == (if r {
            *current
        } else {
            *old(prev)
        }),
{
    if current.charge_phase != prev.charge_phase || current.state_change_flags
        != prev.state_change_flags || current.protection_flags != prev.protection_flags
        || current.error_flags != prev.error_flags {
        *prev = *current;
        true
    } else {
        false
    }
}

/// The parts of the event that one system telemetry tick computes.
#[derive(Debug, Clone, Copy, PartialEq, Eq, Structural)]
pub struct SystemEventUpdate {
    pub protection_flags: ProtectionFlags,
    pub error_flags: ErrorFlags,
    pub fan_enabled: bool,
    pub charger_connected: bool,
}

/// Project the protection state, the fan and charger levels and the bus error
/// counters of one telemetry tick onto the event.
pub fn build_system_event_update(
    protection: ProtectionFlags,
    fan_enabled: bool,
    charger_connected: bool,
    i2c_errors: u16,
    spi_errors: u16,
    uart_errors: u16,
    usb_errors: u16,
) -> (r: SystemEventUpdate)
    ensures
        r.protection_flags == protection,
        r.fan_enabled == fan_enabled,
        r.charger_connected == charger_connected,
        r.error_flags.i2c1 == (i2c_errors > 0),
        r.error_flags.spi1 == (spi_errors > 0),
        r.error_flags.uart1 == (uart_errors > 0),
        r.error_flags.usb == (usb_errors > 0),
{
    SystemEventUpdate {
        protection_flags: protection,
        error_flags: compute_error_flags(i2c_errors, spi_errors, uart_errors, usb_errors),
        fan_enabled,
        charger_connected,
    }
}

/// Once an event has been remembered, comparing the same event again reports no
/// change and leaves the remembered event as it is.
pub proof fn lemma_diff_settles(prev: BoardEvent, current: BoardEvent)
    ensures
        !event_changed(if event_changed(prev, current) { current } else { prev }, current),
{
}

} // verus!
