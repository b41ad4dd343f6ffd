use servo_robot_board::charge::{ChargePhase, HusbInterrupt};
use servo_robot_board::config::StateFlag;
use servo_robot_board::event::{
    apply_husb_interrupt, build_system_event_update, compute_error_flags, diff_and_update,
    protocol_charge_phase, set_charger_connected, BoardEvent, EventChargePhase, StateChangeFlags,
};
use servo_robot_board::protection::ProtectionFlags;

#[test]
fn charge_phases_map_to_host_phases() {
    assert_eq!(protocol_charge_phase(ChargePhase::Cc), EventChargePhase::Cc);
    assert_eq!(protocol_charge_phase(ChargePhase::Full), EventChargePhase::Full);
    assert_eq!(protocol_charge_phase(ChargePhase::HusbFault), EventChargePhase::PdSinkFault);
    assert_eq!(
        protocol_charge_phase(ChargePhase::Unsupported),
        EventChargePhase::UnsupportedCharger
    );
    assert_eq!(protocol_charge_phase(ChargePhase::Unknown), EventChargePhase::NotCharging);
    assert_eq!(
        protocol_charge_phase(ChargePhase::ThermalProtect),
        EventChargePhase::NotCharging
    );
}

#[test]
fn error_flags_follow_nonzero_counters() {
    let e = compute_error_flags(0, 3, 0, 1);
    assert!(!e.i2c1 && e.spi1 && !e.uart1 && e.usb);
    let none = compute_error_flags(0, 0, 0, 0);
    assert!(!none.i2c1 && !none.spi1 && !none.uart1 && !none.usb);
}

#[test]
fn state_flags_set_one_at_a_time() {
    let mut f = StateChangeFlags::empty();
    f.set(StateFlag::FanEnabled, true);
    assert!(f.contains(StateFlag::FanEnabled));
    assert!(!f.contains(StateFlag::ServoPowerOn));
    f.set(StateFlag::FanEnabled, false);
    assert_eq!(f, StateChangeFlags::empty());
}

#[test]
fn husb_fault_marks_pd_sink_fault() {
    let mut e = BoardEvent::new();
    e.charge_phase = EventChargePhase::Cc;
    apply_husb_interrupt(&mut e, HusbInterrupt { attached: true, attach_changed: true, fault: false });
    assert!(e.state_change_flags.charger_connected);
    assert_eq!(e.charge_phase, EventChargePhase::Cc);
    apply_husb_interrupt(&mut e, HusbInterrupt { attached: false, attach_changed: true, fault: true });
    assert!(!e.state_change_flags.charger_connected);
    assert_eq!(e.charge_phase, EventChargePhase::PdSinkFault);
    set_charger_connected(&mut e, true);
    assert!(e.state_change_flags.charger_connected);
}

#[test]
fn event_sent_only_on_change() {
    let mut prev = BoardEvent::new();
    let mut cur = BoardEvent::new();
    assert!(!diff_and_update(&mut prev, &cur));
    cur.error_flags = compute_error_flags(1, 0, 0, 0);
    assert!(diff_and_update(&mut prev, &cur));
    assert_eq!(prev, cur);
    // The same event again is no change.
    assert!(!diff_and_update(&mut prev, &cur));
}

#[test]
fn system_event_update_projects_inputs() {
    let mut p = ProtectionFlags::new();
    p.servo_thermal = true;
    let u = build_system_event_update(p, true, false, 0, 0, 2, 0);
    assert_eq!(u.protection_flags, p);
    assert!(u.fan_enabled && !u.charger_connected);
    assert!(u.error_flags.uart1 && !u.error_flags.i2c1);
}
