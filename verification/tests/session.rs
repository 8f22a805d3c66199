use trouble_host::prelude::{BondInformation, Identity, LongTermKey};
use volume_knob::gatt::{
    handle_gatt_event, EventPump, GattRequest, PumpAction, PumpEvent, PumpFailure, PumpState,
    RejectCode, Reply,
};
use volume_knob::hid::{KeyPressed, LinkEvent};
use volume_knob::notifier::{Notifier, NotifierAction};
use volume_knob::security::{BondTracker, SecurityLevel};
use volume_knob::session::{Ended, Fatal, HostAction, HostEvent, Peripheral, Phase};

fn bond(key: u128) -> BondInformation {
    BondInformation::new(
        Identity::default(),
        LongTermKey::new(key),
        trouble_host::prelude::SecurityLevel::EncryptedAuthenticated,
        true,
    )
}

const REJECT: Reply = Reply::Reject(RejectCode::InsufficientAuthentication);

#[test]
fn only_the_authenticated_level_is_authenticated() {
    assert!(!SecurityLevel::NoEncryption.authenticated());
    assert!(!SecurityLevel::Encrypted.authenticated());
    assert!(SecurityLevel::EncryptedAuthenticated.authenticated());
}

#[test]
fn read_without_authentication_is_rejected() {
    for level in [SecurityLevel::NoEncryption, SecurityLevel::Encrypted] {
        let d = handle_gatt_event(GattRequest::Read { handle: 12 }, Some(level), 3);
        assert_eq!(d.reply, REJECT);
        assert!(!d.level_missing);
    }
}

#[test]
fn write_without_authentication_is_rejected() {
    for level in [SecurityLevel::NoEncryption, SecurityLevel::Encrypted] {
        let d = handle_gatt_event(GattRequest::Write { handle: 12 }, Some(level), 3);
        assert_eq!(d.reply, REJECT);
        assert!(!d.level_missing);
    }
}

#[test]
fn authenticated_requests_are_accepted() {
    let level = Some(SecurityLevel::EncryptedAuthenticated);
    assert_eq!(handle_gatt_event(GattRequest::Read { handle: 1 }, level, 3).reply, Reply::Accept);
    assert_eq!(handle_gatt_event(GattRequest::Write { handle: 2 }, level, 3).reply, Reply::Accept);
}

#[test]
fn other_requests_are_accepted_at_any_level() {
    for level in [None, Some(SecurityLevel::NoEncryption), Some(SecurityLevel::Encrypted)] {
        let d = handle_gatt_event(GattRequest::Other, level, 3);
        assert_eq!(d.reply, Reply::Accept);
        assert!(!d.level_missing);
        assert!(!d.watched);
    }
}

#[test]
fn unknown_level_is_rejected_and_reported() {
    let d = handle_gatt_event(GattRequest::Read { handle: 3 }, None, 3);
    assert_eq!(d.reply, REJECT);
    assert!(d.level_missing);
    let d = handle_gatt_event(GattRequest::Write { handle: 3 }, None, 3);
    assert_eq!(d.reply, REJECT);
    assert!(d.level_missing);
}

#[test]
fn watched_handle_is_reported_for_reads_and_writes() {
    let level = Some(SecurityLevel::EncryptedAuthenticated);
    assert!(handle_gatt_event(GattRequest::Read { handle: 3 }, level, 3).watched);
    assert!(handle_gatt_event(GattRequest::Write { handle: 3 }, level, 3).watched);
    assert!(!handle_gatt_event(GattRequest::Read { handle: 4 }, level, 3).watched);
    assert!(handle_gatt_event(GattRequest::Read { handle: 3 }, None, 3).watched);
}

#[test]
fn bond_tracker_starts_empty_and_keeps_the_latest_pairing() {
    let mut bonds = BondTracker::new();
    assert!(!bonds.has_bond());
    assert!(bonds.bondable());
    assert_eq!(*bonds.bond(), None);
    bonds.record(Some(bond(1)));
    assert!(bonds.has_bond());
    assert!(!bonds.bondable());
    assert_eq!(*bonds.bond(), Some(bond(1)));
    bonds.record(Some(bond(2)));
    assert_eq!(*bonds.bond(), Some(bond(2)));
    bonds.record(None);
    assert!(bonds.bondable());
}

#[test]
fn pump_answers_each_request_once() {
    let mut pump = EventPump::new(9);
    let mut bonds = BondTracker::new();
    let events = [
        (GattRequest::Read { handle: 9 }, SecurityLevel::NoEncryption, REJECT, true),
        (GattRequest::Write { handle: 8 }, SecurityLevel::Encrypted, REJECT, false),
        (GattRequest::Other, SecurityLevel::NoEncryption, Reply::Accept, false),
        (GattRequest::Read { handle: 8 }, SecurityLevel::EncryptedAuthenticated, Reply::Accept, false),
        (GattRequest::Write { handle: 9 }, SecurityLevel::EncryptedAuthenticated, Reply::Accept, true),
    ];
    for (request, level, reply, watched) in events {
        let action = pump.step(PumpEvent::Gatt { request, level: Some(level) }, &mut bonds);
        assert_eq!(action, PumpAction::Reply { reply, watched });
        assert!(pump.is_active());
    }
}

#[test]
fn pump_keeps_running_through_pairing_events() {
    let mut pump = EventPump::new(9);
    let mut bonds = BondTracker::new();
    assert_eq!(pump.step(PumpEvent::PassKeyDisplay(123456), &mut bonds), PumpAction::Display(123456));
    assert_eq!(pump.step(PumpEvent::PassKeyConfirm(654321), &mut bonds), PumpAction::Confirm);
    assert_eq!(pump.step(PumpEvent::PassKeyInput, &mut bonds), PumpAction::Nothing);
    assert_eq!(pump.step(PumpEvent::PairingFailed, &mut bonds), PumpAction::Nothing);
    assert_eq!(pump.step(PumpEvent::Other, &mut bonds), PumpAction::Nothing);
    assert!(pump.is_active());
    assert_eq!(pump.current(), PumpState::Active);
    assert!(!bonds.has_bond());
}

#[test]
fn completed_pairing_replaces_the_bond() {
    let mut pump = EventPump::new(9);
    let mut bonds = BondTracker::new();
    let level = SecurityLevel::EncryptedAuthenticated;
    let action = pump
        .step(PumpEvent::PairingComplete { security_level: level, bond: Some(bond(7)) }, &mut bonds);
    assert_eq!(action, PumpAction::Nothing);
    assert_eq!(*bonds.bond(), Some(bond(7)));
    pump.step(PumpEvent::PairingComplete { security_level: level, bond: Some(bond(8)) }, &mut bonds);
    assert_eq!(*bonds.bond(), Some(bond(8)));
    pump.step(PumpEvent::PairingComplete { security_level: level, bond: None }, &mut bonds);
    assert_eq!(*bonds.bond(), None);
    assert!(pump.is_active());
}

#[test]
fn disconnect_ends_the_pump() {
    let mut pump = EventPump::new(9);
    let mut bonds = BondTracker::new();
    assert_eq!(pump.step(PumpEvent::Disconnected { reason: 0x13 }, &mut bonds), PumpAction::Nothing);
    assert!(!pump.is_active());
    assert_eq!(pump.current(), PumpState::Disconnected { reason: 0x13 });
    // nothing is answered, and nothing recorded, after the end
    let request = GattRequest::Read { handle: 9 };
    let action = pump.step(PumpEvent::Gatt { request, level: None }, &mut bonds);
    assert_eq!(action, PumpAction::Nothing);
    let level = SecurityLevel::Encrypted;
    pump.step(PumpEvent::PairingComplete { security_level: level, bond: Some(bond(1)) }, &mut bonds);
    assert!(!bonds.has_bond());
    assert_eq!(pump.current(), PumpState::Disconnected { reason: 0x13 });
}

#[test]
fn refused_confirmation_ends_the_pump() {
    let mut pump = EventPump::new(9);
    let mut bonds = BondTracker::new();
    assert_eq!(pump.step(PumpEvent::PassKeyConfirm(1), &mut bonds), PumpAction::Confirm);
    assert_eq!(pump.step(PumpEvent::ConfirmRefused, &mut bonds), PumpAction::Nothing);
    assert_eq!(pump.current(), PumpState::Failed(PumpFailure::ConfirmRefused));
}

#[test]
fn request_on_a_lost_link_is_rejected_and_ends_the_pump() {
    let mut pump = EventPump::new(9);
    let mut bonds = BondTracker::new();
    let request = GattRequest::Write { handle: 9 };
    let action = pump.step(PumpEvent::Gatt { request, level: None }, &mut bonds);
    assert_eq!(action, PumpAction::Reply { reply: REJECT, watched: true });
    assert_eq!(pump.current(), PumpState::Failed(PumpFailure::SecurityLevelUnavailable));
}

#[test]
fn first_connection_may_bond() {
    let bonds = BondTracker::new();
    let (mut peripheral, first) = Peripheral::start();
    assert_eq!(first, HostAction::Advertise);
    assert_eq!(peripheral.phase(), Phase::Advertising);
    let action = peripheral.step(HostEvent::Accepted, &bonds);
    assert_eq!(action, HostAction::RunSession { bondable: true });
    assert_eq!(peripheral.phase(), Phase::Connected);
}

#[test]
fn connection_after_a_bond_may_not_bond() {
    let mut bonds = BondTracker::new();
    bonds.record(Some(bond(3)));
    let (mut peripheral, _) = Peripheral::start();
    let action = peripheral.step(HostEvent::Accepted, &bonds);
    assert_eq!(action, HostAction::RunSession { bondable: false });
}

#[test]
fn bond_made_in_one_session_closes_the_next() {
    let mut bonds = BondTracker::new();
    let (mut peripheral, _) = Peripheral::start();
    assert_eq!(
        peripheral.step(HostEvent::Accepted, &bonds),
        HostAction::RunSession { bondable: true }
    );
    let mut pump = EventPump::new(9);
    let level = SecurityLevel::EncryptedAuthenticated;
    pump.step(PumpEvent::PairingComplete { security_level: level, bond: Some(bond(5)) }, &mut bonds);
    pump.step(PumpEvent::Disconnected { reason: 0x13 }, &mut bonds);
    assert_eq!(
        peripheral.step(HostEvent::SessionEnded(Ended::EventPump), &bonds),
        HostAction::Advertise
    );
    assert_eq!(
        peripheral.step(HostEvent::Accepted, &bonds),
        HostAction::RunSession { bondable: false }
    );
}

#[test]
fn disconnect_in_mid_delay_returns_to_advertising() {
    let mut bonds = BondTracker::new();
    let (mut peripheral, _) = Peripheral::start();
    peripheral.step(HostEvent::Accepted, &bonds);
    let mut pump = EventPump::new(9);
    let (mut notifier, first) = Notifier::start();
    assert_eq!(first, NotifierAction::Notify(KeyPressed::VolUp));
    // the notifier is in its hold time when the link closes
    assert_eq!(notifier.step(LinkEvent::Notified), NotifierAction::Wait(50));
    pump.step(PumpEvent::Disconnected { reason: 0x08 }, &mut bonds);
    assert!(!pump.is_active());
    let action = peripheral.step(HostEvent::SessionEnded(Ended::EventPump), &bonds);
    assert_eq!(action, HostAction::Advertise);
    assert_eq!(peripheral.phase(), Phase::Advertising);
    // the next connection starts a session of its own
    assert_eq!(
        peripheral.step(HostEvent::Accepted, &bonds),
        HostAction::RunSession { bondable: true }
    );
    let (fresh, first) = Notifier::start();
    assert_eq!(first, NotifierAction::Notify(KeyPressed::VolUp));
    assert!(!fresh.is_stopped());
    assert!(EventPump::new(9).is_active());
}

#[test]
fn failed_notification_returns_to_advertising() {
    let bonds = BondTracker::new();
    let (mut peripheral, _) = Peripheral::start();
    peripheral.step(HostEvent::Accepted, &bonds);
    let (mut notifier, _) = Notifier::start();
    assert_eq!(notifier.step(LinkEvent::NotifyFailed), NotifierAction::Stop);
    let action = peripheral.step(HostEvent::SessionEnded(Ended::Notifier), &bonds);
    assert_eq!(action, HostAction::Advertise);
    assert_eq!(peripheral.phase(), Phase::Advertising);
}

#[test]
fn advertising_failure_halts() {
    let bonds = BondTracker::new();
    let (mut peripheral, _) = Peripheral::start();
    let action = peripheral.step(HostEvent::AdvertisingFailed, &bonds);
    assert_eq!(action, HostAction::Halt(Fatal::Advertising));
    assert_eq!(peripheral.phase(), Phase::Halted);
    assert_eq!(peripheral.step(HostEvent::Accepted, &bonds), HostAction::Nothing);
    assert_eq!(
        peripheral.step(HostEvent::SessionEnded(Ended::EventPump), &bonds),
        HostAction::Nothing
    );
    assert_eq!(peripheral.step(HostEvent::AdvertisingFailed, &bonds), HostAction::Nothing);
    assert_eq!(peripheral.phase(), Phase::Halted);
}

#[test]
fn run_loop_policy_is_the_same_in_every_phase() {
    let bonds = BondTracker::new();
    // halted by an advertising failure
    let (mut peripheral, _) = Peripheral::start();
    peripheral.step(HostEvent::AdvertisingFailed, &bonds);
    assert_eq!(
        peripheral.step(HostEvent::RunnerReturned { failed: false }, &bonds),
        HostAction::RestartRunner
    );
    assert_eq!(peripheral.phase(), Phase::Halted);
    assert_eq!(
        peripheral.step(HostEvent::RunnerReturned { failed: true }, &bonds),
        HostAction::Halt(Fatal::Runner)
    );
    assert_eq!(peripheral.phase(), Phase::Halted);
    // advertising
    let (mut peripheral, _) = Peripheral::start();
    assert_eq!(peripheral.runner_returned(false), HostAction::RestartRunner);
    assert_eq!(peripheral.phase(), Phase::Advertising);
    assert_eq!(peripheral.runner_returned(true), HostAction::Halt(Fatal::Runner));
    assert_eq!(peripheral.phase(), Phase::Halted);
    // connected
    let (mut peripheral, _) = Peripheral::start();
    peripheral.step(HostEvent::Accepted, &bonds);
    assert_eq!(peripheral.runner_returned(false), HostAction::RestartRunner);
    assert_eq!(peripheral.phase(), Phase::Connected);
    assert_eq!(peripheral.runner_returned(true), HostAction::Halt(Fatal::Runner));
    assert_eq!(peripheral.phase(), Phase::Halted);
}

#[test]
fn answers_come_in_the_order_of_the_requests() {
    let mut pump = EventPump::new(9);
    let mut bonds = BondTracker::new();
    let authenticated = Some(SecurityLevel::EncryptedAuthenticated);
    let events = vec![
        PumpEvent::Gatt { request: GattRequest::Read { handle: 1 }, level: authenticated },
        PumpEvent::PairingFailed,
        PumpEvent::Gatt { request: GattRequest::Write { handle: 2 }, level: Some(SecurityLevel::Encrypted) },
        PumpEvent::PassKeyInput,
        PumpEvent::Other,
        PumpEvent::Gatt { request: GattRequest::Other, level: None },
        PumpEvent::Gatt { request: GattRequest::Write { handle: 9 }, level: authenticated },
        PumpEvent::Gatt { request: GattRequest::Read { handle: 9 }, level: None },
        PumpEvent::Gatt { request: GattRequest::Read { handle: 9 }, level: authenticated },
        PumpEvent::PassKeyDisplay(1),
    ];
    let mut replies = Vec::new();
    for event in events {
        if let PumpAction::Reply { reply, .. } = pump.step(event, &mut bonds) {
            replies.push(reply);
        }
    }
    assert_eq!(replies, vec![Reply::Accept, REJECT, Reply::Accept, Reply::Accept, REJECT]);
    assert_eq!(pump.current(), PumpState::Failed(PumpFailure::SecurityLevelUnavailable));
}

#[test]
fn bond_slot_holds_the_last_pairing_of_a_run() {
    let level = SecurityLevel::EncryptedAuthenticated;
    let mut pump = EventPump::new(9);
    let mut bonds = BondTracker::new();
    bonds.record(Some(bond(1)));
    let events = vec![
        PumpEvent::PassKeyConfirm(7),
        PumpEvent::PairingFailed,
        PumpEvent::PairingComplete { security_level: level, bond: Some(bond(2)) },
        PumpEvent::Other,
        PumpEvent::PairingComplete { security_level: level, bond: Some(bond(3)) },
        PumpEvent::Gatt { request: GattRequest::Read { handle: 9 }, level: Some(level) },
        PumpEvent::Disconnected { reason: 0x13 },
        PumpEvent::PairingComplete { security_level: level, bond: Some(bond(4)) },
    ];
    for event in events {
        pump.step(event, &mut bonds);
    }
    assert_eq!(*bonds.bond(), Some(bond(3)));

    // a run without a completed pairing leaves the slot as it was
    let mut pump = EventPump::new(9);
    for event in [PumpEvent::PairingFailed, PumpEvent::PassKeyInput, PumpEvent::Other] {
        pump.step(event, &mut bonds);
    }
    assert_eq!(*bonds.bond(), Some(bond(3)));
}

#[test]
fn refused_bonding_flag_halts() {
    let bonds = BondTracker::new();
    let (mut peripheral, _) = Peripheral::start();
    peripheral.step(HostEvent::Accepted, &bonds);
    let action = peripheral.step(HostEvent::BondableRefused, &bonds);
    assert_eq!(action, HostAction::Halt(Fatal::Bonding));
    assert_eq!(peripheral.phase(), Phase::Halted);
}

#[test]
fn runner_error_halts_and_clean_return_restarts() {
    let bonds = BondTracker::new();
    let (mut peripheral, _) = Peripheral::start();
    assert_eq!(
        peripheral.step(HostEvent::RunnerReturned { failed: false }, &bonds),
        HostAction::RestartRunner
    );
    assert_eq!(peripheral.phase(), Phase::Advertising);
    peripheral.step(HostEvent::Accepted, &bonds);
    assert_eq!(
        peripheral.step(HostEvent::RunnerReturned { failed: false }, &bonds),
        HostAction::RestartRunner
    );
    assert_eq!(peripheral.phase(), Phase::Connected);
    assert_eq!(
        peripheral.step(HostEvent::RunnerReturned { failed: true }, &bonds),
        HostAction::Halt(Fatal::Runner)
    );
    assert_eq!(peripheral.phase(), Phase::Halted);
}

#[test]
fn second_accept_does_not_start_a_second_session() {
    let bonds = BondTracker::new();
    let (mut peripheral, _) = Peripheral::start();
    peripheral.step(HostEvent::Accepted, &bonds);
    assert_eq!(peripheral.step(HostEvent::Accepted, &bonds), HostAction::Nothing);
    assert_eq!(peripheral.step(HostEvent::AdvertisingFailed, &bonds), HostAction::Nothing);
    assert_eq!(peripheral.phase(), Phase::Connected);
}

#[test]
fn session_end_without_a_session_is_ignored() {
    let bonds = BondTracker::new();
    let (mut peripheral, _) = Peripheral::start();
    assert_eq!(
        peripheral.step(HostEvent::SessionEnded(Ended::Notifier), &bonds),
        HostAction::Nothing
    );
    assert_eq!(peripheral.step(HostEvent::BondableRefused, &bonds), HostAction::Nothing);
    assert_eq!(peripheral.phase(), Phase::Advertising);
}
