//! The policy engine and the table of connected devices.

use killbill::killbilld::config::{validate, Config, LuksDestroy, RawConfig, WhitelistRule};
use killbill::killbilld::device_table::DeviceTable;
use killbill::killbilld::policy::{decide, Decision};
use killbill::proto::action::{KillReason, PowerAction};
use killbill::proto::sensor_event::{
    DeviceIdentity, EventKind, RawFields, SensorEvent, SensorSource, UsbId,
};

const WHITELISTED: UsbId = UsbId { vendor: 0x1050, product: 0x0407 };
const STRANGER: UsbId = UsbId { vendor: 0x0781, product: 0x5567 };
fn config(max: u32, dry_run: bool, power: PowerAction) -> Config {
    let mut cfg = validate(RawConfig::default()).unwrap();
    cfg.whitelist = vec![WhitelistRule {
        id: WHITELISTED,
        label: Some("YubiKey".to_owned()),
        max_count: max,
    }];
    cfg.dry_run = dry_run;
    cfg.power_action = power;
    cfg
}

fn event(kind: EventKind, id: Option<UsbId>) -> SensorEvent {
    SensorEvent {
        source: SensorSource::Usb,
        kind,
        identity: DeviceIdentity {
            usb_id: id,
            serial: None,
            label: None,
        },
        raw: RawFields::new(),
    }
}

fn reason(decision: Decision) -> KillReason {
    match decision {
        Decision::Act(a) => a.reason,
        Decision::Ignore => panic!("expected Act, got Ignore"),
    }
}
fn config_with_luks_destroy(power: PowerAction) -> Config {
    let mut cfg = config(1, false, power);
    cfg.luks_destroy = Some(LuksDestroy {
        target_header: "/dev/nvme0n1p3".to_owned(),
    });
    cfg
}

#[test]
fn unknown_device_added_fires() {
    let d = decide(
        &event(EventKind::Added, Some(STRANGER)),
        &config(1, false, PowerAction::PowerOff),
        &DeviceTable::new(),
        false,
    );
    assert_eq!(reason(d), KillReason::UnknownDevice { id: STRANGER });
}

#[test]
fn unidentified_device_added_fires() {
    let d = decide(
        &event(EventKind::Added, None),
        &config(1, false, PowerAction::PowerOff),
        &DeviceTable::new(),
        false,
    );
    assert_eq!(reason(d), KillReason::UnidentifiedDevice);
}

#[test]
fn whitelisted_device_added_within_count_is_ignored() {
    let d = decide(
        &event(EventKind::Added, Some(WHITELISTED)),
        &config(1, false, PowerAction::PowerOff),
        &DeviceTable::new(),
        false,
    );
    assert_eq!(d, Decision::Ignore);
}

#[test]
fn whitelisted_device_added_at_the_limit_is_ignored() {
    let table = DeviceTable::from_ids(&[WHITELISTED]);
    let d = decide(
        &event(EventKind::Added, Some(WHITELISTED)),
        &config(2, false, PowerAction::PowerOff),
        &table,
        false,
    );
    assert_eq!(d, Decision::Ignore);
}

#[test]
fn whitelisted_device_added_over_the_limit_fires_with_counts() {
    let table = DeviceTable::from_ids(&[WHITELISTED]);
    let d = decide(
        &event(EventKind::Added, Some(WHITELISTED)),
        &config(1, false, PowerAction::PowerOff),
        &table,
        false,
    );
    assert_eq!(
        reason(d),
        KillReason::CountExceeded {
            id: WHITELISTED,
            max: 1,
            seen: 2,
        }
    );
}

#[test]
fn whitelisted_device_removed_fires() {
    let d = decide(
        &event(EventKind::Removed, Some(WHITELISTED)),
        &config(1, false, PowerAction::PowerOff),
        &DeviceTable::new(),
        false,
    );
    assert_eq!(
        reason(d),
        KillReason::WhitelistedDeviceRemoved { id: WHITELISTED }
    );
}

#[test]
fn unknown_device_removed_fires() {
    let d = decide(
        &event(EventKind::Removed, Some(STRANGER)),
        &config(1, false, PowerAction::PowerOff),
        &DeviceTable::new(),
        false,
    );
    assert_eq!(reason(d), KillReason::DeviceRemoved { id: Some(STRANGER) });
}

#[test]
fn unidentified_device_removed_fires() {
    let d = decide(
        &event(EventKind::Removed, None),
        &config(1, false, PowerAction::PowerOff),
        &DeviceTable::new(),
        false,
    );
    assert_eq!(reason(d), KillReason::DeviceRemoved { id: None });
}

#[test]
fn dry_run_flag_is_carried_but_does_not_change_the_decision() {
    let ev = event(EventKind::Added, Some(STRANGER));
    let table = DeviceTable::new();

    let wet = decide(&ev, &config(1, false, PowerAction::PowerOff), &table, false);
    let dry = decide(&ev, &config(1, true, PowerAction::PowerOff), &table, false);

    match (wet, dry) {
        (Decision::Act(wet), Decision::Act(dry)) => {
            assert!(!wet.dry_run);
            assert!(dry.dry_run);
            assert_eq!(wet.reason, dry.reason);
        }
        other => panic!("expected both to Act, got {other:?}"),
    }
}

#[test]
fn power_action_is_taken_from_config() {
    let d = decide(
        &event(EventKind::Added, Some(STRANGER)),
        &config(1, false, PowerAction::Halt),
        &DeviceTable::new(),
        false,
    );
    match d {
        Decision::Act(a) => assert_eq!(a.power, PowerAction::Halt),
        Decision::Ignore => panic!("expected Act"),
    }
}

#[test]
fn luks_destroy_flag_reflects_config_presence() {
    let d = decide(
        &event(EventKind::Added, Some(STRANGER)),
        &config(1, false, PowerAction::PowerOff),
        &DeviceTable::new(),
        false,
    );
    match d {
        Decision::Act(a) => assert!(!a.luks_destroy),
        Decision::Ignore => panic!("expected Act"),
    }
}

#[test]
fn luks_destroy_requires_both_config_and_the_runtime_engaged_flag() {
    let ev = event(EventKind::Added, Some(STRANGER));
    let table = DeviceTable::new();
    let cfg = config_with_luks_destroy(PowerAction::PowerOff);
    match decide(&ev, &cfg, &table, false) {
        Decision::Act(a) => assert!(
            !a.luks_destroy,
            "must not destroy the header without the runtime engage toggle"
        ),
        Decision::Ignore => panic!("expected Act"),
    }
    match decide(&ev, &cfg, &table, true) {
        Decision::Act(a) => assert!(a.luks_destroy),
        Decision::Ignore => panic!("expected Act"),
    }
}

#[test]
fn engaged_flag_alone_does_nothing_without_config_acknowledgment() {
    let d = decide(
        &event(EventKind::Added, Some(STRANGER)),
        &config(1, false, PowerAction::PowerOff),
        &DeviceTable::new(),
        true,
    );
    match d {
        Decision::Act(a) => assert!(!a.luks_destroy),
        Decision::Ignore => panic!("expected Act"),
    }
}

#[test]
fn empty_whitelist_means_every_addition_is_unknown() {
    let cfg = validate(RawConfig::default()).unwrap();
    assert!(cfg.whitelist.is_empty());
    let d = decide(
        &event(EventKind::Added, Some(WHITELISTED)),
        &cfg,
        &DeviceTable::new(),
        false,
    );
    assert_eq!(reason(d), KillReason::UnknownDevice { id: WHITELISTED });
}

const A: UsbId = UsbId { vendor: 0x1050, product: 0x0407 };
const B: UsbId = UsbId { vendor: 0x1d6b, product: 0x0002 };

#[test]
fn insert_and_remove_track_counts() {
    let mut t = DeviceTable::new();
    assert_eq!(t.count(A), 0);
    assert_eq!(t.insert(A), 1);
    assert_eq!(t.insert(A), 2);
    assert_eq!(t.insert(B), 1);
    assert_eq!(t.total(), 3);
    assert_eq!(t.distinct(), 2);

    assert_eq!(t.remove(A), 1);
    assert_eq!(t.remove(A), 0);
    assert_eq!(t.count(A), 0);
    assert_eq!(t.distinct(), 1);
}

#[test]
fn removing_absent_id_is_a_noop() {
    let mut t = DeviceTable::new();
    assert_eq!(t.remove(A), 0);
    assert_eq!(t.total(), 0);
}

#[test]
fn collects_from_an_iterator_of_ids() {
    let t = DeviceTable::from_ids(&[A, A, B]);
    assert_eq!(t.count(A), 2);
    assert_eq!(t.count(B), 1);
}

#[test]
fn removing_undoes_inserting() {
    let mut t = DeviceTable::from_ids(&[A, B]);
    t.insert(A);
    t.remove(A);
    assert_eq!(t.count(A), 1);
    assert_eq!(t.count(B), 1);
    assert_eq!(t.total(), 2);
}

#[test]
fn a_table_lists_only_ids_that_have_a_device() {
    let mut table = DeviceTable::from_ids(&[WHITELISTED, WHITELISTED]);
    assert_eq!((table.count(WHITELISTED), table.distinct(), table.total()), (2, 1, 2));
    table.remove(WHITELISTED);
    table.remove(WHITELISTED);
    assert_eq!((table.count(WHITELISTED), table.distinct(), table.total()), (0, 0, 0));
    assert_eq!(table.remove(WHITELISTED), 0, "nothing is left to remove");
    assert_eq!(table, DeviceTable::default());
    let other = UsbId::new(1, 2);
    assert_eq!(
        DeviceTable::from_ids(&[WHITELISTED, other]),
        DeviceTable::from_ids(&[other, WHITELISTED])
    );
    assert_ne!(DeviceTable::from_ids(&[other, other]), DeviceTable::from_ids(&[other]));
}
