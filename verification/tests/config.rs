//! Config validation, and how the config file is written.

use killbill::killbilld::config::{
    default_sensors, validate, ConfigError, RawConfig, RawDetection, RawGeneral, RawLuksDestroy,
    RawResponse, RawWhitelistEntry, SensorGapAction, SensorName,
};
use killbill::killbilld::config_store::{
    essential, file_contents, replacement_mode, temp_name, tightening_line, write_steps,
    ConfigWriteError, ExistingConfig, WriteStep,
};
use killbill::proto::action::PowerAction;
use killbill::proto::sensor_event::UsbId;

fn flag(t: Option<&toml::Value>, key: &str) -> bool {
    t.and_then(|v| v.get(key)).and_then(toml::Value::as_bool).unwrap_or(false)
}

fn word(t: Option<&toml::Value>, key: &str) -> Option<String> {
    t.and_then(|v| v.get(key)).and_then(toml::Value::as_str).map(str::to_owned)
}

fn number(t: &toml::Value, key: &str) -> Option<u32> {
    t.get(key).and_then(toml::Value::as_integer).map(|n| n as u32)
}

fn parse(toml_src: &str) -> RawConfig {
    let doc: toml::Value = toml::from_str(toml_src).expect("test TOML should parse");
    let response = doc.get("response");
    RawConfig {
        general: RawGeneral { armed_at_boot: flag(doc.get("general"), "armed_at_boot") },
        detection: RawDetection {
            sensors: match doc.get("detection").and_then(|d| d.get("sensors")) {
                Some(names) => names
                    .as_array()
                    .unwrap()
                    .iter()
                    .map(|n| n.as_str().unwrap().to_owned())
                    .collect(),
                None => default_sensors(),
            },
        },
        whitelist: match doc.get("whitelist") {
            Some(entries) => entries
                .as_array()
                .unwrap()
                .iter()
                .map(|e| RawWhitelistEntry {
                    id: word(Some(e), "id").unwrap(),
                    label: word(Some(e), "label"),
                    max_count: number(e, "max_count"),
                })
                .collect(),
            None => vec![],
        },
        response: RawResponse {
            dry_run: flag(response, "dry_run"),
            power_action: word(response, "power_action"),
            lock_screen_first: flag(response, "lock_screen_first"),
            on_sensor_gap: word(response, "on_sensor_gap"),
            luks_destroy: response.and_then(|r| r.get("luks_destroy")).map(|l| RawLuksDestroy {
                i_understand_this_is_irreversible: flag(
                    Some(l),
                    "i_understand_this_is_irreversible",
                ),
                target_header: word(Some(l), "target_header"),
            }),
        },
    }
}

/// The config that a fresh install starts from.
const EXAMPLE: &str = r#"
[general]
armed_at_boot = false

[detection]
sensors = ["usb"]

[[whitelist]]
id = "1234:5678"
label = "YubiKey 5C"
max_count = 1

[response]
dry_run = true
power_action = "poweroff"
lock_screen_first = false
on_sensor_gap = "warn"
"#;

#[test]
fn the_shipped_example_config_loads_and_validates() {
    let cfg = validate(parse(EXAMPLE)).expect("example config should validate");
    assert!(cfg.dry_run, "the example ships in dry-run mode");
    assert_eq!(cfg.whitelist.len(), 1);
    assert!(cfg.luks_destroy.is_none(), "luks_destroy is commented out");
}

#[test]
fn empty_config_is_valid_and_uses_defaults() {
    let cfg = validate(RawConfig::default()).expect("defaults are valid");
    assert_eq!(cfg.sensors, vec![SensorName::Usb]);
    assert_eq!(cfg.power_action, PowerAction::PowerOff);
    assert!(cfg.whitelist.is_empty());
    assert!(cfg.luks_destroy.is_none());
    assert!(!cfg.armed_at_boot);
    assert!(!cfg.dry_run);
}

#[test]
fn full_config_from_the_charter_example_validates() {
    let cfg = validate(parse(
        r#"
        [general]
        armed_at_boot = true

        [detection]
        sensors = ["usb"]

        [[whitelist]]
        id = "1234:5678"
        label = "YubiKey 5C"
        max_count = 1

        [[whitelist]]
        id = "1d6b:0002"
        label = "Linux Foundation root hub"
        max_count = 4

        [response]
        dry_run = false
        power_action = "poweroff"
        lock_screen_first = false
        "#,
    ))
    .expect("the full config should validate");

    assert!(cfg.armed_at_boot);
    assert_eq!(cfg.whitelist.len(), 2);
    assert_eq!(cfg.whitelist[0].id, UsbId::new(0x1234, 0x5678));
    assert_eq!(cfg.whitelist[1].max_count, 4);
}

#[test]
fn missing_max_count_resolves_to_one() {
    let cfg = validate(parse(
        r#"
        [[whitelist]]
        id = "1050:0407"
        "#,
    ))
    .unwrap();
    assert_eq!(cfg.whitelist[0].max_count, 1);
}

#[test]
fn acknowledged_luks_destroy_with_dev_target_validates() {
    let cfg = validate(parse(
        r#"
        [response.luks_destroy]
        i_understand_this_is_irreversible = true
        target_header = "/dev/nvme0n1p3"
        "#,
    ))
    .expect("acknowledged + /dev target is valid");
    assert_eq!(
        cfg.luks_destroy.unwrap().target_header,
        "/dev/nvme0n1p3"
    );
}

fn errs(toml_src: &str) -> Vec<ConfigError> {
    validate(parse(toml_src))
        .expect_err("expected this config to be rejected")
        .errors
}

#[test]
fn explicit_empty_sensor_list_is_rejected() {
    let raw = parse(
        r#"
        [detection]
        sensors = []
        "#,
    );
    assert!(validate(raw)
        .unwrap_err()
        .errors
        .contains(&ConfigError::NoSensors));
}

#[test]
fn unknown_sensor_is_rejected() {
    assert!(errs(
        r#"
        [detection]
        sensors = ["usb", "bluetooth"]
        "#,
    )
    .iter()
    .any(|e| matches!(e, ConfigError::UnknownSensor { name } if name == "bluetooth")));
}

#[test]
fn malformed_whitelist_id_is_rejected() {
    assert!(errs(
        r#"
        [[whitelist]]
        id = "not-an-id"
        "#,
    )
    .iter()
    .any(|e| matches!(e, ConfigError::MalformedWhitelistId { .. })));
}

#[test]
fn duplicate_whitelist_id_is_rejected() {
    assert!(errs(
        r#"
        [[whitelist]]
        id = "1050:0407"
        [[whitelist]]
        id = "1050:0407"
        "#,
    )
    .iter()
    .any(|e| matches!(e, ConfigError::DuplicateWhitelistId { .. })));
}

#[test]
fn zero_max_count_is_rejected() {
    assert!(errs(
        r#"
        [[whitelist]]
        id = "1050:0407"
        max_count = 0
        "#,
    )
    .iter()
    .any(|e| matches!(e, ConfigError::ZeroMaxCount { .. })));
}

#[test]
fn bad_power_action_is_rejected() {
    assert!(errs(
        r#"
        [response]
        power_action = "explode"
        "#,
    )
    .iter()
    .any(|e| matches!(e, ConfigError::BadPowerAction { value } if value == "explode")));
}

#[test]
fn on_sensor_gap_defaults_to_warn_and_accepts_kill() {
    assert_eq!(
        validate(RawConfig::default()).unwrap().on_sensor_gap,
        SensorGapAction::Warn
    );
    let cfg = validate(parse("[response]\non_sensor_gap = \"kill\"\n")).unwrap();
    assert_eq!(cfg.on_sensor_gap, SensorGapAction::Kill);
}

#[test]
fn bad_on_sensor_gap_is_rejected() {
    assert!(errs("[response]\non_sensor_gap = \"maybe\"\n")
        .iter()
        .any(|e| matches!(e, ConfigError::BadSensorGapAction { value } if value == "maybe")));
}

#[test]
fn lock_screen_first_true_is_rejected() {
    assert!(errs(
        r#"
        [response]
        lock_screen_first = true
        "#,
    )
    .contains(&ConfigError::LockScreenFirstUnsupported));
}

#[test]
fn lock_screen_first_false_is_fine() {
    validate(parse(
        r#"
        [response]
        lock_screen_first = false
        "#,
    ))
    .expect("lock_screen_first = false is valid");
}

#[test]
fn luks_destroy_without_acknowledgment_is_rejected() {
    let e = errs(
        r#"
        [response.luks_destroy]
        target_header = "/dev/nvme0n1p3"
        "#,
    );
    assert!(e.contains(&ConfigError::LuksDestroyNotAcknowledged));
    assert!(
        e.iter()
            .all(|e| !matches!(e, ConfigError::LuksDestroyTargetNotUnderDev { .. })),
        "the /dev target is fine; only the missing acknowledgment is wrong"
    );
}

#[test]
fn luks_destroy_missing_target_is_rejected() {
    assert!(errs(
        r#"
        [response.luks_destroy]
        i_understand_this_is_irreversible = true
        "#,
    )
    .contains(&ConfigError::LuksDestroyMissingTarget));
}

#[test]
fn luks_destroy_relative_target_is_rejected() {
    assert!(errs(
        r#"
        [response.luks_destroy]
        i_understand_this_is_irreversible = true
        target_header = "dev/nvme0n1p3"
        "#,
    )
    .iter()
    .any(|e| matches!(e, ConfigError::LuksDestroyTargetNotAbsolute { .. })));
}

#[test]
fn luks_destroy_target_with_control_chars_is_rejected() {
    assert!(errs(
        r#"
        [response.luks_destroy]
        i_understand_this_is_irreversible = true
        target_header = "/dev/sda\n<forged log line>"
        "#,
    )
    .iter()
    .any(|e| matches!(e, ConfigError::LuksDestroyTargetHasControlChars { .. })));
}

#[test]
fn luks_destroy_target_with_parent_refs_is_rejected() {
    assert!(errs(
        r#"
        [response.luks_destroy]
        i_understand_this_is_irreversible = true
        target_header = "/dev/../etc/shadow"
        "#,
    )
    .iter()
    .any(|e| matches!(e, ConfigError::LuksDestroyTargetHasParentRefs { .. })));
}

#[test]
fn luks_destroy_target_outside_dev_is_rejected() {
    for target in [
        "/etc/killbill/config.toml",
        "/",
        "/home/user/disk.img",
        "/dev",
    ] {
        let src = format!(
            r#"
            [response.luks_destroy]
            i_understand_this_is_irreversible = true
            target_header = "{target}"
            "#,
        );
        assert!(
            errs(&src)
                .iter()
                .any(|e| matches!(e, ConfigError::LuksDestroyTargetNotUnderDev { .. })),
            "{target:?} should be rejected as not under /dev/"
        );
    }
}

#[test]
fn all_problems_are_reported_at_once() {
    let report = validate(parse(
        r#"
        [detection]
        sensors = ["usb", "lid"]

        [[whitelist]]
        id = "bogus"

        [[whitelist]]
        id = "1050:0407"
        max_count = 0

        [response]
        power_action = "nope"
        "#,
    ))
    .unwrap_err();
    assert_eq!(report.errors.len(), 4, "report was: {}",
        report.to_text());
}

#[test]
fn every_config_error_has_its_line() {
    let report = validate(parse(
        r#"
        [detection]
        sensors = ["lid"]

        [[whitelist]]
        id = "bogus"

        [[whitelist]]
        id = "1050:0407"

        [[whitelist]]
        id = "1050:0407"
        max_count = 0

        [[whitelist]]
        id = "1050:0408"
        max_count = 0

        [response]
        power_action = "nope"
        lock_screen_first = true
        on_sensor_gap = "maybe"

        [response.luks_destroy]
        target_header = "dev/sda"
        "#,
    ))
    .unwrap_err();
    let lines: Vec<String> = report.errors.iter().map(|e| e.to_text()).collect();
    assert_eq!(
        lines[..5],
        [
            "unknown sensor \"lid\" (v1 supports only \"usb\")",
            "whitelist entry 0: id \"bogus\" is not a valid `vvvv:pppp` USB id",
            "whitelist entry 2: id 1050:0407 appears more than once",
            "whitelist entry 3 (1050:0408): max_count must be at least 1",
            "response.power_action \"nope\" is not one of poweroff, halt, none",
        ]
    );
    assert!(lines.iter().any(|l| l.starts_with("response.lock_screen_first = true is not")));
    assert!(lines
        .contains(&"response.on_sensor_gap \"maybe\" is not one of warn, kill".to_owned()));
    assert!(lines.iter().any(|l| l.starts_with("[response.luks_destroy] is present but not")));
    assert!(lines.contains(
        &"[response.luks_destroy]: target_header \"dev/sda\" must be an absolute path".to_owned()
    ));
    assert!(report.to_text().contains(&lines[0]), "got: {}", report.to_text());
}

#[test]
fn no_sensors_names_the_problem() {
    assert_eq!(
        ConfigError::NoSensors.to_text(),
        "detection.sensors is empty — nothing would be watched"
    );
    assert_eq!(
        ConfigError::LuksDestroyTargetHasParentRefs { path: "/dev/..".to_owned() }.to_text(),
        "[response.luks_destroy]: target_header \"/dev/..\" must not contain `..`"
    );
}

#[test]
fn rendered_text_carries_the_managed_header() {
    let text = file_contents(EXAMPLE);
    assert!(text.starts_with("# killbill-rs configuration."));
    assert!(text.ends_with(EXAMPLE));
    let cfg = validate(parse(&text)).expect("the file still validates");
    assert_eq!(cfg.whitelist.len(), 1);
}

#[test]
fn a_new_file_is_owner_only_and_a_loose_mode_is_tightened() {
    assert_eq!(replacement_mode(ExistingConfig::NoFile), 0o600);
    assert_eq!(replacement_mode(ExistingConfig::File { mode: 0o100400 }), 0o400);
    assert_eq!(replacement_mode(ExistingConfig::File { mode: 0o100644 }), 0o600);
}

#[test]
fn a_tightened_mode_is_logged() {
    let line = tightening_line("/etc/c", ExistingConfig::File { mode: 0o100644 })
        .expect("the mode is not carried across");
    let fields: Vec<_> = line.fields.iter().map(|f| format!("{}={}", f.name, f.value)).collect();
    assert_eq!(fields, ["path=/etc/c", "existing_mode=0644"]);
    assert_eq!(tightening_line("/etc/c", ExistingConfig::File { mode: 0o100400 }), None);
    assert_eq!(tightening_line("/etc/c", ExistingConfig::NoFile), None);
}

#[test]
fn write_atomic_replaces_the_file_and_leaves_no_tmp() {
    let steps = write_steps(ExistingConfig::NoFile);
    assert_eq!(
        steps,
        vec![
            WriteStep::DropStaleTemp,
            WriteStep::CreateTemp { mode: 0o600 },
            WriteStep::WriteText,
            WriteStep::SyncTemp,
            WriteStep::Rename,
            WriteStep::SyncDirectory,
        ]
    );
    assert!(essential(WriteStep::Rename));
    assert!(!essential(WriteStep::SyncDirectory));
    assert_eq!(temp_name("config.toml"), "config.toml.tmp");
}

#[test]
fn a_failed_write_is_named() {
    assert_eq!(
        ConfigWriteError::Serialize("bad".to_owned()).to_text(),
        "serializing config to TOML: bad"
    );
    assert_eq!(
        ConfigWriteError::Io { path: "/etc/x".to_owned(), source: "full".to_owned() }.to_text(),
        "writing config to /etc/x: full"
    );
}

#[test]
fn a_target_outside_dev_is_named_with_the_reason() {
    let error = ConfigError::LuksDestroyTargetNotUnderDev { path: "/etc".to_owned() };
    assert_eq!(
        error.to_text(),
        "[response.luks_destroy]: target_header \"/etc\" must be a block device under /dev/ (this \
         is the antidote to the `dirname('/etc')` disaster)"
    );
}
