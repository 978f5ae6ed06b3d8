//! The core loop: what each message does, and what it asks to be done.

use killbill::killbilld::config::{
    default_sensors, validate, RawConfig, RawDetection, RawGeneral, RawLuksDestroy, RawResponse,
    RawWhitelistEntry,
};
use killbill::killbilld::control::PeerCred;
use killbill::killbilld::daemon::lifecycle::{AfterMessage, Ending, Lifecycle, LoopStep, Phase};
use killbill::killbilld::daemon::startup::{
    boot_arm_after_settle, parse_args, sensor_traffic, BootArm, Invocation, Settling,
    STARTUP_CEILING_MS, STARTUP_QUIET_MS,
};
use killbill::killbilld::daemon::state::{
    Core, Delivery, Effect, Flow, Msg, BACKLOG_LIMIT, MAX_MISSES, MAX_SUBSCRIBERS,
};
use killbill::killbilld::responder::{
    HostProbe, KillLatch, LogLevel, LogLine, TargetProbe, TargetState,
};
use killbill::proto::action::{Action, KillReason, PowerAction};
use killbill::proto::protocol::{
    Command, ConfigChange, Event, OnSensorGap, Reply, WhitelistEntry,
};
use killbill::proto::sensor_event::{
    DeviceIdentity, EventKind, RawFields, SensorEvent, SensorSource, UsbId,
};

const AT: &str = "2024-01-02T03:04:05Z";

fn flag(t: Option<&toml::Value>, key: &str) -> bool {
    t.and_then(|v| v.get(key)).and_then(toml::Value::as_bool).unwrap_or(false)
}

fn word(t: Option<&toml::Value>, key: &str) -> Option<String> {
    t.and_then(|v| v.get(key)).and_then(toml::Value::as_str).map(str::to_owned)
}

fn number(t: &toml::Value, key: &str) -> Option<u32> {
    t.get(key).and_then(toml::Value::as_integer).map(|n| n as u32)
}

fn parse(toml_src: &str) -> RawConfig {
    let doc: toml::Value = toml::from_str(toml_src).expect("test TOML should parse");
    let response = doc.get("response");
    RawConfig {
        general: RawGeneral { armed_at_boot: flag(doc.get("general"), "armed_at_boot") },
        detection: RawDetection {
            sensors: match doc.get("detection").and_then(|d| d.get("sensors")) {
                Some(names) => names
                    .as_array()
                    .unwrap()
                    .iter()
                    .map(|n| n.as_str().unwrap().to_owned())
                    .collect(),
                None => default_sensors(),
            },
        },
        whitelist: match doc.get("whitelist") {
            Some(entries) => entries
                .as_array()
                .unwrap()
                .iter()
                .map(|e| RawWhitelistEntry {
                    id: word(Some(e), "id").unwrap(),
                    label: word(Some(e), "label"),
                    max_count: number(e, "max_count"),
                })
                .collect(),
            None => vec![],
        },
        response: RawResponse {
            dry_run: flag(response, "dry_run"),
            power_action: word(response, "power_action"),
            lock_screen_first: flag(response, "lock_screen_first"),
            on_sensor_gap: word(response, "on_sensor_gap"),
            luks_destroy: response.and_then(|r| r.get("luks_destroy")).map(|l| RawLuksDestroy {
                i_understand_this_is_irreversible: flag(
                    Some(l),
                    "i_understand_this_is_irreversible",
                ),
                target_header: word(Some(l), "target_header"),
            }),
        },
    }
}

/// A host on which everything can be done.
fn healthy() -> HostProbe {
    HostProbe {
        on_linux: true,
        sensor_error: None,
        process_status: Some("Name:\tkillbilld\nCapEff:\t000001ffffffffff\n".to_owned()),
        targets: vec![],
    }
}

/// A core with an in-test config file and writer, pumped by hand.
struct Harness {
    file: String,
    core: Core,
    fx: Vec<Effect>,
}

impl Harness {
    fn new(config_body: &str) -> Self {
        Self {
            file: config_body.to_owned(),
            core: Core::load("config.toml".to_owned(), Ok(parse(config_body))),
            fx: vec![],
        }
    }

    fn subscribe(&mut self, peer: PeerCred, token: u64) -> Reply {
        self.core.subscribe(&mut self.fx, peer, token, 1);
        self.answer().expect("subscribe answers synchronously")
    }

    /// The last answer that was given.
    fn answer(&mut self) -> Option<Reply> {
        let mut last = None;
        let fx = std::mem::take(&mut self.fx);
        for f in fx {
            match f {
                Effect::Answer { reply, .. } => last = Some(reply),
                other => self.fx.push(other),
            }
        }
        last
    }

    fn dispatched(&self) -> Vec<Action> {
        self.fx
            .iter()
            .filter_map(|f| match f {
                Effect::Dispatch(a) => Some(*a),
                _ => None,
            })
            .collect()
    }

    fn published(&self) -> Vec<&Event> {
        self.fx
            .iter()
            .filter_map(|f| match f {
                Effect::Publish(e) => Some(&e.event),
                _ => None,
            })
            .collect()
    }

    /// The log lines so far, each as its level and its text.
    fn logged(&self) -> Vec<(LogLevel, String)> {
        self.fx
            .iter()
            .filter_map(|f| match f {
                Effect::Log(line) => Some((line.level, shown(line))),
                _ => None,
            })
            .collect()
    }

    fn jobs(&self) -> usize {
        self.fx
            .iter()
            .filter(|f| matches!(f, Effect::Persist(_) | Effect::Reload))
            .count()
    }

    /// Runs one pending writer job, as the writer would, and feeds the result back.
    fn pump_writer(&mut self) {
        let at = self
            .fx
            .iter()
            .position(|f| matches!(f, Effect::Persist(_) | Effect::Reload))
            .expect("a write job was queued");
        match self.fx.remove(at) {
            Effect::Persist(_) => self.core.on_config_written(&mut self.fx, Ok(()), AT),
            _ => {
                let raw = parse(&self.file);
                self.core.on_config_reloaded(&mut self.fx, Ok(raw), &healthy(), AT);
            }
        }
    }

    fn event(&mut self, e: SensorEvent) {
        self.core.on_sensor_event(&mut self.fx, e, AT);
    }

    fn arm(&mut self) -> Result<(), String> {
        self.core.arm(&mut self.fx, PeerCred::system(), &healthy(), AT)
    }

    fn lost(&mut self) {
        self.core.on_sensor_lost(&mut self.fx, AT);
    }

    fn restarting(&mut self) {
        self.core.on_sensor_restarting(&mut self.fx, AT);
    }

    fn started(&mut self) {
        self.core.on_sensor_started(&mut self.fx, &healthy(), AT);
    }

    fn command(&mut self, cmd: Command, peer: PeerCred) -> Option<Reply> {
        self.core.on_command(&mut self.fx, cmd, peer, 1, &healthy(), AT);
        self.answer()
    }
}

/// A log line as text: the message, then the fields.
fn shown(line: &LogLine) -> String {
    let fields: String = line.fields.iter().map(|f| format!(" {}={}", f.name, f.value)).collect();
    format!("{}{fields}", line.message)
}

fn added(id: Option<UsbId>) -> SensorEvent {
    SensorEvent {
        source: SensorSource::Usb,
        kind: EventKind::Added,
        identity: DeviceIdentity { usb_id: id, serial: None, label: None },
        raw: RawFields::new(),
    }
}

fn removed(id: Option<UsbId>) -> SensorEvent {
    SensorEvent { kind: EventKind::Removed, ..added(id) }
}

fn synthetic_added(id: Option<UsbId>) -> SensorEvent {
    let mut ev = added(id);
    ev.raw.insert("SYNTH_UUID".to_owned(), "0".to_owned());
    ev
}

fn synthetic_removed(id: Option<UsbId>) -> SensorEvent {
    let mut ev = removed(id);
    ev.raw.insert("SYNTH_UUID".to_owned(), "0".to_owned());
    ev
}

fn root() -> PeerCred {
    PeerCred { uid: 0, pid: 1, gid: 0 }
}

fn mallory() -> PeerCred {
    PeerCred { uid: 1000, pid: 42, gid: 1000 }
}

fn stranger() -> UsbId {
    UsbId::new(0x0781, 0x5567)
}

fn key() -> UsbId {
    UsbId::new(0x1050, 0x0407)
}

#[test]
fn arm_is_refused_while_the_config_is_invalid() {
    let mut h = Harness::new("[detection]\nsensors = []\n");
    h.core.sensor_ok = true;
    assert!(h.core.config_error.is_some());
    assert!(h.arm().unwrap_err().contains("refusing to arm"));
    assert!(!h.core.armed);
}

#[test]
fn arm_is_refused_until_the_sensor_has_started() {
    let mut h = Harness::new("");
    assert!(h.arm().unwrap_err().contains("sensor is not running"));
    h.core.sensor_ok = true;
    let err = h.arm().err();
    assert!(err.as_deref().is_none_or(|e| !e.contains("not running")));
}

#[test]
fn a_successful_arm_flips_state_and_broadcasts() {
    let mut h = Harness::new("[response]\npower_action = \"none\"\n");
    h.core.sensor_ok = true;
    assert!(matches!(h.subscribe(root(), 7), Reply::Done));
    h.fx.clear();

    assert!(h.arm().is_ok());
    assert!(h.core.armed);
    assert_eq!(h.published(), vec![&Event::Armed]);

    h.fx.clear();
    h.core.disarm(&mut h.fx, PeerCred::system(), AT);
    assert!(!h.core.armed);
    assert_eq!(h.published(), vec![&Event::Disarmed]);
}

#[test]
fn sensor_ended_marks_not_ok_without_touching_armed() {
    let mut h = Harness::new("[response]\npower_action = \"none\"\n");
    h.core.sensor_ok = true;
    h.arm().unwrap();

    h.core.on_sensor_ended(&mut h.fx, AT);
    assert!(!h.core.sensor_ok);
    assert!(h.core.armed, "sensor death must not disarm");

    h.core.disarm(&mut h.fx, PeerCred::system(), AT);
    assert!(h.arm().unwrap_err().contains("sensor is not running"));
}

#[test]
fn a_non_root_peer_cannot_change_state_but_can_read_status() {
    let mut h = Harness::new("");
    h.core.sensor_ok = true;

    for cmd in [
        Command::Arm,
        Command::Disarm,
        Command::ReloadConfig,
        Command::RunDryRun,
        Command::WhitelistRemove(UsbId::new(0x1050, 0x0407)),
    ] {
        assert!(
            matches!(h.command(cmd, mallory()), Some(Reply::Error(e)) if e.contains("permission denied")),
            "a non-root peer must be denied"
        );
    }
    assert!(!h.core.armed);
    assert_eq!(h.jobs(), 0, "nothing was written");
    assert!(matches!(h.command(Command::GetStatus, mallory()), Some(Reply::Status(_))));
}

#[test]
fn a_non_root_peer_cannot_subscribe() {
    let mut h = Harness::new("");
    assert!(matches!(h.subscribe(mallory(), 7), Reply::Error(_)));
    assert!(h.core.subscribers.is_empty());
}

#[test]
fn whitelist_add_is_refused_while_the_config_is_invalid_and_the_file_is_untouched() {
    let mut h = Harness::new("[detection]\nsensors = []\n");
    h.core.whitelist_add(
        &mut h.fx,
        WhitelistEntry { id: UsbId::new(0x1050, 0x0407), label: None, max_count: None },
        1,
        &healthy(),
    );
    assert!(matches!(h.answer(), Some(Reply::Error(_))));
    assert_eq!(h.jobs(), 0, "no write job was queued");
}

#[test]
fn whitelist_add_persists_and_takes_effect() {
    let mut h = Harness::new("");
    h.core.whitelist_add(
        &mut h.fx,
        WhitelistEntry {
            id: UsbId::new(0x1050, 0x0407),
            label: Some("YubiKey".to_owned()),
            max_count: Some(1),
        },
        1,
        &healthy(),
    );
    let written = h.fx.iter().find_map(|f| match f {
        Effect::Persist(raw) => Some(raw.clone()),
        _ => None,
    });
    h.pump_writer();

    assert!(matches!(h.answer(), Some(Reply::Done)));
    assert_eq!(h.core.config.whitelist.len(), 1);
    assert_eq!(h.published(), vec![&Event::WhitelistChanged]);

    let reloaded = Core::load("config.toml".to_owned(), Ok(written.unwrap()));
    assert_eq!(reloaded.config.whitelist.len(), 1);
}

#[test]
fn reload_of_an_invalid_file_keeps_the_running_config_and_armed_state() {
    let mut h = Harness::new("");
    h.core.sensor_ok = true;
    h.core.armed = true;

    h.file = "[detection]\nsensors = []\n".to_owned();
    h.core.reload(&mut h.fx, 1);
    h.pump_writer();

    assert!(matches!(h.answer(), Some(Reply::Error(_))));
    assert!(h.core.armed, "an invalid reload must not disarm");
    assert!(h.core.config_error.is_none(), "old valid config kept");
}

#[test]
fn dry_run_reports_unknown_connected_devices() {
    let mut h = Harness::new("[[whitelist]]\nid = \"1050:0407\"\n");
    h.event(added(Some(UsbId::new(0x1050, 0x0407))));
    h.event(added(Some(UsbId::new(0x0781, 0x5567))));
    h.event(added(None));

    h.core.run_dry_run(&mut h.fx, 1, AT);
    match h.answer() {
        Some(Reply::DryRun(reasons)) => {
            assert_eq!(reasons.len(), 2);
            assert!(reasons
                .iter()
                .any(|r| matches!(r, KillReason::UnknownDevice { .. })));
            assert!(reasons
                .iter()
                .any(|r| matches!(r, KillReason::UnidentifiedDevice)));
        }
        other => panic!("expected DryRun, got {other:?}"),
    }
}

#[test]
fn an_unauthorized_event_dispatches_only_while_armed() {
    let mut h = Harness::new("[response]\npower_action = \"none\"\n");
    h.event(added(Some(UsbId::new(0x0781, 0x5567))));
    assert!(h.dispatched().is_empty(), "disarmed: no dispatch");

    h.core.armed = true;
    h.event(added(Some(UsbId::new(0x0781, 0x5567))));
    assert_eq!(h.dispatched().len(), 1, "armed: dispatched once");
    assert_eq!(h.dispatched()[0].power, PowerAction::NoAction);
}

#[test]
fn on_sensor_gap_kill_dispatches_when_armed() {
    let mut h = Harness::new("[response]\npower_action = \"none\"\non_sensor_gap = \"kill\"\n");
    h.core.armed = true;

    h.lost();
    assert_eq!(h.dispatched().len(), 1);
    assert_eq!(h.dispatched()[0].reason, KillReason::SensorGap);
    assert!(h.core.events_lost);

    h.lost();
    assert_eq!(h.dispatched().len(), 1);
}

#[test]
fn on_sensor_gap_warn_only_marks_status() {
    let mut h = Harness::new("");
    h.lost();
    assert!(h.core.events_lost);
    assert!(h.core.status().events_lost);
    h.core.sensor_ok = true;
    assert!(h.arm().unwrap_err().contains("lost events"));
}

#[test]
fn a_gap_under_kill_does_not_dispatch_while_disarmed() {
    for drive in ["lost", "restart"] {
        let mut h =
            Harness::new("[response]\npower_action = \"none\"\non_sensor_gap = \"kill\"\n");
        match drive {
            "lost" => h.lost(),
            _ => h.restarting(),
        }
        assert!(
            h.dispatched().is_empty(),
            "{drive}: disarmed must not dispatch"
        );
        assert!(!h.core.gap_kill_dispatched);
    }
}

#[test]
fn a_gap_that_did_not_dispatch_still_kills_on_a_later_gap() {
    let mut h = Harness::new("[response]\npower_action = \"none\"\non_sensor_gap = \"kill\"\n");
    h.lost();
    assert!(h.core.events_lost);
    assert!(h.dispatched().is_empty());
    assert!(!h.core.gap_kill_dispatched);

    h.core.armed = true;
    h.lost();
    assert_eq!(h.dispatched().len(), 1, "the later gap must fire");
    assert!(h.core.gap_kill_dispatched);
}

#[test]
fn a_config_swap_re_enables_the_gap_kill() {
    let mut h = Harness::new("[response]\npower_action = \"none\"\non_sensor_gap = \"kill\"\n");
    h.core.armed = true;

    h.lost();
    assert_eq!(h.dispatched().len(), 1);
    assert!(h.core.gap_kill_dispatched);

    let raw = h.core.raw.clone();
    let cfg = validate(raw.clone()).unwrap();
    h.core.swap_config(&mut h.fx, raw, cfg, "test");
    assert!(
        !h.core.gap_kill_dispatched,
        "a config swap clears the latch"
    );

    h.lost();
    assert_eq!(h.dispatched().len(), 2, "the post-swap gap fires again");
}

#[test]
fn subscribers_get_device_events_and_dead_ones_are_pruned() {
    let mut h = Harness::new("");
    assert!(matches!(h.subscribe(root(), 7), Reply::Done));
    h.event(added(Some(UsbId::new(0x1050, 0x0407))));
    assert!(matches!(h.published()[..], [Event::DeviceAdded(_)]));
    h.core.on_deliveries(&vec![Delivery::Sent]);
    assert_eq!(h.core.subscribers.len(), 1);

    h.event(added(Some(UsbId::new(0x1050, 0x0407))));
    h.core.on_deliveries(&vec![Delivery::Disconnected]);
    assert!(h.core.subscribers.is_empty(), "dropped subscriber pruned");
}

#[test]
fn status_reflects_core_state() {
    let mut h = Harness::new("[[whitelist]]\nid = \"1050:0407\"\n");
    h.core.sensor_ok = true;
    h.event(added(Some(UsbId::new(0x1050, 0x0407))));

    let s = h.core.status();
    assert!(!s.armed);
    assert!(s.sensor_ok);
    assert!(!s.events_lost);
    assert!(!s.config_stale);
    assert_eq!(s.whitelist_len, 1);
    assert_eq!(s.device_count, 1);
    assert!(s.config_error.is_none());
}

#[test]
fn a_synthetic_uevent_never_fires_but_is_recorded() {
    let mut h = Harness::new("[response]\npower_action = \"none\"\n");
    h.core.armed = true;

    h.event(synthetic_added(Some(UsbId::new(0x0781, 0x5567))));
    assert!(h.dispatched().is_empty(), "synthetic event must not fire");
    assert_eq!(h.core.devices.connected.len(), 1);

    h.event(added(Some(UsbId::new(0x0781, 0x5567))));
    assert_eq!(h.dispatched().len(), 1);
}

#[test]
fn a_synthetic_remove_still_fires() {
    let mut h = Harness::new(
        "[[whitelist]]\nid = \"1050:0407\"\n[response]\npower_action = \"none\"\n",
    );
    h.core.armed = true;
    h.event(added(Some(UsbId::new(0x1050, 0x0407))));
    assert!(h.dispatched().is_empty(), "whitelisted add must not fire");

    h.event(synthetic_removed(Some(UsbId::new(0x1050, 0x0407))));
    assert_eq!(h.dispatched().len(), 1, "a synthetic remove must fire");
}

#[test]
fn sensor_restarting_marks_not_ok_and_keeps_armed_under_warn() {
    let mut h = Harness::new("[response]\npower_action = \"none\"\n");
    h.core.sensor_ok = true;
    h.arm().unwrap();

    h.restarting();
    assert!(!h.core.sensor_ok);
    assert!(h.core.armed, "a sensor restart must not disarm");
    assert!(
        h.core.events_lost,
        "a restart is a gap and must be recorded"
    );

    h.started();
    assert!(h.core.sensor_ok);
    assert!(h.core.events_lost, "the gap does not heal itself");
}

#[test]
fn a_sensor_restart_blocks_re_arming_until_the_daemon_restarts() {
    let mut h = Harness::new("[response]\npower_action = \"none\"\n");
    h.core.sensor_ok = true;

    h.restarting();
    h.started();
    assert!(h.core.sensor_ok);

    assert!(h.arm().unwrap_err().contains("lost events"));
    assert!(h.core.status().events_lost);
}

#[test]
fn a_sensor_restart_clears_a_pending_boot_arm() {
    let mut h = Harness::new("[general]\narmed_at_boot = true\n");
    h.core.boot_arm_pending = true;

    h.restarting();
    assert!(
        !h.core.boot_arm_pending,
        "the boot arm must not survive a gap"
    );

    h.started();
    assert!(!h.core.armed, "no auto-arm after a gap");
}

#[test]
fn a_sensor_restart_reaches_subscribers() {
    let mut h = Harness::new("");
    assert!(matches!(h.subscribe(root(), 7), Reply::Done));

    h.restarting();

    let got = h.published();
    assert!(got.iter().any(|e| matches!(e, Event::SensorStopped)));
    assert!(got.iter().any(|e| matches!(e, Event::EventsLost)));
}

#[test]
fn boot_arm_after_settle_decision_table() {
    assert_eq!(boot_arm_after_settle(false, false, false), BootArm::NotRequested);
    assert_eq!(boot_arm_after_settle(false, true, true), BootArm::NotRequested);
    assert_eq!(boot_arm_after_settle(true, false, true), BootArm::Now);
    assert_eq!(boot_arm_after_settle(true, false, false), BootArm::WhenSensorStarts);
    assert_eq!(boot_arm_after_settle(true, true, true), BootArm::RefuseGap);
    assert_eq!(boot_arm_after_settle(true, true, false), BootArm::RefuseGap);
}

#[test]
fn sensor_restarting_dispatches_under_kill_when_armed() {
    let mut h = Harness::new("[response]\npower_action = \"none\"\non_sensor_gap = \"kill\"\n");
    h.core.armed = true;

    h.restarting();
    assert_eq!(h.dispatched().len(), 1);
    assert_eq!(h.dispatched()[0].reason, KillReason::SensorGap);
    assert!(
        !h.dispatched()[0].luks_destroy,
        "a gap never asserts luks_destroy"
    );
}

#[test]
fn a_rejected_reload_marks_config_stale_and_a_good_one_clears_it() {
    let mut h = Harness::new("");

    h.file = "[detection]\nsensors = []\n".to_owned();
    h.core.reload(&mut h.fx, 1);
    h.pump_writer();
    assert!(matches!(h.answer(), Some(Reply::Error(_))));
    assert!(h.core.config_stale, "a rejected reload is surfaced");
    assert!(h.core.status().config_stale);

    h.file = "[[whitelist]]\nid = \"1050:0407\"\n".to_owned();
    h.core.reload(&mut h.fx, 1);
    h.pump_writer();
    assert!(matches!(h.answer(), Some(Reply::Done)));
    assert!(!h.core.config_stale, "a good reload clears the flag");
}

#[test]
fn whitelist_remove_of_an_absent_id_is_an_error_and_writes_nothing() {
    let mut h = Harness::new("");
    h.core.whitelist_remove(&mut h.fx, UsbId::new(0x1050, 0x0407), 1, &healthy());
    assert!(matches!(h.answer(), Some(Reply::Error(_))));
    assert_eq!(h.jobs(), 0, "no write job was queued");
}

#[test]
fn a_boot_arm_is_retried_when_the_sensor_starts_late() {
    let mut h = Harness::new("[general]\narmed_at_boot = true\n");
    h.core.boot_arm_pending = true;
    assert!(!h.core.armed);

    h.started();
    assert!(
        h.core.armed,
        "a late sensor start still completes the boot arm"
    );
    assert!(!h.core.boot_arm_pending);
}

#[test]
fn an_unauthorized_change_is_dispatched_before_anything_is_told() {
    let mut h = Harness::new("");
    h.core.armed = true;
    h.event(added(Some(stranger())));
    assert!(matches!(
        h.fx[0],
        Effect::Dispatch(Action { reason: KillReason::UnknownDevice { .. }, .. })
    ));
    assert!(h.published().len() >= 1);
}

#[test]
fn adding_and_removing_an_entry_leaves_the_whitelist_as_it_was() {
    let mut h = Harness::new("");
    let before = h.core.raw.clone();
    let entry = WhitelistEntry { id: key(), label: Some("k".to_owned()), max_count: Some(2) };
    h.command(Command::WhitelistAdd(entry), root());
    h.pump_writer();
    assert_eq!(h.core.whitelist_entries().len(), 1);
    assert_eq!(h.core.whitelist_entries()[0].max_count, Some(2));
    h.command(Command::WhitelistRemove(key()), root());
    h.pump_writer();
    assert_eq!(h.core.raw, before);
}

#[test]
fn a_setting_is_read_back_as_it_was_set() {
    let mut h = Harness::new("");
    for change in [
        ConfigChange::DryRun(true),
        ConfigChange::PowerAction(PowerAction::Halt),
        ConfigChange::ArmedAtBoot(true),
        ConfigChange::OnSensorGap(OnSensorGap::Kill),
        ConfigChange::Sensors(vec!["usb".to_owned()]),
    ] {
        h.command(Command::ConfigSet(change), root());
        h.pump_writer();
        assert!(matches!(h.answer(), Some(Reply::Done)));
    }
    let c = h.core.config_payload();
    assert!(c.dry_run);
    assert_eq!(c.power_action, PowerAction::Halt);
    assert!(c.armed_at_boot);
    assert_eq!(c.on_sensor_gap, OnSensorGap::Kill);
    assert_eq!(c.sensors, vec!["usb"]);
}

#[test]
fn an_invalid_setting_is_refused_and_nothing_is_written() {
    let mut h = Harness::new("");
    let before = h.core.raw.clone();
    let reply = h.command(Command::ConfigSet(ConfigChange::Sensors(vec![])), root());
    assert!(matches!(reply, Some(Reply::Error(e)) if e.contains("nothing would be watched")));
    assert_eq!(h.jobs(), 0);
    assert_eq!(h.core.raw, before);
}

#[test]
fn only_one_config_change_is_under_way_at_a_time() {
    let mut h = Harness::new("");
    h.command(Command::ConfigSet(ConfigChange::DryRun(true)), root());
    assert_eq!(h.jobs(), 1);
    let second = h.command(Command::ConfigSet(ConfigChange::DryRun(false)), root());
    assert!(matches!(second, Some(Reply::Error(_))));
    assert_eq!(h.jobs(), 1);
    h.core.on_config_written(&mut h.fx, Err("disk full".to_owned()), AT);
    assert!(matches!(h.answer(), Some(Reply::Error(e)) if e.contains("disk full")));
    assert!(!h.core.config.dry_run, "a failed write changes nothing");
}

#[test]
fn destruction_takes_config_and_engagement_and_does_not_outlive_its_target() {
    let luks = "[response.luks_destroy]\ni_understand_this_is_irreversible = true\ntarget_header = \"/dev/sda\"\n";
    let mut h = Harness::new("");
    for engaged in [true, false] {
        assert_eq!(
            h.command(Command::SetLuksDestroyEngaged(engaged), root()),
            Some(Reply::Error(
                "refusing to engage or disengage LUKS header destruction: the running \
                 configuration has no acknowledged [response.luks_destroy]"
                    .to_owned()
            ))
        );
        assert!(!h.core.luks_destroy_engaged);
    }
    let mut h = Harness::new(luks);
    assert!(matches!(
        h.command(Command::SetLuksDestroyEngaged(true), root()),
        Some(Reply::Done)
    ));
    h.core.armed = true;
    h.event(added(Some(stranger())));
    assert!(h.dispatched()[0].luks_destroy);
    assert!(h.core.config_payload().luks_destroy.unwrap().engaged);
    h.file = luks.replace("/dev/sda", "/dev/sdb");
    let mut host = healthy();
    host.targets = vec![TargetProbe { path: "/dev/sdb".to_owned(), state: TargetState::BlockDevice }];
    h.core.reload(&mut h.fx, 1);
    let raw = parse(&h.file);
    h.core.on_config_reloaded(&mut h.fx, Ok(raw), &host, AT);
    assert!(!h.core.luks_destroy_engaged, "a moved target is not what was engaged");
}

#[test]
fn a_missing_destruction_target_blocks_arming() {
    let luks = "[response.luks_destroy]\ni_understand_this_is_irreversible = true\ntarget_header = \"/dev/sda\"\n";
    let mut h = Harness::new(luks);
    h.core.sensor_ok = true;
    assert_eq!(h.core.targets_to_probe(None), vec!["/dev/sda"]);
    assert!(h.arm().is_err());
    let mut host = healthy();
    host.targets = vec![TargetProbe { path: "/dev/sda".to_owned(), state: TargetState::BlockDevice }];
    assert!(h.core.arm(&mut h.fx, root(), &host, AT).is_ok());
}

#[test]
fn a_new_subscriber_is_sent_the_backlog_first() {
    let mut h = Harness::new("");
    for _ in 0..BACKLOG_LIMIT + 5 {
        h.event(added(None));
    }
    assert_eq!(h.core.backlog.len(), BACKLOG_LIMIT);
    h.fx.clear();
    assert!(matches!(h.subscribe(root(), 9), Reply::Done));
    assert!(h.fx.iter().any(|f| matches!(f, Effect::Replay { subscriber: 9, events } if events.len() == BACKLOG_LIMIT)));
}

#[test]
fn subscribers_are_limited_and_slow_ones_dropped() {
    let mut h = Harness::new("");
    for i in 0..MAX_SUBSCRIBERS {
        assert!(matches!(h.subscribe(root(), i as u64), Reply::Done));
    }
    assert!(matches!(h.subscribe(root(), 99), Reply::Error(_)));
    let mut outcomes = vec![Delivery::Sent; MAX_SUBSCRIBERS];
    outcomes[3] = Delivery::Full;
    for _ in 1..MAX_MISSES {
        h.core.on_deliveries(&outcomes);
    }
    assert_eq!(h.core.subscribers.len(), MAX_SUBSCRIBERS);
    h.core.on_deliveries(&outcomes);
    assert_eq!(h.core.subscribers.len(), MAX_SUBSCRIBERS - 1);
    assert!(h.core.subscribers.iter().all(|s| s.token != 3));
}

#[test]
fn a_signal_skips_no_decision() {
    let mut h = Harness::new("");
    h.core.armed = true;
    let queue = vec![
        Msg::Command { cmd: Command::Disarm, peer: root(), to: 1 },
        Msg::Sensor(added(Some(stranger()))),
    ];
    let n = h.core.drain_pending_sensor_events(&mut h.fx, queue, AT);
    assert_eq!(n, 1);
    assert!(h.core.armed);
    assert_eq!(h.dispatched().len(), 1);
    assert_eq!(h.core.handle_msg(&mut h.fx, Msg::Shutdown, &healthy(), AT), Flow::Shutdown);
    assert!(matches!(
        h.core.handle_msg(&mut h.fx, Msg::SensorEnded, &healthy(), AT),
        Flow::Failed(_)
    ));
}

#[test]
fn settling_waits_for_quiet() {
    let mut s = Settling::new(0);
    assert!(!s.over(0, true));
    s.note_traffic(STARTUP_QUIET_MS);
    assert!(!s.over(STARTUP_QUIET_MS + 1, true));
    assert!(s.over(2 * STARTUP_QUIET_MS, true));
    assert!(!s.over(2 * STARTUP_QUIET_MS, false), "quiet is not enough without a sensor");
    assert!(s.over(STARTUP_CEILING_MS, false), "the ceiling ends it");
    assert!(sensor_traffic(&Msg::SensorLost));
    assert!(!sensor_traffic(&Msg::Shutdown));
}

#[test]
fn a_boot_arm_follows_the_settle_decision() {
    let mut h = Harness::new("[general]\narmed_at_boot = true\n");
    assert_eq!(h.core.after_settle(&mut h.fx, &healthy(), AT), BootArm::WhenSensorStarts);
    assert!(h.core.boot_arm_pending);
    h.core.sensor_ok = true;
    assert_eq!(h.core.after_settle(&mut h.fx, &healthy(), AT), BootArm::Now);
    assert!(h.core.armed);
}

#[test]
fn arguments_are_read() {
    let args = |a: &[&str]| a.iter().map(|s| (*s).to_owned()).collect::<Vec<_>>();
    let paths = |a: &[&str]| match parse_args(&args(a)) {
        Ok(Invocation::Run(o)) => (o.config_path, o.socket_path),
        other => panic!("got {other:?}"),
    };
    assert_eq!(
        paths(&[]),
        ("/etc/killbill/config.toml".to_owned(), "/run/killbilld.sock".to_owned())
    );
    assert_eq!(
        paths(&["-s", "/tmp/s", "--config", "/tmp/c"]),
        ("/tmp/c".to_owned(), "/tmp/s".to_owned())
    );
    assert_eq!(parse_args(&args(&["-h"])), Ok(Invocation::Help));
    assert_eq!(parse_args(&args(&["--version"])), Ok(Invocation::Version));
    assert_eq!(parse_args(&args(&["-c"])), Err("--config needs a path".to_owned()));
    assert_eq!(parse_args(&args(&["--socket"])), Err("--socket needs a path".to_owned()));
    assert_eq!(
        parse_args(&args(&["--no\"pe"])),
        Err("unexpected argument \"--no\\\"pe\" (try --help)".to_owned())
    );
}

#[test]
fn an_unreadable_config_starts_disarmed_and_stays_so() {
    let core = Core::load("config.toml".to_owned(), Err("no such file".to_owned()));
    assert!(core.config_error.is_some());
    assert!(!core.armed);
    let mut h = Harness { file: String::new(), core, fx: vec![] };
    h.core.sensor_ok = true;
    assert!(h.arm().is_err());
}

#[test]
fn a_dead_writer_fails_the_change_that_waits_for_it() {
    let mut h = Harness::new("");
    h.command(Command::ReloadConfig, root());
    h.core.on_writer_gone(&mut h.fx);
    assert!(matches!(h.answer(), Some(Reply::Error(_))));
    assert!(h.core.pending.is_none());
}

#[test]
fn the_loop_settles_serves_and_leaves() {
    let mut l = Lifecycle::new(0);
    assert_eq!(l.next_step(1, false), LoopStep::AwaitBriefly);
    assert_eq!(l.on_handled(Flow::Continue, true, 100), AfterMessage::Proceed);
    assert_eq!(l.next_step(100 + STARTUP_QUIET_MS - 1, true), LoopStep::AwaitBriefly);
    assert_eq!(l.next_step(100 + STARTUP_QUIET_MS, true), LoopStep::Settled);
    assert_eq!(l.next_step(100 + STARTUP_QUIET_MS, true), LoopStep::Await);
    assert_eq!(l.on_handled(Flow::Shutdown, false, 400), AfterMessage::Drain);
    assert_eq!(l.next_step(401, true), LoopStep::Leave);
    assert_eq!(l.ending(&KillLatch::new()), Ending::Clean);

    let mut early = Lifecycle::new(0);
    assert_eq!(early.on_handled(Flow::Shutdown, false, 1), AfterMessage::Drain);
    assert_eq!(early.next_step(2, true), LoopStep::Leave);

    let mut closed = Lifecycle::new(0);
    assert_eq!(closed.on_closed(), LoopStep::Settled);
    assert_eq!(closed.phase, Phase::Serving);
    assert_eq!(closed.on_closed(), LoopStep::Leave);
}

#[test]
fn a_kill_outranks_every_ending() {
    let mut l = Lifecycle::new(0);
    l.on_handled(Flow::Failed("gone".to_owned()), false, 1);
    let mut latch = KillLatch::new();
    assert_eq!(l.ending(&latch), Ending::Failed("gone".to_owned()));
    latch.on_dispatch(&Action {
        reason: KillReason::UnidentifiedDevice,
        power: PowerAction::PowerOff,
        luks_destroy: false,
        dry_run: false,
    });
    assert_eq!(l.ending(&latch), Ending::Park);
    latch.mark_kill_failed();
    assert_eq!(l.ending(&latch), Ending::KillFailed);
}

#[test]
fn adding_an_id_replaces_its_entry_in_either_case() {
    let mut h = Harness::new("[[whitelist]]\nid = \"1D6B:0002\"\nmax_count = 1\n");
    let id = UsbId::new(0x1d6b, 0x0002);
    let entry = WhitelistEntry { id, label: None, max_count: Some(4) };
    assert!(h.command(Command::WhitelistAdd(entry), root()).is_none(), "no error, no answer yet");
    match &h.fx[..] {
        [Effect::Persist(raw)] => assert_eq!(
            raw.whitelist,
            vec![RawWhitelistEntry {
                id: "1d6b:0002".to_owned(),
                label: None,
                max_count: Some(4),
            }]
        ),
        other => panic!("got {other:?}"),
    }
    h.pump_writer();
    assert!(matches!(h.answer(), Some(Reply::Done)));
    assert_eq!(h.core.whitelist_entries()[0].max_count, Some(4));
}

#[test]
fn removing_an_id_takes_an_entry_written_in_upper_case() {
    let mut h = Harness::new("[[whitelist]]\nid = \"1D6B:0002\"\n[[whitelist]]\nid = \"1050:0407\"\n");
    assert!(h.command(Command::WhitelistRemove(UsbId::new(0x1d6b, 0x0002)), root()).is_none());
    h.pump_writer();
    assert!(matches!(h.answer(), Some(Reply::Done)));
    let left: Vec<_> = h.core.whitelist_entries().iter().map(|e| e.id).collect();
    assert_eq!(left, vec![key()]);
}

#[test]
fn the_kill_for_a_message_is_known_before_it_is_handled() {
    let mut h = Harness::new("[response]\non_sensor_gap = \"kill\"\n");
    assert_eq!(h.core.kill_for(&added(Some(stranger()))), None, "disarmed");
    h.core.armed = true;
    assert_eq!(h.core.kill_for(&synthetic_added(Some(stranger()))), None, "announced again");
    for msg in [
        Msg::Sensor(added(Some(stranger()))),
        Msg::Sensor(removed(Some(stranger()))),
        Msg::Sensor(synthetic_removed(None)),
        Msg::SensorLost,
    ] {
        let kill = h.core.kill_for_msg(&msg).expect("a kill is due");
        h.fx.clear();
        h.core.handle_msg(&mut h.fx, msg, &healthy(), AT);
        assert!(matches!(&h.fx[0], Effect::Dispatch(a) if *a == kill));
        assert_eq!(h.dispatched().len(), 1);
    }
    for msg in [Msg::SensorLost, Msg::SensorRestarting, Msg::SensorEnded, Msg::SensorStarted] {
        assert_eq!(h.core.kill_for_msg(&msg), None, "the gap kill is spent");
    }
}

#[test]
fn a_gap_asks_for_the_power_action_and_nothing_more() {
    let luks = "[response]\npower_action = \"halt\"\non_sensor_gap = \"kill\"\n[response.luks_destroy]\ni_understand_this_is_irreversible = true\ntarget_header = \"/dev/sda\"\n";
    let mut h = Harness::new(luks);
    h.command(Command::SetLuksDestroyEngaged(true), root());
    h.core.armed = true;
    assert_eq!(
        h.core.kill_for_msg(&Msg::SensorEnded),
        Some(Action {
            reason: KillReason::SensorGap,
            power: PowerAction::Halt,
            luks_destroy: false,
            dry_run: false,
        })
    );
}

#[test]
fn arming_and_disarming_are_logged_with_the_peer() {
    let peer = PeerCred { uid: 0, pid: 4711, gid: 0 };
    let mut h = Harness::new("[response]\ndry_run = true\npower_action = \"halt\"\n");
    h.command(Command::Arm, peer);
    assert_eq!(
        h.logged(),
        vec![(
            LogLevel::Warn,
            "arm request REFUSED peer_uid=0 peer_pid=4711 reason=refusing to arm — the USB sensor \
             is not running, so device changes would go unseen (invariant 7)"
                .to_owned()
        )]
    );
    h.fx.clear();
    h.core.sensor_ok = true;
    h.command(Command::Arm, peer);
    h.command(Command::Arm, peer);
    h.command(Command::Disarm, peer);
    h.command(Command::Disarm, peer);
    assert_eq!(
        h.logged(),
        vec![
            (
                LogLevel::Warn,
                "ARMED peer_uid=0 peer_pid=4711 dry_run=true power_action=halt".to_owned()
            ),
            (LogLevel::Warn, "DISARMED peer_uid=0 peer_pid=4711".to_owned()),
            (
                LogLevel::Info,
                "disarm command received while already disarmed peer_uid=0 peer_pid=4711"
                    .to_owned()
            ),
        ]
    );
    h.fx.clear();
    h.command(Command::Disarm, PeerCred { uid: 1000, pid: -1, gid: 0 });
    assert_eq!(
        h.logged(),
        vec![(
            LogLevel::Warn,
            "denied a privileged control command from a non-root peer peer_uid=1000 peer_pid=-1 \
             command=disarm"
                .to_owned()
        )]
    );
}

#[test]
fn every_device_event_leaves_one_line() {
    let mut h = Harness::new("[[whitelist]]\nid = \"1050:0407\"\n[response]\npower_action = \"none\"\n");
    h.event(added(Some(key())));
    h.event(added(Some(stranger())));
    h.core.armed = true;
    h.event(synthetic_added(Some(stranger())));
    h.event(synthetic_removed(Some(stranger())));
    let lines = h.logged();
    assert_eq!(lines.len(), 4);
    assert_eq!(
        lines[0],
        (LogLevel::Debug, "device event — allowed kind=Added id=1050:0407".to_owned())
    );
    assert_eq!(lines[1].0, LogLevel::Info);
    assert!(lines[1].1.starts_with("unauthorized USB event while DISARMED"), "{}", lines[1].1);
    assert_eq!(lines[2].0, LogLevel::Info);
    assert!(lines[2].1.contains("NOT acting"), "{}", lines[2].1);
    assert_eq!(lines[3].0, LogLevel::Warn);
    assert!(lines[3].1.starts_with("UNAUTHORIZED USB EVENT"), "{}", lines[3].1);
    assert!(
        lines[3].1.ends_with(" power=none dry_run=false luks_destroy=false synthetic_uevent=true"),
        "{}",
        lines[3].1
    );
}

#[test]
fn gaps_are_logged_once_and_kills_always() {
    let mut h = Harness::new("");
    h.lost();
    h.lost();
    assert_eq!(h.logged().len(), 1);
    assert!(h.logged()[0].1.contains("were MISSED"));
    assert_eq!(h.logged()[0].0, LogLevel::Error);

    let mut h = Harness::new("[response]\non_sensor_gap = \"kill\"\n");
    h.lost();
    assert!(h.logged()[0].1.contains("lost events — on_sensor_gap = kill but DISARMED"));
    h.core.armed = true;
    h.fx.clear();
    h.lost();
    assert_eq!(
        h.logged(),
        vec![(
            LogLevel::Error,
            "USB sensor gap while ARMED and on_sensor_gap = kill — gap kill dispatched to all \
             responders dry_run=false power_action=poweroff"
                .to_owned()
        )]
    );

    let mut h = Harness::new("[general]\narmed_at_boot = true\n");
    h.core.boot_arm_pending = true;
    h.restarting();
    assert!(h.logged()[0].1.starts_with("clearing the pending armed_at_boot arm"));
    assert!(h.logged()[1].1.contains("is being respawned"));
    h.fx.clear();
    h.core.on_sensor_ended(&mut h.fx, AT);
    assert_eq!(h.logged().len(), 1);
    assert!(h.logged()[0].1.contains("exiting non-zero"));
}

#[test]
fn config_changes_are_logged() {
    let mut h = Harness::new("");
    h.core.armed = true;
    h.command(Command::ConfigSet(ConfigChange::Sensors(vec![])), root());
    assert!(h.logged()[0].1.starts_with("config change REJECTED — file untouched change=config set"));
    h.fx.clear();
    h.command(Command::ConfigSet(ConfigChange::DryRun(true)), root());
    h.pump_writer();
    assert_eq!(
        h.logged(),
        vec![
            (LogLevel::Info, "configuration updated change=config set".to_owned()),
            (
                LogLevel::Warn,
                "this change set dry_run = true while ARMED — a kill would now only be logged \
                 change=config set"
                    .to_owned()
            ),
        ]
    );
    h.fx.clear();
    h.command(Command::ConfigSet(ConfigChange::PowerAction(PowerAction::Halt)), root());
    h.pump_writer();
    assert_eq!(
        h.logged()[1].1,
        "this change altered power_action while ARMED change=config set from=poweroff to=halt"
    );
    h.fx.clear();
    h.command(Command::ConfigSet(ConfigChange::DryRun(false)), root());
    h.core.on_config_written(&mut h.fx, Err("disk full".to_owned()), AT);
    assert!(h.logged()[0].1.ends_with(" change=config set error=disk full"));
    h.fx.clear();
    h.command(Command::ReloadConfig, root());
    h.core.on_config_reloaded(&mut h.fx, Err("gone".to_owned()), &healthy(), AT);
    assert!(h.logged()[0].1.starts_with("reload REJECTED — the config file could not be read"));
    h.fx.clear();
    h.command(Command::ReloadConfig, root());
    h.pump_writer();
    assert_eq!(h.logged()[0].1, "configuration updated change=reload");
}

#[test]
fn startup_is_logged() {
    let h = Harness::new("[[whitelist]]\nid = \"1050:0407\"\n");
    assert_eq!(
        shown(&h.core.startup_line()),
        "configuration loaded whitelist=1 dry_run=false power_action=poweroff"
    );
    let broken = Core::load("config.toml".to_owned(), Err("no such file".to_owned()));
    assert_eq!(broken.startup_line().level, LogLevel::Error);
    assert!(broken.startup_line().message.ends_with("(invariant 2):\nno such file"));

    let mut h = Harness::new("[general]\narmed_at_boot = true\n");
    h.core.after_settle(&mut h.fx, &healthy(), AT);
    assert!(h.logged()[0].1.ends_with(" ceiling_secs=5"), "{}", h.logged()[0].1);
    h.fx.clear();
    let mut sick = healthy();
    sick.sensor_error = Some("no netlink".to_owned());
    h.core.on_sensor_started(&mut h.fx, &sick, AT);
    assert_eq!(h.logged()[0], (LogLevel::Info, "USB sensor is watching".to_owned()));
    assert!(h.logged()[1].1.starts_with("armed_at_boot is set but arming failed"));
    assert!(h.logged()[1].1.ends_with("no netlink"));
    assert!(h.core.boot_arm_pending, "the wish is kept");
    h.core.events_lost = true;
    h.fx.clear();
    h.core.after_settle(&mut h.fx, &healthy(), AT);
    assert!(h.logged()[0].1.contains("reported a gap during startup"));
}

#[test]
fn refused_subscriptions_and_dry_runs_are_logged() {
    let mut h = Harness::new("");
    h.subscribe(mallory(), 7);
    assert_eq!(
        h.logged()[0].1,
        "denied an event subscription from a non-root peer peer_uid=1000 peer_pid=42"
    );
    h.fx.clear();
    for i in 0..=MAX_SUBSCRIBERS {
        h.subscribe(root(), i as u64);
    }
    assert_eq!(
        h.logged()[0].1,
        "refusing an event subscriber — already at the limit limit=16"
    );
    h.event(added(None));
    h.fx.clear();
    h.command(Command::RunDryRun, root());
    assert_eq!(h.logged()[0].1, "dry run evaluated the connected device set hits=1");
}

#[test]
fn destruction_is_disengaged_where_it_is_configured() {
    let luks = "[response.luks_destroy]\ni_understand_this_is_irreversible = true\ntarget_header = \"/dev/sda\"\n";
    let mut h = Harness::new(luks);
    for engaged in [true, false, false] {
        assert_eq!(
            h.command(Command::SetLuksDestroyEngaged(engaged), root()),
            Some(Reply::Done)
        );
        assert_eq!(h.core.luks_destroy_engaged, engaged);
    }
}

#[test]
fn a_platform_without_a_poweroff_blocks_arming() {
    let mut h = Harness::new("");
    h.core.sensor_ok = true;
    let mut host = healthy();
    host.on_linux = false;
    assert_eq!(
        h.core.arm(&mut h.fx, root(), &host, AT),
        Err("refusing to arm — responder \"poweroff\" is not ready: the poweroff responder is not \
             implemented on this platform; this host cannot be protected"
            .to_owned())
    );
}

#[test]
fn the_host_is_asked_about_only_where_it_matters() {
    let mut h = Harness::new("");
    let command = |cmd, peer| Msg::Command { cmd, peer, to: 1 };
    let change = || Command::ConfigSet(ConfigChange::DryRun(true));
    assert!(h.core.asks_sensor(&command(Command::Arm, root())));
    assert!(h.core.asks_host(&command(Command::Arm, root())));
    assert!(!h.core.asks_host(&command(Command::Arm, mallory())));
    assert!(!h.core.asks_host(&command(change(), root())), "disarmed");
    assert!(!h.core.asks_host(&Msg::SensorStarted));
    h.core.boot_arm_pending = true;
    assert!(h.core.asks_sensor(&Msg::SensorStarted));
    h.core.armed = true;
    assert!(!h.core.asks_host(&Msg::SensorStarted));
    assert!(!h.core.asks_host(&command(Command::Arm, root())), "armed already");
    for cmd in [
        change(),
        Command::WhitelistAdd(WhitelistEntry { id: key(), label: None, max_count: None }),
        Command::WhitelistRemove(key()),
    ] {
        let msg = command(cmd, root());
        assert!(h.core.asks_host(&msg) && !h.core.asks_sensor(&msg));
    }
    assert!(h.core.asks_host(&Msg::ConfigReloaded(Err("gone".to_owned()))));
    for msg in [
        command(Command::GetStatus, root()),
        Msg::Sensor(added(None)),
        Msg::SensorLost,
        Msg::ConfigWritten(Ok(())),
        Msg::Shutdown,
    ] {
        assert!(!h.core.asks_host(&msg));
    }
}

#[test]
fn many_gaps_kill_once_until_the_config_is_swapped() {
    let mut h = Harness::new("[response]\non_sensor_gap = \"kill\"\n");
    h.core.armed = true;
    for _ in 0..3 {
        for msg in [Msg::SensorLost, Msg::SensorRestarting, Msg::SensorStarted, Msg::SensorEnded] {
            h.core.handle_msg(&mut h.fx, msg, &healthy(), AT);
        }
    }
    assert_eq!(h.dispatched().len(), 1);
    h.command(Command::ReloadConfig, root());
    h.file = "[response]\non_sensor_gap = \"kill\"\n".to_owned();
    h.pump_writer();
    h.core.maybe_dispatch_gap_kill(&mut h.fx);
    h.core.maybe_dispatch_gap_kill(&mut h.fx);
    assert_eq!(h.dispatched().len(), 2);
}
