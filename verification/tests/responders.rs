//! The responders, and the latch that remembers a kill.

use killbill::killbilld::config::{validate, RawConfig, RawLuksDestroy};
use killbill::killbilld::responder::logger::{message, LoggerResponder};
use killbill::killbilld::responder::luks_destroy::{stub_message, LuksDestroyResponder};
use killbill::killbilld::responder::poweroff::{
    effective_capabilities, invoke, plan, PowerStep, PoweroffPlan, PoweroffResponder,
    CAP_SYS_BOOT_MASK,
};
use killbill::killbilld::responder::{
    attempts_power, build_responders, not_ready, preflight, ExitStep, HostProbe, KillLatch, LogField,
    LogLevel, LogLine, Responder, ResponderNotReady, Response, TargetProbe, TargetState,
};
use killbill::proto::action::{Action, KillReason, PowerAction};
use killbill::proto::sensor_event::UsbId;

fn probe(status: Option<&str>) -> HostProbe {
    HostProbe {
        on_linux: true,
        sensor_error: None,
        process_status: status.map(str::to_owned),
        targets: vec![],
    }
}

fn act() -> Action {
    Action {
        reason: KillReason::UnidentifiedDevice,
        power: PowerAction::NoAction,
        luks_destroy: false,
        dry_run: true,
    }
}

fn with_luks() -> RawConfig {
    let mut raw = RawConfig::default();
    raw.response.luks_destroy = Some(RawLuksDestroy {
        i_understand_this_is_irreversible: true,
        target_header: Some("/dev/nvme0n1p3".to_owned()),
    });
    raw
}

fn removal(dry_run: bool) -> Action {
    Action {
        reason: KillReason::WhitelistedDeviceRemoved {
            id: UsbId::new(0x1050, 0x0407),
        },
        power: PowerAction::PowerOff,
        luks_destroy: false,
        dry_run,
    }
}

#[test]
fn dry_run_line_is_marked_and_names_the_reason() {
    let m = message(&removal(true));
    assert!(m.contains("DRY RUN"), "got: {m}");
    assert!(m.contains("1050:0407"), "got: {m}");
}

#[test]
fn real_kill_line_never_says_dry_run() {
    let m = message(&removal(false));
    assert!(!m.contains("DRY RUN"), "got: {m}");
    assert!(m.contains("KILL"), "got: {m}");
    assert!(m.contains("1050:0407"), "got: {m}");
}

#[test]
fn respond_is_infallible_and_non_blocking() {
    assert!(matches!(LoggerResponder.respond(&removal(false)), Response::Log(_)));
    assert!(matches!(LoggerResponder.respond(&removal(true)), Response::Log(_)));
}

fn destruction(luks_destroy: bool, dry_run: bool) -> Action {
    Action {
        reason: KillReason::UnknownDevice {
            id: UsbId::new(0x0781, 0x5567),
        },
        power: PowerAction::PowerOff,
        luks_destroy,
        dry_run,
    }
}

#[test]
fn the_stub_message_can_never_read_as_though_a_wipe_happened() {
    assert!(stub_message().contains("STUB"));
    assert!(stub_message().contains("NOTHING was written"));
    assert!(stub_message().contains("not implemented in v1"));
}

#[test]
fn respond_is_silent_when_the_action_does_not_request_destruction() {
    let r = LuksDestroyResponder::new("/dev/nvme0n1p3".to_owned());
    assert_eq!(r.respond(&destruction(false, false)), Response::Silent);
    assert_eq!(r.respond(&destruction(false, true)), Response::Silent);
}

#[test]
fn respond_runs_the_same_for_dry_and_real() {
    let r = LuksDestroyResponder::new("/dev/sda2".to_owned());
    let logged = |dry: &str| {
        Response::Log(LogLine {
            level: LogLevel::Warn,
            message: stub_message().to_owned(),
            fields: vec![
                LogField { name: "target_header", value: "/dev/sda2".to_owned() },
                LogField { name: "dry_run", value: dry.to_owned() },
            ],
        })
    };
    assert_eq!(r.respond(&destruction(true, true)), logged("true"));
    assert_eq!(r.respond(&destruction(true, false)), logged("false"));
}

fn action(power: PowerAction, dry_run: bool) -> Action {
    Action {
        reason: KillReason::UnknownDevice {
            id: UsbId::new(0x0781, 0x5567),
        },
        power,
        luks_destroy: false,
        dry_run,
    }
}

#[test]
fn none_is_always_skipped_even_when_not_a_dry_run() {
    assert_eq!(plan(&action(PowerAction::NoAction, false)), PoweroffPlan::Skip);
    assert_eq!(plan(&action(PowerAction::NoAction, true)), PoweroffPlan::Skip);
}

#[test]
fn dry_run_never_reaches_the_syscall() {
    assert_eq!(
        plan(&action(PowerAction::PowerOff, true)),
        PoweroffPlan::Would(PowerAction::PowerOff)
    );
    assert_eq!(
        plan(&action(PowerAction::Halt, true)),
        PoweroffPlan::Would(PowerAction::Halt)
    );
}

#[test]
fn a_real_kill_powers_off_now() {
    assert_eq!(
        plan(&action(PowerAction::PowerOff, false)),
        PoweroffPlan::Now(PowerAction::PowerOff)
    );
    assert_eq!(
        plan(&action(PowerAction::Halt, false)),
        PoweroffPlan::Now(PowerAction::Halt)
    );
}

#[test]
fn respond_touches_no_power_for_none_or_dry_run() {
    for a in [
        action(PowerAction::NoAction, false),
        action(PowerAction::PowerOff, true),
        action(PowerAction::Halt, true),
    ] {
        assert!(matches!(PoweroffResponder.respond(&a), Response::Log(_)));
    }
    assert_eq!(
        PoweroffResponder.respond(&action(PowerAction::Halt, false)),
        Response::Power(PowerAction::Halt)
    );
}

#[test]
fn preflight_tracks_cap_sys_boot() {
    for (status, ready) in [
        (Some("CapEff:\t0000000000400000\n"), true),
        (Some("CapEff:\t0000000000000001\n"), false),
        (Some("Name:\tx\n"), false),
        (None, false),
    ] {
        let host = probe(status);
        let has_cap = status
            .and_then(effective_capabilities)
            .is_some_and(|c| (c & CAP_SYS_BOOT_MASK) != 0);
        assert_eq!(has_cap, ready);
        assert_eq!(PoweroffResponder.preflight(&host).is_ok(), has_cap);
    }
}

#[test]
fn effective_capabilities_parses_a_hex_bitmask() {
    let status = "Name:\tcat\nCapPrm:\t0\nCapEff:\t000001ffffffffff\nCapBnd:\t7\n";
    assert!(effective_capabilities(status).is_some());
    assert_eq!(effective_capabilities(status), Some(0x1ff_ffff_ffff));
    assert_eq!(effective_capabilities("CapEff:\tzz\n"), None);
    assert_eq!(effective_capabilities(""), None);
}

#[test]
fn attempts_power_only_for_a_real_power_action() {
    let real = Action {
        power: PowerAction::PowerOff,
        dry_run: false,
        ..act()
    };
    let dry = Action {
        dry_run: true,
        ..real.clone()
    };
    let none = Action {
        power: PowerAction::NoAction,
        ..real.clone()
    };
    assert!(attempts_power(&real));
    assert!(!attempts_power(&dry));
    assert!(!attempts_power(&none));
}

#[test]
fn dispatch_latches_kill_in_flight_for_a_real_kill() {
    let mut latch = KillLatch::new();
    latch.on_dispatch(&act());
    assert!(!latch.kill_in_flight());
    assert_eq!(latch.exit_step(), ExitStep::Exit);
    latch.on_dispatch(&Action {
        power: PowerAction::PowerOff,
        dry_run: false,
        ..act()
    });
    assert!(latch.kill_in_flight());
    assert_eq!(latch.exit_step(), ExitStep::Park);
    latch.on_dispatch(&act());
    assert!(latch.kill_in_flight(), "the latch is never cleared");
    latch.mark_kill_failed();
    assert!(latch.kill_failed());
    assert_eq!(latch.exit_step(), ExitStep::Fail);
}

#[test]
fn build_responders_omits_luks_destroy_unless_configured() {
    let cfg = validate(RawConfig::default()).unwrap();
    let names: Vec<_> = build_responders(&cfg).iter().map(|r| r.name()).collect();
    assert_eq!(names, ["poweroff", "logger"]);
}

#[test]
fn build_responders_puts_poweroff_first_and_adds_luks_when_configured() {
    let cfg = validate(with_luks()).unwrap();
    let names: Vec<_> = build_responders(&cfg).iter().map(|r| r.name()).collect();
    assert_eq!(names, ["poweroff", "logger", "luks-destroy"]);
}

/// A responder with a name and, perhaps, a reason why it cannot act.
struct Mock {
    name: &'static str,
    ready: bool,
}

impl Responder for Mock {
    fn name(&self) -> &'static str {
        self.name
    }

    fn respond(&self, _action: &Action) -> Response {
        Response::Silent
    }

    fn preflight(&self, _host: &HostProbe) -> Result<(), ResponderNotReady> {
        if self.ready {
            Ok(())
        } else {
            Err(ResponderNotReady { responder: self.name, reason: "test".to_owned() })
        }
    }
}

#[test]
fn preflight_collects_every_not_ready_responder() {
    let responders = vec![
        Mock { name: "one", ready: false },
        Mock { name: "ok", ready: true },
        Mock { name: "two", ready: false },
    ];
    let failures: Vec<_> =
        preflight(&responders, &probe(None)).iter().map(|f| f.responder).collect();
    assert_eq!(failures, ["one", "two"]);
}

#[test]
fn a_config_names_every_responder_that_is_not_ready() {
    let cfg = validate(with_luks()).unwrap();
    let failures: Vec<_> =
        not_ready(&cfg, &probe(None)).iter().map(|f| f.responder).collect();
    assert_eq!(failures, ["poweroff", "luks-destroy"]);
    let mut host = probe(Some("CapEff:\t000001ffffffffff\n"));
    host.targets = vec![TargetProbe {
        path: "/dev/nvme0n1p3".to_owned(),
        state: TargetState::BlockDevice,
    }];
    assert!(not_ready(&cfg, &host).is_empty());
    host.targets[0].state = TargetState::OtherFile;
    let failures = not_ready(&cfg, &host);
    assert_eq!(failures.len(), 1);
    assert!(failures[0].to_text().contains("luks-destroy"), "got: {}", failures[0].to_text());
}

#[test]
fn a_kill_that_comes_back_is_tried_again_in_other_ways() {
    assert_eq!(
        invoke(PowerAction::PowerOff, true),
        vec![PowerStep::RebootPowerOff, PowerStep::SysRqPowerOff, PowerStep::RebootHalt]
    );
    assert_eq!(
        invoke(PowerAction::Halt, true),
        vec![PowerStep::RebootHalt, PowerStep::SysRqPowerOff, PowerStep::RebootHalt]
    );
    assert!(invoke(PowerAction::NoAction, true).is_empty());
    assert!(invoke(PowerAction::PowerOff, false).is_empty());
}

#[test]
fn only_linux_can_be_protected() {
    let mut host = probe(Some("CapEff:\t0000000000400000\n"));
    assert!(PoweroffResponder.preflight(&host).is_ok());
    host.on_linux = false;
    for status in [host.process_status.clone(), None] {
        host.process_status = status;
        assert_eq!(
            PoweroffResponder.preflight(&host).unwrap_err().reason,
            "the poweroff responder is not implemented on this platform; this host cannot be \
             protected"
        );
    }
}
