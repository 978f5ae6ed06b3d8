//! The control socket's decisions, and the control client's output.

use killbill::killbillctl::{
    also_asks, connected_ids, print_config, print_devices, print_dry_run, print_status,
    print_whitelist, render_event,
    render_reply, stream_line, stream_step, subscription_ack, to_command, StreamRead, StreamStep,
    Subcommand,
};
use killbill::killbilld::control::{
    after_probe, authorized, ensure_directory_is_safe, ensure_path_is_free, remove_socket, reply_frame, reply_too_large,
    request_dropped, serve_connection, shutting_down, subscription_accepted,
    subscription_dropped, too_many_connections, ConnectionCount, ConnectionStep,
    DirectoryState, PathState,
    PathStep, PeerCred, ProbeOutcome, RefusalKind, Request, MAX_CONNECTIONS,
};
use killbill::killbilld::responder::LogLevel;
use killbill::proto::action::{KillReason, PowerAction};
use killbill::proto::protocol::{
    decode, Command, ConfigChange, ConfigPayload, DeviceInfo, Event, OnSensorGap, Reply,
    StatusPayload, StreamEvent, WhitelistEntry, MAX_BODY_LEN,
};
use killbill::proto::sensor_event::{SensorSource, UsbId};

const PATH: &str = "/run/killbilld.sock";

#[test]
fn ensure_path_is_free_accepts_a_missing_path() {
    assert_eq!(ensure_path_is_free(PATH, &PathState::Missing), PathStep::Bind);
}

#[test]
fn ensure_path_is_free_refuses_a_regular_file_and_leaves_it() {
    match ensure_path_is_free(PATH, &PathState::NotSocket) {
        PathStep::Refuse(err) => {
            assert_eq!(err.kind, RefusalKind::AlreadyExists);
            assert!(err.message.starts_with(PATH), "got: {}", err.message);
        }
        other => panic!("got {other:?}"),
    }
}

#[test]
fn ensure_path_is_free_removes_a_stale_socket() {
    assert_eq!(ensure_path_is_free(PATH, &PathState::Socket), PathStep::Probe);
    assert_eq!(after_probe(PATH, &ProbeOutcome::Refused), PathStep::RemoveStale);
}

#[test]
fn ensure_path_is_free_aborts_on_a_live_listener() {
    assert!(matches!(
        after_probe(PATH, &ProbeOutcome::Connected),
        PathStep::Refuse(err) if err.kind == RefusalKind::AddrInUse
    ));
}

#[test]
fn ensure_path_is_free_refuses_an_unprobeable_socket_and_leaves_it() {
    assert!(matches!(
        after_probe(PATH, &ProbeOutcome::Failed("EPROTOTYPE".to_owned())),
        PathStep::Refuse(err)
            if err.kind == RefusalKind::AddrInUse && err.message.contains("EPROTOTYPE")
    ));
    assert!(matches!(
        ensure_path_is_free(PATH, &PathState::Unreadable("EACCES".to_owned())),
        PathStep::Refuse(err) if err.kind == RefusalKind::Unreadable && err.message == "EACCES"
    ));
}

#[test]
fn a_socket_is_not_put_where_others_can_replace_it() {
    let check = |uid, mode| ensure_directory_is_safe("/run", &DirectoryState::Found { uid, mode });
    assert_eq!(check(0, 0o40755), Ok(()));
    assert_eq!(check(0, 0o40700), Ok(()));
    assert_eq!(check(1000, 0o40555), Ok(()));
    for (uid, mode) in [(0, 0o41777), (0, 0o40775), (1000, 0o40755)] {
        let refusal = check(uid, mode).unwrap_err();
        assert_eq!(refusal.kind, RefusalKind::UnsafeDirectory);
        assert_eq!(
            refusal.message,
            "/run is writable by non-root users — refusing to put the control socket there"
        );
    }
    let missing = ensure_directory_is_safe("/x", &DirectoryState::Unreadable("ENOENT".to_owned()));
    assert_eq!(missing.unwrap_err().kind, RefusalKind::Unreadable);
}

#[test]
fn remove_socket_refuses_a_non_socket() {
    assert!(!remove_socket(&PathState::NotSocket));
    assert!(!remove_socket(&PathState::Missing));
}

#[test]
fn remove_socket_removes_a_socket() {
    assert!(remove_socket(&PathState::Socket));
}

#[test]
fn a_peer_that_is_not_root_is_denied_at_the_connection() {
    let peer = PeerCred { uid: 1000, pid: 1, gid: 1000 };
    match serve_connection(Request::Sent(Command::Arm), &peer) {
        ConnectionStep::Deny { line, reply } => {
            assert_eq!(
                reply,
                Reply::Error(
                    "permission denied: this command requires uid 0 (peer uid 1000)".to_owned()
                )
            );
            assert_eq!(line.level, LogLevel::Warn);
            assert_eq!(
                line.message,
                "denied a privileged control command from a non-root peer"
            );
            let fields: Vec<_> =
                line.fields.iter().map(|f| format!("{}={}", f.name, f.value)).collect();
            assert_eq!(fields, ["peer_uid=1000", "peer_pid=1"]);
        }
        other => panic!("got {other:?}"),
    }
    assert_eq!(
        serve_connection(Request::Sent(Command::GetStatus), &peer),
        ConnectionStep::Forward(Command::GetStatus)
    );
    assert!(!authorized(&Command::Subscribe, &peer));
    assert!(!PeerCred::untrusted().is_root());
    let root = PeerCred::system();
    assert!(root.is_root());
    assert_eq!(
        serve_connection(Request::Sent(Command::Subscribe), &root),
        ConnectionStep::Subscribe
    );
    assert_eq!(
        serve_connection(Request::Bad("x".to_owned()), &root),
        ConnectionStep::Answer(Reply::Error("bad request: x".to_owned()))
    );
    assert_eq!(serve_connection(Request::Closed, &root), ConnectionStep::Close);
}

#[test]
fn connections_are_capped() {
    let mut n = ConnectionCount::new();
    for _ in 0..MAX_CONNECTIONS {
        assert!(n.acquire());
    }
    assert!(!n.acquire());
    n.release();
    assert!(n.acquire());
}

#[test]
fn a_reply_that_does_not_fit_is_replaced() {
    let small = b"{}";
    let big = vec![b'x'; MAX_BODY_LEN + 1];
    let frame = reply_frame(&big, small).unwrap();
    assert_eq!(decode(&frame).unwrap().0, small);
    let frame = reply_frame(b"{\"a\":1}", small).unwrap();
    assert_eq!(decode(&frame).unwrap().0, b"{\"a\":1}");
    assert!(reply_frame(&big, &big).is_err());
    assert!(subscription_accepted(&Reply::Done));
    for refusal in [
        too_many_connections(),
        shutting_down(),
        request_dropped(),
        subscription_dropped(),
        reply_too_large(),
    ] {
        assert!(matches!(&refusal, Reply::Error(e) if !e.is_empty()));
        assert!(!subscription_accepted(&refusal));
    }
}

fn status() -> StatusPayload {
    StatusPayload {
        armed: true,
        dry_run: false,
        power_action: PowerAction::PowerOff,
        whitelist_len: 1,
        device_count: 2,
        config_error: None,
        sensor_ok: true,
        events_lost: false,
        config_stale: false,
    }
}

#[test]
fn subcommands_become_commands() {
    assert_eq!(to_command(&Subcommand::Arm), Ok(Command::Arm));
    assert_eq!(to_command(&Subcommand::Test), Ok(Command::RunDryRun));
    assert_eq!(to_command(&Subcommand::LuksEngage(true)), Ok(Command::SetLuksDestroyEngaged(true)));
    assert_eq!(
        to_command(&Subcommand::WhitelistAdd {
            id: "1050:0407".to_owned(),
            label: None,
            max_count: Some(2),
        }),
        Ok(Command::WhitelistAdd(WhitelistEntry {
            id: UsbId::new(0x1050, 0x0407),
            label: None,
            max_count: Some(2),
        }))
    );
    let bad = to_command(&Subcommand::WhitelistRemove { id: "nope".to_owned() });
    assert!(bad.unwrap_err().contains("nope"));
    assert_eq!(
        to_command(&Subcommand::ConfigSet(ConfigChange::DryRun(true))),
        Ok(Command::ConfigSet(ConfigChange::DryRun(true)))
    );
}

#[test]
fn a_refusal_is_an_error_and_success_prints() {
    let refused = Reply::Error("no".to_owned());
    assert!(render_reply(&Subcommand::Arm, &refused, &None).is_err());
    assert!(render_reply(&Subcommand::Status, &refused, &None).is_err());
    assert!(render_reply(&Subcommand::Arm, &Reply::Done, &None).is_ok());
    assert_eq!(
        render_reply(&Subcommand::Status, &Reply::Status(status()), &None),
        Ok(print_status(&status()))
    );
    assert!(render_reply(&Subcommand::Arm, &Reply::Status(status()), &None).is_err());
    assert_eq!(subscription_ack(&Reply::Done), Ok(()));
    assert_eq!(
        subscription_ack(&refused),
        Err("subscription refused: no".to_owned())
    );
}

#[test]
fn what_is_printed_is_sanitized() {
    let d = DeviceInfo {
        source: SensorSource::Usb,
        id: Some(UsbId::new(0x1234, 0x5678)),
        serial: None,
        label: Some("\x1b[2J".to_owned()),
        whitelisted: false,
    };
    let text = print_devices(&vec![d.clone()]);
    assert!(text.contains("1234:5678"), "got: {text}");
    assert!(!text.contains('\x1b'), "got: {text}");
    let entry = WhitelistEntry {
        id: UsbId::new(0x1234, 0x5678),
        label: Some("\x1b[2J".to_owned()),
        max_count: Some(3),
    };
    assert!(!print_whitelist(&vec![entry], &vec![]).contains('\x1b'));
    assert!(!render_event(&Event::DeviceAdded(d)).contains('\x1b'));
}

#[test]
fn every_listing_says_when_it_is_empty() {
    assert!(!print_devices(&vec![]).is_empty());
    assert!(!print_whitelist(&vec![], &vec![]).is_empty());
    assert!(!print_dry_run(&vec![]).is_empty());
    let reason = KillReason::UnidentifiedDevice;
    assert!(print_dry_run(&vec![reason]).contains(&reason.to_text()));
    let config = ConfigPayload {
        armed_at_boot: false,
        sensors: vec!["usb".to_owned(), "lid".to_owned()],
        dry_run: true,
        power_action: PowerAction::Halt,
        on_sensor_gap: OnSensorGap::Kill,
        luks_destroy: None,
        validation_error: None,
    };
    let text = print_config(&config);
    assert!(text.contains("usb, lid"), "got: {text}");
    assert!(text.contains("halt"), "got: {text}");
}

#[test]
fn the_event_stream_ends_on_silence_unless_followed() {
    assert_eq!(stream_step(false, StreamRead::TimedOut), StreamStep::Stop);
    assert_eq!(stream_step(true, StreamRead::TimedOut), StreamStep::Fail);
    assert_eq!(stream_step(true, StreamRead::Frame), StreamStep::Print);
    assert_eq!(stream_step(false, StreamRead::Failed), StreamStep::Fail);
    assert_eq!(stream_step(true, StreamRead::Closed), StreamStep::Stop);
    let e = StreamEvent { at: "2024-01-02T03:04:05Z".to_owned(), event: Event::Armed };
    assert!(stream_line(&e).starts_with("2024-01-02T03:04:05Z"));
}

#[test]
fn the_whitelist_says_what_is_connected() {
    let device = |id: Option<UsbId>| DeviceInfo {
        source: SensorSource::Usb,
        id,
        serial: None,
        label: None,
        whitelisted: false,
    };
    let entry = |id: UsbId, max_count| WhitelistEntry {
        id,
        label: Some("k".to_owned()),
        max_count,
    };
    let (there, gone) = (UsbId::new(0x1050, 0x0407), UsbId::new(0x1d6b, 0x0002));
    let devices = vec![device(None), device(Some(there)), device(Some(there))];
    assert!(connected_ids(&devices).contains(&there));
    assert!(!connected_ids(&devices).contains(&gone));
    let text =
        print_whitelist(&vec![entry(there, Some(2)), entry(gone, None)], &connected_ids(&devices));
    let rows: Vec<&str> = text.lines().collect();
    assert_eq!(rows[0], "connected  1050:0407  max=2  k");
    assert_eq!(rows[1], "absent     1d6b:0002  max=1  k");

    let list = Subcommand::WhitelistList;
    assert_eq!(also_asks(&list), Some(Command::ListDevices));
    assert_eq!(also_asks(&Subcommand::Status), None);
    let reply = Reply::Whitelist(vec![entry(there, Some(2))]);
    assert_eq!(
        render_reply(&list, &reply, &Some(Reply::Devices(devices))),
        Ok("connected  1050:0407  max=2  k\n".to_owned())
    );
    assert_eq!(
        render_reply(&list, &reply, &Some(Reply::Error("no".to_owned()))),
        Err("no".to_owned())
    );
    assert!(render_reply(&list, &reply, &None).is_err());
    assert!(render_reply(&list, &Reply::Done, &Some(Reply::Devices(vec![]))).is_err());
}
