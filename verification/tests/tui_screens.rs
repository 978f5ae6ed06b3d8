//! Keys, screens, boxes and styles of the terminal UI.

use killbill::proto::action::{KillReason, PowerAction};
use killbill::proto::protocol::{
    sanitize_device_string, Command, ConfigPayload, DeviceInfo, Event, LuksDestroyInfo,
    OnSensorGap, Reply, StatusPayload, StreamEvent, WhitelistEntry,
};
use killbill::proto::sensor_event::{SensorSource, UsbId};
use killbill::tui::app::App;
use killbill::tui::client::{pump_step, Client, ClientMsg, EventRead, PumpStep, ScriptedClient};
use killbill::tui::input::{intent, KeyCode, KeyEvent};
use killbill::tui::state::{
    device_action_labels, whitelist_entry_action_labels, Conn, ConfirmAction, Intent, MenuItem,
    Modal, Screen,
};
use killbill::tui::theme::{Color, Style, Theme};
use killbill::tui::ui::destroy::{body_lines, line_count, state_lines, BODY_WRAP};
use killbill::tui::ui::devices::device_line;
use killbill::tui::ui::help;
use killbill::tui::ui::line::{Line, Rect, Role};
use killbill::tui::ui::pane::{Body, Frame, Overlay, Pane};
use killbill::tui::ui::wrapping::wrap_words;
use killbill::tui::ui::{config, draw, dryrun, eventlog, modals, settings, statusbar, whitelist, Scene};

fn app() -> App<ScriptedClient> {
    App::new(ScriptedClient::new(vec![]))
}

fn press(code: KeyCode) -> KeyEvent {
    KeyEvent::pressed(code)
}

fn ctrl(code: KeyCode) -> KeyEvent {
    KeyEvent::with_ctrl(code)
}

fn text(line: &Line) -> String {
    line.to_text()
}

fn joined(lines: &[Line]) -> String {
    lines.iter().map(|l| text(l)).collect::<Vec<_>>().join(" ")
}

fn running() -> ConfigPayload {
    ConfigPayload {
        armed_at_boot: false,
        sensors: vec!["usb".to_owned()],
        dry_run: false,
        power_action: PowerAction::PowerOff,
        on_sensor_gap: OnSensorGap::Warn,
        luks_destroy: Some(LuksDestroyInfo {
            acknowledged: true,
            target_header: "/dev/nvme0n1p3".to_owned(),
            engaged: false,
        }),
        validation_error: None,
    }
}

fn status(armed: bool) -> StatusPayload {
    StatusPayload {
        armed,
        dry_run: false,
        power_action: PowerAction::PowerOff,
        whitelist_len: 2,
        device_count: 3,
        config_error: None,
        sensor_ok: true,
        events_lost: false,
        config_stale: false,
    }
}

fn app_with_luks() -> App<ScriptedClient> {
    let mut a = app();
    a.conn = Conn::Up;
    a.config = Some(running());
    a
}

fn terminal() -> Rect {
    Rect { x: 0, y: 0, width: 80, height: 24 }
}

fn body_text(pane: &Pane) -> Vec<String> {
    match &pane.body {
        Body::Text { lines, .. } => lines.iter().map(text).collect(),
        Body::List { items, .. } => items.iter().map(text).collect(),
    }
}

fn overlay_text(o: &Overlay) -> Vec<String> {
    o.lines.iter().map(text).collect()
}

#[test]
fn scripted_client_returns_replies_in_order_then_errors() {
    let mut c = ScriptedClient::new(vec![Ok(Reply::Done), Ok(Reply::Error("no".to_owned()))]);
    assert!(matches!(c.call(&Command::Arm), Ok(Reply::Done)));
    assert!(matches!(c.call(&Command::Disarm), Ok(Reply::Error(_))));
    assert!(c.call(&Command::GetStatus).is_err());
}

#[test]
fn a_scripted_client_records_what_it_was_asked() {
    let mut c = ScriptedClient::new(vec![Ok(Reply::Done)]);
    let _ = c.call(&Command::Arm);
    assert_eq!(
        c.call(&Command::ReloadConfig),
        Err("ScriptedClient: no more scripted replies".to_owned())
    );
    assert_eq!(c.calls, vec![Command::Arm, Command::ReloadConfig]);
}

#[test]
fn a_quiet_event_stream_is_not_a_disconnect() {
    assert!(matches!(pump_step(EventRead::TimedOut), PumpStep::Wait));
    let e = StreamEvent { at: "t".to_owned(), event: Event::Armed };
    assert!(matches!(
        pump_step(EventRead::Event(e)),
        PumpStep::Deliver(ClientMsg::Event(StreamEvent { event: Event::Armed, .. }))
    ));
    let why = |r| match pump_step(r) {
        PumpStep::Reconnect(ClientMsg::Disconnected(why)) => why,
        _ => panic!("not a disconnect"),
    };
    assert_eq!(why(EventRead::Closed), "the daemon closed the event stream");
    assert_eq!(
        why(EventRead::Unreadable("bad json".to_owned())),
        "unreadable event frame: bad json"
    );
    assert_eq!(why(EventRead::Failed("reset".to_owned())), "reset");
}

#[test]
fn ctrl_c_quits_from_anywhere() {
    let a = app();
    assert!(matches!(intent(&a, ctrl(KeyCode::Char('c'))), Intent::Quit));
}

#[test]
fn ctrl_c_quits_even_inside_a_text_modal() {
    let mut a = app();
    a.modal = Some(Modal::WhitelistAddId);
    assert!(matches!(intent(&a, ctrl(KeyCode::Char('c'))), Intent::Quit));
    assert!(matches!(intent(&a, ctrl(KeyCode::Char('u'))), Intent::Nothing));
}

#[test]
fn destroy_confirm_sends_nothing_on_any_key_but_y() {
    let mut a = app();
    a.modal = Some(Modal::DestroyConfirm { engage: true });
    assert!(matches!(
        intent(&a, press(KeyCode::Char('y'))),
        Intent::Char('y')
    ));
    assert!(matches!(
        intent(&a, press(KeyCode::Char('Y'))),
        Intent::Char('Y')
    ));
    for code in [
        KeyCode::Char('n'),
        KeyCode::Enter,
        KeyCode::Esc,
        KeyCode::Up,
        KeyCode::Backspace,
    ] {
        assert!(
            matches!(intent(&a, press(code)), Intent::Back),
            "{code:?} should cancel the fence"
        );
    }
}

#[test]
fn keys_resolve_to_intents() {
    let mut a = app();
    for (code, want) in [
        (KeyCode::Char('q'), Intent::Quit),
        (KeyCode::Char('m'), Intent::ToggleMenu),
        (KeyCode::Char('?'), Intent::Help),
        (KeyCode::Char('p'), Intent::TogglePause),
        (KeyCode::Char('k'), Intent::Up),
        (KeyCode::Char('j'), Intent::Down),
        (KeyCode::Char('r'), Intent::Refresh),
        (KeyCode::Char('x'), Intent::Nothing),
        (KeyCode::Up, Intent::Up),
        (KeyCode::Down, Intent::Down),
        (KeyCode::Enter, Intent::Select),
        (KeyCode::Esc, Intent::Back),
        (KeyCode::Backspace, Intent::Nothing),
        (KeyCode::Other, Intent::Nothing),
    ] {
        assert_eq!(intent(&a, press(code)), want);
    }
    a.conn = Conn::Down;
    assert_eq!(intent(&a, press(KeyCode::Char('r'))), Intent::Reconnect);
    let release = KeyEvent { press: false, ..press(KeyCode::Char('q')) };
    assert_eq!(intent(&a, release), Intent::Nothing);
    a.modal = Some(Modal::DestroyText { engage: true });
    assert_eq!(intent(&a, press(KeyCode::Char('q'))), Intent::Char('q'));
    assert_eq!(intent(&a, press(KeyCode::Backspace)), Intent::Backspace);
}

#[test]
fn body_is_pre_wrapped_so_logical_lines_equal_rendered_rows() {
    let a = app_with_luks();
    let lines = body_lines(&a);
    assert!(lines.len() > 12, "got {} lines", lines.len());
    assert_eq!(line_count(&a) as usize, lines.len());
    for l in &lines {
        let s = text(l);
        if s.contains("target header") {
            continue;
        }
        assert!(s.len() <= BODY_WRAP + 2, "over-wide row: {s:?}");
    }
    assert!(
        joined(&lines).contains("press Enter to ENGAGE"),
        "got: {}",
        joined(&lines)
    );
    let stub = lines
        .iter()
        .position(|l| text(l).contains("the wipe is a stub"))
        .expect("stub line present");
    assert!(
        stub < 12,
        "stub line at row {stub}, at/below the ~14-row fold"
    );
}

#[test]
fn wrap_words_keeps_every_row_within_width_and_loses_no_text() {
    let src = "the quick brown fox jumps over the lazy dog and then keeps on running";
    let rows = wrap_words(src, 20);
    assert!(rows.len() > 1);
    for r in &rows {
        assert!(r.len() <= 20, "over-wide row: {r:?}");
    }
    assert_eq!(rows.join(" "), src);
}

#[test]
fn wrapping_counts_bytes_and_keeps_a_long_word_whole() {
    assert_eq!(wrap_words("  a  b\tc ", 3), vec!["a b", "c"]);
    assert_eq!(wrap_words("ééé ab", 8), vec!["ééé", "ab"]);
    assert_eq!(wrap_words("ééé a", 8), vec!["ééé a"]);
    assert_eq!(wrap_words("a toolongword b", 4), vec!["a", "toolongword", "b"]);
    assert!(wrap_words(" ", 10).is_empty());
}

#[test]
fn state_lines_hide_the_cached_engaged_value_while_the_daemon_is_down() {
    let down = joined(&state_lines(&Conn::Down, false));
    assert!(down.contains("UNKNOWN"), "got: {down}");
    assert!(!down.contains("not engaged"), "got: {down}");
    assert!(joined(&state_lines(&Conn::Up, true)).contains("ENGAGED"));
    assert!(joined(&state_lines(&Conn::Up, false)).contains("not engaged"));
}

#[test]
fn device_line_sanitizes_a_hostile_label_and_serial() {
    let d = DeviceInfo {
        source: SensorSource::Usb,
        id: Some(UsbId::new(0x1234, 0x5678)),
        serial: Some("\x1b[2Jgotcha".to_owned()),
        label: Some("Caf\u{e9}".to_owned()),
        whitelisted: false,
    };
    let line = device_line(&d);
    let rendered: String = line.spans.iter().map(|s| s.text.as_str()).collect();
    assert!(
        !rendered.contains('\x1b'),
        "an escape byte reached the rendered row: {rendered:?}"
    );
    assert!(rendered.contains(&sanitize_device_string("\x1b[2Jgotcha")));
    assert!(rendered.contains(&sanitize_device_string("Caf\u{e9}")));
    assert_eq!(rendered, "  NEW  1234:5678  Caf\u{fffd}  \u{fffd}[2Jgotcha");
}

#[test]
fn line_count_matches_the_rows_render_builds() {
    let mut n: u16 = 1;
    for s in help::sections() {
        n += 1;
        n += 1;
        n += s.keys.len() as u16;
    }
    n += 1;
    n += help::menu_notes().len() as u16;
    n += 1;
    n += 1;
    assert_eq!(help::line_count(), n);
    assert_eq!(help::help_lines().len(), n as usize);
}

#[test]
fn the_everywhere_section_documents_ctrl_c() {
    let everywhere = &help::sections()[0];
    assert_eq!(everywhere.heading, "Everywhere");
    assert!(
        everywhere.keys.iter().any(|k| k.key.contains("Ctrl-C")),
        "Ctrl-C quit is undocumented"
    );
}

#[test]
fn a_help_row_pads_the_key() {
    let lines = help::help_lines();
    assert_eq!(text(&lines[0]), "killbill-tui — keys & menu");
    assert_eq!(text(&lines[4]), "  Enter             activate the selected item / confirm a modal");
    assert_eq!(text(&lines[39]), "↑ / ↓ to scroll · Esc to go back");
}

#[test]
fn the_band_says_what_is_current_and_marks_what_is_not() {
    let mut a = app();
    assert_eq!(text(&statusbar::render(&a)), " … CONNECTING ");
    a.conn = Conn::Up;
    assert_eq!(text(&statusbar::render(&a)), " … NO STATUS ");
    a.status = Some(status(true));
    assert_eq!(
        text(&statusbar::render(&a)),
        " ● ARMED    sensor ok   whitelist 2 · devices 3"
    );
    assert_eq!(statusbar::render(&a).spans[0].role, Role::Armed);
    a.conn = Conn::Down;
    assert_eq!(
        text(&statusbar::render(&a)),
        " ? LAST KNOWN: ARMED    [daemon unreachable]"
    );
    a.conn = Conn::Up;
    let mut s = status(false);
    s.dry_run = true;
    s.power_action = PowerAction::NoAction;
    s.sensor_ok = false;
    s.events_lost = true;
    s.config_stale = true;
    a.status = Some(s);
    a.config = Some(running());
    if let Some(c) = &mut a.config {
        if let Some(l) = &mut c.luks_destroy {
            l.engaged = true;
        }
    }
    assert_eq!(
        text(&statusbar::render(&a)),
        " ○ DISARMED    DRY-RUN    POWER: NONE — WILL NOT CUT POWER    SENSOR STOPPED   \
         EVENTS LOST   CONFIG STALE   LUKS DESTROY ENGAGED   whitelist 2 · devices 3"
    );
    let mut s = status(true);
    s.config_error = Some("bad".to_owned());
    s.power_action = PowerAction::Halt;
    a.status = Some(s);
    assert!(text(&statusbar::render(&a)).starts_with(
        " ▲ CONFIG INVALID — WILL NOT ARM    POWER: HALT — WILL NOT CUT POWER "
    ));
}

#[test]
fn the_whitelist_screen_lists_absent_entries_too() {
    let mut a = app();
    let id = UsbId::new(0x1050, 0x0407);
    a.whitelist = vec![
        WhitelistEntry { id, label: Some("key".to_owned()), max_count: None },
        WhitelistEntry { id: UsbId::new(1, 2), label: None, max_count: Some(3) },
    ];
    a.devices = vec![DeviceInfo {
        source: SensorSource::Usb,
        id: Some(id),
        serial: None,
        label: None,
        whitelisted: true,
    }];
    assert!(a.whitelist_entry_connected(id));
    a.whitelist_cursor = 1;
    let pane = whitelist::render(&a);
    assert_eq!(text(&pane.title), " Whitelist (2) ");
    assert_eq!(
        body_text(&pane),
        vec![
            "  +  Add entry",
            "  connected  1050:0407  max 1  key",
            "  absent     0001:0002  max 3  ",
        ]
    );
    assert!(matches!(pane.body, Body::List { selected: Some(1), .. }));
}

#[test]
fn the_dry_run_screen_names_every_reason() {
    let mut a = app();
    assert_eq!(
        body_text(&dryrun::render(&a)),
        vec!["No dry run yet — press r to run one."]
    );
    a.dryrun = Some(vec![]);
    assert_eq!(
        body_text(&dryrun::render(&a))[0],
        "Nothing currently connected would trigger a kill."
    );
    let reason = KillReason::UnknownDevice { id: UsbId::new(0x0781, 0x5567) };
    a.dryrun = Some(vec![reason]);
    let rows = body_text(&dryrun::render(&a));
    assert_eq!(rows[0], "1 device(s) would trigger a kill:");
    assert_eq!(rows[2], format!("  - {}", reason.to_text()));
    assert_eq!(rows.len(), 5);
}

#[test]
fn the_event_log_window_ends_at_the_scroll_offset() {
    let mut a = app();
    a.screen = Screen::EventLog;
    for i in 0..10 {
        a.on_event(StreamEvent { at: format!("t{i}"), event: Event::Armed });
    }
    let rows = body_text(&eventlog::render(&a, 5));
    assert_eq!(rows, vec!["t7  !  armed", "t8  !  armed", "t9  !  armed"]);
    a.handle(Intent::Up);
    let before = body_text(&eventlog::render(&a, 5));
    assert_eq!(before[2], "t8  !  armed");
    assert_eq!(text(&eventlog::render(&a, 5).title), " Event log (10) — paused ");
    a.on_event(StreamEvent { at: "t10".to_owned(), event: Event::ConfigChanged });
    assert_eq!(body_text(&eventlog::render(&a, 5)), before, "a paused log stays put");
    a.events.clear();
    a.event_scroll = 0;
    assert_eq!(body_text(&eventlog::render(&a, 5)), vec!["No events yet."]);
}

#[test]
fn every_event_has_its_line() {
    let d = DeviceInfo {
        source: SensorSource::Usb,
        id: None,
        serial: None,
        label: None,
        whitelisted: false,
    };
    let line = |event| text(&eventlog::event_line(&StreamEvent { at: "t".to_owned(), event }));
    assert_eq!(line(Event::DeviceAdded(d.clone())), "t  +  device ????:???? connected");
    assert_eq!(line(Event::DeviceRemoved(d)), "t  -  device ????:???? disconnected");
    assert_eq!(line(Event::Disarmed), "t  !  disarmed");
    assert_eq!(line(Event::SensorStopped), "t  !! USB sensor stopped");
    assert_eq!(
        line(Event::EventsLost),
        "t  !! USB events lost — some device changes were missed"
    );
    assert_eq!(line(Event::WhitelistChanged), "t  *  whitelist changed");
    assert_eq!(line(Event::ReloadFailed("x".to_owned())), "t  !! reload failed: x");
    let r = KillReason::UnidentifiedDevice;
    assert_eq!(line(Event::WouldKill(r)), format!("t  !  would kill: {}", r.to_text()));
}

#[test]
fn settings_show_the_running_config() {
    let mut a = app_with_luks();
    a.screen = Screen::Settings;
    a.settings_cursor = 1;
    let rows = body_text(&settings::render(&a));
    assert_eq!(rows[0], "   dry run         off");
    assert_eq!(rows[1], " ▸ power action    poweroff");
    assert_eq!(rows[2], "   armed at boot   off");
    assert_eq!(rows[3], "   on sensor gap   warn");
    assert_eq!(rows[5], "   sensors         usb");
    assert_eq!(rows[6], "   luks destroy    /dev/nvme0n1p3  (engaged: no)");
    if let Some(c) = &mut a.config {
        c.validation_error = Some("first\nsecond".to_owned());
        c.luks_destroy = None;
    }
    let rows = body_text(&settings::render(&a));
    assert_eq!(rows[..3], [" CONFIG ON DISK IS INVALID — running last-good ", "first", "second"]);
    assert_eq!(rows[10], "   luks destroy    not configured");
    a.config = None;
    assert_eq!(body_text(&settings::render(&a)), vec!["Loading config… press r to retry."]);
}

#[test]
fn the_config_inspector_shows_every_field() {
    let mut a = app_with_luks();
    let rows = body_text(&config::render(&a));
    assert_eq!(rows[0], "  armed at boot   no");
    assert_eq!(rows[2], "  power action    poweroff");
    assert_eq!(rows[5], "  luks destroy    /dev/nvme0n1p3");
    assert_eq!(rows[6], "    acknowledged  yes");
    assert_eq!(rows[7], "    engaged       no");
    if let Some(c) = &mut a.config {
        c.power_action = PowerAction::Halt;
        c.luks_destroy = None;
        c.validation_error = Some("bad\r\nworse".to_owned());
    }
    let rows = body_text(&config::render(&a));
    assert_eq!(rows[0], " ▲ CONFIG ON DISK IS INVALID — running last-good ");
    assert_eq!(rows[2], "bad");
    assert_eq!(rows[3], "worse");
    assert_eq!(rows[9], "  power action    halt  (does not cut power)");
    assert_eq!(rows[12], "  luks destroy    not configured");
}

#[test]
fn the_menu_greys_what_cannot_be_done() {
    let mut a = app();
    let area = terminal();
    let rows = overlay_text(&modals::menu(&a, area, 0));
    assert_eq!(rows.len(), 14);
    assert_eq!(rows[0], " ▸ Devices");
    assert_eq!(rows[7], "──────────────");
    assert_eq!(rows[8], "   Arm");
    let mut s = status(false);
    s.config_error = Some("x".to_owned());
    a.status = Some(s);
    let mut c = running();
    c.luks_destroy = None;
    a.config = Some(c);
    let menu = modals::menu(&a, area, 0);
    assert_eq!(text(&menu.lines[6]), "   LUKS destroy   (not configured)");
    assert_eq!(menu.lines[6].spans[0].role, Role::Dim);
    assert_eq!(text(&menu.lines[8]), "   Arm   (config invalid)");
    let mut c = running();
    if let Some(l) = &mut c.luks_destroy {
        l.engaged = true;
    }
    a.config = Some(c);
    a.conn = Conn::Up;
    assert_eq!(text(&modals::menu(&a, area, 0).lines[6]), "   LUKS destroy   (ENGAGED)");
    a.conn = Conn::Down;
    assert_eq!(
        text(&modals::menu(&a, area, 0).lines[6]),
        "   LUKS destroy   (engaged? — daemon unreachable)"
    );
    assert_eq!(MenuItem::Reload.label(), "Reload config from file");
}

#[test]
fn option_labels_end_in_cancel() {
    assert_eq!(device_action_labels(true), ["Remove from whitelist", "Cancel"]);
    assert_eq!(device_action_labels(false), ["Add to whitelist…", "Cancel"]);
    assert_eq!(
        whitelist_entry_action_labels(),
        ["Edit max count…", "Remove from whitelist", "Cancel"]
    );
    assert_eq!(
        ConfirmAction::Disarm.prompt(),
        "Disarm protection? This lowers protection until you re-arm."
    );
}

#[test]
fn a_frame_is_band_screen_and_hint_with_boxes_above() {
    let mut a = app();
    let area = terminal();
    match draw(&a, area) {
        Scene::Full { status_area, pane_area, hint_area, hint, overlays, .. } => {
            assert_eq!(status_area, Rect { x: 0, y: 0, width: 80, height: 1 });
            assert_eq!(pane_area, Rect { x: 0, y: 1, width: 80, height: 22 });
            assert_eq!(hint_area, Rect { x: 0, y: 23, width: 80, height: 1 });
            assert_eq!(
                text(&hint),
                "m menu · ↑↓ move · enter select · r refresh · ? help · q quit"
            );
            assert!(overlays.is_empty());
        }
        Scene::TooSmall { .. } => panic!("the terminal is large enough"),
    }
    a.handle(Intent::ToggleMenu);
    a.handle(Intent::Reconnect);
    a.on_disconnected("gone".to_owned());
    match draw(&a, area) {
        Scene::Full { overlays, hint, pane, .. } => {
            assert_eq!(text(&hint), "↑↓ move · enter select · esc cancel");
            assert_eq!(text(&pane.title), " Devices (0) — STALE (daemon unreachable) ");
            assert_eq!(overlays.len(), 3);
            assert_eq!(overlays[0].area, Rect { x: 21, y: 4, width: 38, height: 16 });
            assert_eq!(overlays[1].frame, Frame::Toast);
            assert_eq!(overlays[1].area, Rect { x: 63, y: 20, width: 17, height: 3 });
            assert_eq!(
                overlay_text(&overlays[2]),
                vec![
                    "  ⚠  daemon unreachable  ",
                    "",
                    "gone",
                    "",
                    "retrying every 2s — r to retry now, q to quit",
                ]
            );
        }
        Scene::TooSmall { .. } => panic!("the terminal is large enough"),
    }
    let small = Rect { width: 59, ..area };
    assert!(matches!(draw(&a, small), Scene::TooSmall { message } if text(&message)
        == "Terminal too small — resize to at least 60×18"));
}

#[test]
fn every_modal_has_its_box() {
    let mut a = app_with_luks();
    let area = terminal();
    let id = UsbId::new(0x1050, 0x0407);
    a.devices = vec![DeviceInfo {
        source: SensorSource::Usb,
        id: Some(id),
        serial: None,
        label: Some("Key".to_owned()),
        whitelisted: false,
    }];
    a.whitelist = vec![WhitelistEntry { id, label: Some("Key".to_owned()), max_count: Some(2) }];
    a.report = Some("one\ntwo".to_owned());
    a.destroy_target = Some("/dev/sda".to_owned());
    let shown = |a: &App<ScriptedClient>| match draw(a, area) {
        Scene::Full { overlays, .. } => overlays.iter().map(overlay_text).next(),
        Scene::TooSmall { .. } => None,
    };
    a.modal = Some(Modal::DeviceAction { device_index: 0, cursor: 1 });
    assert_eq!(
        shown(&a),
        Some(vec![
            "1050:0407  Key  [NEW — not whitelisted]".to_owned(),
            String::new(),
            "   Add to whitelist…".to_owned(),
            " ▸ Cancel".to_owned(),
        ])
    );
    a.modal = Some(Modal::DeviceAction { device_index: 1, cursor: 1 });
    assert_eq!(shown(&a), None, "a device that is gone shows no box");
    a.modal = Some(Modal::WhitelistAddCount { device_index: 0, max_count: 7 });
    assert_eq!(shown(&a).unwrap()[4], "max connected at once:  7");
    a.modal = Some(Modal::ConfirmRemove { device_index: 0 });
    assert_eq!(shown(&a).unwrap()[0], "Remove from whitelist?");
    a.modal = Some(Modal::Confirm { action: ConfirmAction::Arm });
    assert_eq!(shown(&a).unwrap()[0], "Arm protection now?");
    a.modal = Some(Modal::ConfirmConfigSet { row: 1 });
    assert_eq!(
        shown(&a).unwrap()[2],
        "Change the power action while ARMED? A kill may no longer cut power."
    );
    a.modal = Some(Modal::WhitelistEntryAction { entry_index: 0, cursor: 0 });
    assert_eq!(shown(&a).unwrap()[0], "1050:0407  max 2  Key");
    a.modal = Some(Modal::WhitelistAddId);
    a.input = "10".to_owned();
    assert_eq!(shown(&a).unwrap()[2], "vendor:product  10_");
    a.modal = Some(Modal::WhitelistCount { id, max_count: 4, editing: true });
    assert_eq!(shown(&a).unwrap()[0], "Edit max count");
    a.modal = Some(Modal::WhitelistRemoveEntry { id });
    assert_eq!(shown(&a).unwrap()[4], "this device becomes unknown while armed");
    a.modal = Some(Modal::Report);
    assert_eq!(shown(&a).unwrap()[2..4], ["one", "two"]);
    a.modal = Some(Modal::DestroyText { engage: true });
    let rows = shown(&a).unwrap();
    assert_eq!(rows[0], "Engage LUKS header destruction");
    assert_eq!(rows[2], "  target header:  /dev/sda");
    assert_eq!(rows[7], "  > 10_");
    a.modal = Some(Modal::DestroyConfirm { engage: false });
    assert_eq!(shown(&a).unwrap()[0], "Disengage LUKS header destruction now?");
}

#[test]
fn a_toast_is_one_clean_line_and_expires() {
    let mut a = app();
    a.tick(1_000);
    a.on_event(StreamEvent {
        at: "t".to_owned(),
        event: Event::ReloadFailed("a\u{1b}b\r\nmore".to_owned()),
    });
    let (msg, since) = a.toast.clone().expect("a toast was set");
    assert_eq!(
        msg,
        "reload failed: a\u{fffd}b … (see the screen for the full report)"
    );
    assert_eq!(since, 1_000, "shown since it was set");
    a.expire_toast(5_000);
    assert!(a.toast.is_some(), "four seconds is not over the limit");
    a.expire_toast(5_001);
    assert!(a.toast.is_none());
}

#[test]
fn a_toast_about_a_slow_call_lasts_from_its_answer() {
    let mut a = App::new(ScriptedClient::new(vec![Err("wedged".to_owned())]));
    a.tick(1_000);
    a.client.clock = 6_000;
    a.refresh_status();
    assert_eq!(a.toast.clone().map(|t| t.1), Some(6_000));
    a.expire_toast(10_000);
    assert!(a.toast.is_some());
    a.expire_toast(10_001);
    assert!(a.toast.is_none());
}

#[test]
fn settling_twice_asks_once() {
    let mut a = app();
    a.on_event(StreamEvent { at: "t".to_owned(), event: Event::Armed });
    a.settle();
    let asked = a.client.calls.len();
    assert!(asked > 0);
    a.settle();
    assert_eq!(a.client.calls.len(), asked);
}

#[test]
fn cursors_wrap_around() {
    let mut a = app();
    a.handle(Intent::ToggleMenu);
    a.handle(Intent::Up);
    assert_eq!(a.modal, Some(Modal::Menu { cursor: 11 }));
    a.handle(Intent::Down);
    assert_eq!(a.modal, Some(Modal::Menu { cursor: 0 }));
    a.handle(Intent::Back);
    a.screen = Screen::Whitelist;
    a.handle(Intent::Up);
    assert_eq!(a.whitelist_cursor, 0, "the add row alone");
}

#[test]
fn a_shrunken_list_pulls_the_cursor_back() {
    let d = |n| DeviceInfo {
        source: SensorSource::Usb,
        id: Some(UsbId::new(n, n)),
        serial: None,
        label: None,
        whitelisted: false,
    };
    let mut a = App::new(ScriptedClient::new(vec![
        Ok(Reply::Status(status(false))),
        Ok(Reply::Devices(vec![d(1)])),
    ]));
    a.devices = vec![d(1), d(2), d(3)];
    a.device_cursor = 2;
    a.handle(Intent::Refresh);
    assert_eq!(a.device_cursor, 0);
    assert_eq!(a.client.calls, vec![Command::GetStatus, Command::ListDevices]);
}

#[test]
fn an_unexpected_reply_is_shown_in_full() {
    let mut a = App::new(ScriptedClient::new(vec![Ok(Reply::Error("a \"b\"".to_owned()))]));
    a.refresh_status();
    assert_eq!(
        a.toast.unwrap().0,
        "unexpected reply to GetStatus: Error(\"a \\\"b\\\"\")"
    );
}

#[test]
fn monochrome_drops_colour_but_not_the_difference() {
    let some = |s: &str| Some(s.to_owned());
    assert!(!Theme::detect(&None, &some("xterm"), true).mono);
    assert!(!Theme::detect(&some(""), &None, true).mono);
    assert!(Theme::detect(&some("1"), &None, true).mono);
    assert!(Theme::detect(&None, &some("dumb"), true).mono);
    assert!(Theme::detect(&None, &None, false).mono);
    let colour = Theme { mono: false };
    assert_eq!(
        colour.armed(),
        Style { fg: Some(Color::Green), bold: true, dim: false, reversed: true }
    );
    let mono = Theme { mono: true };
    assert_eq!(mono.armed().fg, None);
    assert_ne!(mono.armed(), mono.disarmed());
    for role in [Role::Armed, Role::Disarmed, Role::Invalid, Role::Warn, Role::Bold, Role::Plain] {
        assert_eq!(mono.style(role).fg, None);
    }
    assert_eq!(colour.style(Role::Warn), colour.warn());
    assert_eq!(colour.style(Role::Dim), colour.dim());
    assert_eq!(colour.style(Role::Selected), colour.selected());
    assert_eq!(colour.style(Role::Invalid), colour.invalid());
}

#[test]
fn moving_about_makes_no_call() {
    let mut a = app();
    for intent in [
        Intent::Down,
        Intent::Up,
        Intent::ToggleMenu,
        Intent::Down,
        Intent::Back,
        Intent::Help,
        Intent::Back,
        Intent::Char('y'),
        Intent::Backspace,
        Intent::TogglePause,
        Intent::Reconnect,
        Intent::Nothing,
        Intent::Quit,
    ] {
        a.handle(intent);
    }
    a.on_event(StreamEvent { at: "t".to_owned(), event: Event::Armed });
    a.on_disconnected("gone".to_owned());
    a.tick(9_000);
    a.expire_toast(20_000);
    assert!(a.should_quit);
    assert!(a.client.calls.is_empty());
}
