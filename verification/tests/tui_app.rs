//! The terminal UI's reducer, driven by a client with scripted replies.

use killbill::proto::action::{KillReason, PowerAction};
use killbill::proto::protocol::{
    Command, ConfigChange, ConfigPayload, DeviceInfo, Event, LuksDestroyInfo, OnSensorGap, Reply,
    StatusPayload, StreamEvent, WhitelistEntry,
};
use killbill::proto::sensor_event::{SensorSource, UsbId};
use killbill::tui::app::App;
use killbill::tui::client::ScriptedClient;
use killbill::tui::state::{
    ConfirmAction, Conn, Intent, MenuItem, Modal, Screen, EVENT_LOG_CAP,
};
use killbill::tui::ui::{destroy, help};

fn app(replies: Vec<Result<Reply, String>>) -> App<ScriptedClient> {
    App::new(ScriptedClient::new(replies))
}

fn stream_event(event: Event) -> StreamEvent {
    StreamEvent {
        at: "2024-01-02T03:04:05Z".to_owned(),
        event,
    }
}

fn status(armed: bool) -> StatusPayload {
    StatusPayload {
        armed,
        dry_run: false,
        power_action: PowerAction::PowerOff,
        whitelist_len: 0,
        device_count: 0,
        config_error: None,
        sensor_ok: true,
        events_lost: false,
        config_stale: false,
    }
}

fn config() -> ConfigPayload {
    ConfigPayload {
        armed_at_boot: false,
        sensors: vec!["usb".to_owned()],
        dry_run: false,
        power_action: PowerAction::PowerOff,
        on_sensor_gap: OnSensorGap::Warn,
        luks_destroy: None,
        validation_error: None,
    }
}

fn config_with_luks(engaged: bool) -> ConfigPayload {
    config_with_luks_target("/dev/nvme0n1p3", engaged)
}

fn config_with_luks_target(target: &str, engaged: bool) -> ConfigPayload {
    ConfigPayload {
        luks_destroy: Some(LuksDestroyInfo {
            acknowledged: true,
            target_header: target.to_owned(),
            engaged,
        }),
        ..config()
    }
}

fn device(id: Option<UsbId>, whitelisted: bool) -> DeviceInfo {
    DeviceInfo {
        source: SensorSource::Usb,
        id,
        serial: None,
        label: None,
        whitelisted,
    }
}

fn wl(id: UsbId, max: u32) -> WhitelistEntry {
    WhitelistEntry {
        id,
        label: None,
        max_count: Some(max),
    }
}

#[test]
fn on_connected_refreshes_status_and_devices_with_no_socket() {
    let mut a = app(vec![
        Ok(Reply::Status(status(true))),
        Ok(Reply::Devices(Vec::new())),
    ]);
    a.on_connected();
    assert_eq!(a.conn, Conn::Up);
    assert!(a.conn_error.is_none());
    assert!(a.status.is_some_and(|s| s.armed));
}

#[test]
fn on_disconnected_sets_conn_down_and_keeps_the_reason() {
    let mut a = app(vec![]);
    a.on_disconnected("the daemon closed the event stream".to_owned());
    assert_eq!(a.conn, Conn::Down);
    assert_eq!(
        a.conn_error.as_deref(),
        Some("the daemon closed the event stream")
    );
}

#[test]
fn armed_event_sets_a_toast_and_settle_refreshes_status() {
    let mut a = app(vec![Ok(Reply::Status(status(true)))]);
    a.on_event(stream_event(Event::Armed));
    assert!(a.toast.is_some(), "the toast is set inline");
    assert!(a.client.calls.is_empty(), "no fetch until settle");
    a.settle();
    assert!(a.status.is_some_and(|s| s.armed));
}

#[test]
fn device_added_settles_to_one_status_then_one_devices_fetch() {
    let dev = device(Some(UsbId::new(0x1050, 0x0407)), false);
    let mut a = app(vec![
        Ok(Reply::Status(status(false))),
        Ok(Reply::Devices(vec![dev])),
    ]);
    a.on_event(stream_event(Event::DeviceAdded(device(None, false))));
    assert!(
        a.client.calls.is_empty(),
        "on_event never touches the socket"
    );
    a.settle();
    assert_eq!(
        a.client.calls,
        vec![Command::GetStatus, Command::ListDevices]
    );
    assert_eq!(a.devices.len(), 1);
    assert!(a.status.is_some());
}

#[test]
fn reload_failed_event_sets_a_toast_naming_the_reason() {
    let mut a = app(vec![Ok(Reply::Status(status(false)))]);
    a.on_event(stream_event(Event::ReloadFailed(
        "config on disk is invalid".to_owned(),
    )));
    let (msg, _) = a.toast.clone().expect("a toast was set");
    assert!(msg.contains("config on disk is invalid"), "got: {msg}");
    a.settle();
    assert_eq!(a.client.calls, vec![Command::GetStatus]);
}

#[test]
fn a_backlog_burst_coalesces_to_one_fetch_of_each_kind() {
    let mut a = app(vec![
        Ok(Reply::Status(status(false))),
        Ok(Reply::Devices(Vec::new())),
        Ok(Reply::Whitelist(Vec::new())),
    ]);
    for _ in 0..50 {
        a.on_event(stream_event(Event::DeviceAdded(device(None, false))));
        a.on_event(stream_event(Event::WhitelistChanged));
    }
    assert!(
        a.client.calls.is_empty(),
        "no socket traffic during the burst"
    );
    a.settle();
    assert_eq!(
        a.client.calls,
        vec![
            Command::GetStatus,
            Command::ListDevices,
            Command::WhitelistList
        ]
    );
}

#[test]
fn a_transport_error_sets_a_toast_not_a_panic() {
    let mut a = app(vec![Err("the daemon closed the connection".to_owned())]);
    a.refresh_status();
    assert!(a.toast.is_some());
}

#[test]
fn command_reports_a_refusal_and_still_refreshes_status() {
    let mut a = app(vec![
        Ok(Reply::Error("refusing to arm: config invalid".to_owned())),
        Ok(Reply::Status(status(false))),
    ]);
    a.command(&Command::Arm, "armed");
    let (msg, _) = a.toast.expect("a toast was set");
    assert!(msg.contains("refusing to arm"), "got: {msg}");
    assert!(a.status.is_some());
}

#[test]
fn menu_order_is_complete_and_unique() {
    let mut seen = MenuItem::ORDER.to_vec();
    seen.sort_by_key(|m| *m as u8);
    seen.dedup_by_key(|m| *m as u8);
    assert_eq!(seen.len(), MenuItem::ORDER.len());
}

#[test]
fn group_separators_sit_before_arm_and_help() {
    let breaks: Vec<&str> = MenuItem::ORDER
        .iter()
        .filter(|m| m.starts_group())
        .map(|m| m.label())
        .collect();
    assert_eq!(breaks, ["Arm", "Help"]);
}

#[test]
fn enter_on_a_device_row_opens_the_device_action_modal() {
    let mut a = app(vec![]);
    a.devices = vec![device(Some(UsbId::new(0x1050, 0x0407)), false)];
    a.handle(Intent::Select);
    assert!(matches!(
        a.modal,
        Some(Modal::DeviceAction {
            device_index: 0,
            cursor: 0
        })
    ));
}

#[test]
fn enter_on_a_device_with_no_usb_id_toasts_instead_of_opening_a_modal() {
    let mut a = app(vec![]);
    a.devices = vec![device(None, false)];
    a.handle(Intent::Select);
    assert!(a.modal.is_none());
    let (msg, _) = a.toast.expect("a toast was set");
    assert!(msg.contains("no USB id"), "got: {msg}");
}

#[test]
fn device_action_add_option_opens_the_whitelist_add_count_modal() {
    let mut a = app(vec![]);
    a.devices = vec![device(Some(UsbId::new(0x1050, 0x0407)), false)];
    a.modal = Some(Modal::DeviceAction {
        device_index: 0,
        cursor: 0,
    });
    a.handle(Intent::Select);
    assert!(matches!(
        a.modal,
        Some(Modal::WhitelistAddCount {
            device_index: 0,
            max_count: 1
        })
    ));
}

#[test]
fn device_action_cancel_option_closes_the_modal_without_a_command() {
    let mut a = app(vec![]);
    a.devices = vec![device(Some(UsbId::new(0x1050, 0x0407)), false)];
    a.modal = Some(Modal::DeviceAction {
        device_index: 0,
        cursor: 1,
    });
    a.handle(Intent::Select);
    assert!(a.modal.is_none());
}

#[test]
fn whitelist_add_count_stepper_stays_within_one_and_the_ui_cap() {
    let mut a = app(vec![]);
    a.modal = Some(Modal::WhitelistAddCount {
        device_index: 0,
        max_count: 1,
    });
    a.handle(Intent::Up);
    assert!(matches!(
        a.modal,
        Some(Modal::WhitelistAddCount { max_count: 2, .. })
    ));
    a.handle(Intent::Down);
    a.handle(Intent::Down);
    assert!(matches!(
        a.modal,
        Some(Modal::WhitelistAddCount { max_count: 1, .. })
    ));
}

#[test]
fn confirming_whitelist_add_sends_the_chosen_id_and_count() {
    let id = UsbId::new(0x1050, 0x0407);
    let mut a = app(vec![Ok(Reply::Done), Ok(Reply::Status(status(false)))]);
    a.devices = vec![device(Some(id), false)];
    a.modal = Some(Modal::WhitelistAddCount {
        device_index: 0,
        max_count: 3,
    });
    a.handle(Intent::Select);
    assert!(a.modal.is_none());
    assert!(matches!(
        a.client.calls.as_slice(),
        [Command::WhitelistAdd(entry), Command::GetStatus]
            if entry.id == id && entry.max_count == Some(3)
    ));
    let (msg, _) = a.toast.expect("a toast was set");
    assert!(msg.contains("added"), "got: {msg}");
}

#[test]
fn device_action_remove_option_opens_a_confirm_for_a_whitelisted_device() {
    let mut a = app(vec![]);
    a.devices = vec![device(Some(UsbId::new(0x1050, 0x0407)), true)];
    a.modal = Some(Modal::DeviceAction {
        device_index: 0,
        cursor: 0,
    });
    a.handle(Intent::Select);
    assert!(matches!(
        a.modal,
        Some(Modal::ConfirmRemove { device_index: 0 })
    ));
}

#[test]
fn confirming_remove_sends_whitelist_remove_for_that_id() {
    let id = UsbId::new(0x1050, 0x0407);
    let mut a = app(vec![Ok(Reply::Done), Ok(Reply::Status(status(false)))]);
    a.devices = vec![device(Some(id), true)];
    a.modal = Some(Modal::ConfirmRemove { device_index: 0 });
    a.handle(Intent::Select);
    assert!(a.modal.is_none());
    assert_eq!(
        a.client.calls,
        vec![Command::WhitelistRemove(id), Command::GetStatus]
    );
}

#[test]
fn a_device_that_vanished_while_a_modal_was_open_is_reported_not_acted_on() {
    let mut a = app(vec![]);
    a.devices = Vec::new();
    a.modal = Some(Modal::WhitelistAddCount {
        device_index: 0,
        max_count: 1,
    });
    a.handle(Intent::Select);
    assert!(a.modal.is_none());
    assert!(a.client.calls.is_empty());
    assert!(a.toast.is_some());
}

#[test]
fn whitelist_changed_event_refreshes_devices_whitelist_and_status() {
    let dev = device(Some(UsbId::new(0x1050, 0x0407)), true);
    let mut a = app(vec![
        Ok(Reply::Status(status(false))),
        Ok(Reply::Devices(vec![dev])),
        Ok(Reply::Whitelist(vec![wl(UsbId::new(0x1050, 0x0407), 1)])),
    ]);
    a.on_event(stream_event(Event::WhitelistChanged));
    a.settle();
    assert_eq!(a.devices.len(), 1);
    assert_eq!(a.whitelist.len(), 1);
    assert!(a.status.is_some());
}

#[test]
fn menu_arm_opens_a_confirm_modal_and_fires_nothing_yet() {
    let mut a = app(vec![]);
    a.select_menu_item(MenuItem::Arm);
    assert!(matches!(
        a.modal,
        Some(Modal::Confirm {
            action: ConfirmAction::Arm
        })
    ));
    assert!(a.client.calls.is_empty(), "no command before the confirm");
}

#[test]
fn menu_disarm_confirm_then_select_sends_disarm() {
    let mut a = app(vec![Ok(Reply::Done), Ok(Reply::Status(status(false)))]);
    a.select_menu_item(MenuItem::Disarm);
    a.handle(Intent::Select);
    assert!(a.modal.is_none());
    assert_eq!(a.client.calls, vec![Command::Disarm, Command::GetStatus]);
}

#[test]
fn a_confirm_modal_is_dismissed_by_back_without_a_command() {
    let mut a = app(vec![]);
    a.select_menu_item(MenuItem::Reload);
    a.handle(Intent::Back);
    assert!(a.modal.is_none());
    assert!(a.client.calls.is_empty());
}

#[test]
fn whitelist_row_zero_opens_the_add_id_field() {
    let mut a = app(vec![]);
    a.screen = Screen::Whitelist;
    a.whitelist = vec![wl(UsbId::new(0x1050, 0x0407), 1)];
    a.whitelist_cursor = 0;
    a.handle(Intent::Select);
    assert!(matches!(a.modal, Some(Modal::WhitelistAddId)));
}

#[test]
fn typing_a_valid_id_then_enter_moves_to_the_count_picker() {
    let mut a = app(vec![]);
    a.modal = Some(Modal::WhitelistAddId);
    for c in "1050:0407".chars() {
        a.handle(Intent::Char(c));
    }
    assert_eq!(a.input, "1050:0407");
    a.handle(Intent::Select);
    assert!(matches!(
        a.modal,
        Some(Modal::WhitelistCount {
            id,
            max_count: 1,
            editing: false
        }) if id == UsbId::new(0x1050, 0x0407)
    ));
    assert!(a.input.is_empty());
}

#[test]
fn the_add_id_field_rejects_non_hex_and_a_second_colon() {
    let mut a = app(vec![]);
    a.modal = Some(Modal::WhitelistAddId);
    for c in "10:50:zz".chars() {
        a.handle(Intent::Char(c));
    }
    assert_eq!(a.input, "10:50");
}

#[test]
fn an_unparseable_id_keeps_the_field_open_with_a_toast() {
    let mut a = app(vec![]);
    a.modal = Some(Modal::WhitelistAddId);
    for c in "10".chars() {
        a.handle(Intent::Char(c));
    }
    a.handle(Intent::Select);
    assert!(matches!(a.modal, Some(Modal::WhitelistAddId)));
    let (msg, _) = a.toast.expect("a toast was set");
    assert!(msg.contains("invalid id"), "got: {msg}");
}

#[test]
fn confirming_the_count_picker_upserts_and_preserves_an_existing_label() {
    let id = UsbId::new(0x1050, 0x0407);
    let mut a = app(vec![Ok(Reply::Done), Ok(Reply::Status(status(false)))]);
    a.whitelist = vec![WhitelistEntry {
        id,
        label: Some("YubiKey".to_owned()),
        max_count: Some(1),
    }];
    a.modal = Some(Modal::WhitelistCount {
        id,
        max_count: 4,
        editing: true,
    });
    a.handle(Intent::Select);
    assert!(matches!(
        a.client.calls.as_slice(),
        [Command::WhitelistAdd(e), Command::GetStatus]
            if e.id == id && e.max_count == Some(4) && e.label.as_deref() == Some("YubiKey")
    ));
}

#[test]
fn whitelist_entry_action_remove_confirm_sends_whitelist_remove() {
    let id = UsbId::new(0x1050, 0x0407);
    let mut a = app(vec![Ok(Reply::Done), Ok(Reply::Status(status(false)))]);
    a.screen = Screen::Whitelist;
    a.whitelist = vec![wl(id, 1)];
    a.whitelist_cursor = 1;
    a.handle(Intent::Select);
    a.handle(Intent::Down); // cursor 0 -> 1 ("Remove from whitelist")
    a.handle(Intent::Select);
    assert!(matches!(a.modal, Some(Modal::WhitelistRemoveEntry { .. })));
    a.handle(Intent::Select);
    assert_eq!(
        a.client.calls,
        vec![Command::WhitelistRemove(id), Command::GetStatus]
    );
}

#[test]
fn whitelist_entry_action_on_a_vanished_entry_is_reported_not_acted_on() {
    let mut a = app(vec![]);
    a.whitelist = Vec::new();
    a.modal = Some(Modal::WhitelistEntryAction {
        entry_index: 3,
        cursor: 0,
    });
    a.handle(Intent::Select);
    assert!(a.modal.is_none());
    assert!(a.client.calls.is_empty());
    assert!(a.toast.is_some());
}

#[test]
fn settings_toggle_dry_run_sends_config_set_with_the_flipped_value() {
    let mut a = app(vec![
        Ok(Reply::Done),
        Ok(Reply::Config(config())),
        Ok(Reply::Status(status(false))),
    ]);
    a.config = Some(config());
    a.status = Some(status(false));
    a.screen = Screen::Settings;
    a.settings_cursor = 0;
    a.handle(Intent::Select);
    assert_eq!(
        a.client.calls[0],
        Command::ConfigSet(ConfigChange::DryRun(true))
    );
}

#[test]
fn settings_cycle_power_action_goes_poweroff_then_halt() {
    let mut a = app(vec![
        Ok(Reply::Done),
        Ok(Reply::Config(config())),
        Ok(Reply::Status(status(false))),
    ]);
    a.config = Some(config());
    a.status = Some(status(false));
    a.screen = Screen::Settings;
    a.settings_cursor = 1;
    a.handle(Intent::Select);
    assert_eq!(
        a.client.calls[0],
        Command::ConfigSet(ConfigChange::PowerAction(PowerAction::Halt))
    );
}

#[test]
fn a_rejected_config_set_shows_the_report_and_re_fetches_the_running_config() {
    let mut running = config();
    running.dry_run = false;
    let mut a = app(vec![
        Ok(Reply::Error(
            "power_action = none is unsafe here".to_owned(),
        )),
        Ok(Reply::Config(running.clone())),
    ]);
    a.config = Some(running);
    a.status = Some(status(false));
    a.screen = Screen::Settings;
    a.settings_cursor = 0;
    a.handle(Intent::Select);
    assert!(matches!(a.modal, Some(Modal::Report)));
    assert_eq!(
        a.report.as_deref(),
        Some("power_action = none is unsafe here")
    );
    assert!(a.config.is_some_and(|c| !c.dry_run));
}

#[test]
fn the_report_modal_is_dismissed_by_select() {
    let mut a = app(vec![]);
    a.modal = Some(Modal::Report);
    a.report = Some("something".to_owned());
    a.handle(Intent::Select);
    assert!(a.modal.is_none());
    assert!(a.report.is_none());
}

#[test]
fn entering_the_dry_run_screen_runs_one_and_stores_the_reasons() {
    let reason = KillReason::UnknownDevice {
        id: UsbId::new(0x0781, 0x5567),
    };
    let mut a = app(vec![Ok(Reply::DryRun(vec![reason.clone()]))]);
    a.select_menu_item(MenuItem::DryRun);
    assert!(matches!(a.screen, Screen::DryRun));
    assert_eq!(a.dryrun.as_deref(), Some([reason].as_slice()));
}

#[test]
fn the_event_log_ring_records_every_event_and_caps_its_length() {
    let mut a = app(vec![]);
    for _ in 0..EVENT_LOG_CAP + 50 {
        a.on_event(stream_event(Event::Armed));
    }
    assert_eq!(a.events.len(), EVENT_LOG_CAP);
    assert!(a.client.calls.is_empty());
}

#[test]
fn scrolling_the_event_log_up_pauses_follow_and_back_down_resumes_it() {
    let mut a = app(vec![]);
    a.screen = Screen::EventLog;
    a.events = (0..5).map(|_| stream_event(Event::Armed)).collect();
    a.handle(Intent::Up);
    assert!(a.events_paused);
    assert_eq!(a.event_scroll, 1);
    a.handle(Intent::Down);
    assert_eq!(a.event_scroll, 0);
    assert!(!a.events_paused);
}

#[test]
fn event_log_scroll_stops_at_the_oldest_line() {
    let mut a = app(vec![]);
    a.screen = Screen::EventLog;
    a.events = (0..5).map(|_| stream_event(Event::Armed)).collect();
    for _ in 0..100 {
        a.handle(Intent::Up);
    }
    assert_eq!(a.event_scroll, 4);
}

#[test]
fn p_toggles_the_event_log_pause_only_on_that_screen() {
    let mut a = app(vec![]);
    a.screen = Screen::Devices;
    a.handle(Intent::TogglePause);
    assert!(!a.events_paused, "no effect off the event log");
    a.screen = Screen::EventLog;
    a.handle(Intent::TogglePause);
    assert!(a.events_paused);
}

#[test]
fn menu_config_opens_the_read_only_inspector_and_fetches_config() {
    let mut a = app(vec![Ok(Reply::Config(config()))]);
    a.select_menu_item(MenuItem::Config);
    assert!(matches!(a.screen, Screen::Config));
    assert_eq!(a.client.calls, vec![Command::GetConfig]);
}

#[test]
fn the_help_key_opens_the_help_screen_from_anywhere() {
    let mut a = app(vec![]);
    a.screen = Screen::Settings;
    a.modal = Some(Modal::Report);
    a.handle(Intent::Help);
    assert!(matches!(a.screen, Screen::Help));
    assert!(a.modal.is_none());
}

#[test]
fn menu_luks_destroy_opens_the_fenced_screen_and_refetches_config() {
    let mut a = app(vec![Ok(Reply::Config(config_with_luks(false)))]);
    a.select_menu_item(MenuItem::LuksDestroy);
    assert!(matches!(a.screen, Screen::Destroy));
    assert_eq!(a.client.calls, vec![Command::GetConfig]);
}

#[test]
fn destroy_enter_opens_the_fence_toward_the_opposite_of_the_current_state() {
    let mut a = app(vec![]);
    a.screen = Screen::Destroy;

    a.config = Some(config_with_luks(false));
    a.handle(Intent::Select);
    assert!(matches!(a.modal, Some(Modal::DestroyText { engage: true })));

    a.modal = None;
    a.config = Some(config_with_luks(true));
    a.handle(Intent::Select);
    assert!(matches!(
        a.modal,
        Some(Modal::DestroyText { engage: false })
    ));
}

#[test]
fn destroy_fence_refuses_while_the_daemon_is_unreachable() {
    let mut a = app(vec![]);
    a.screen = Screen::Destroy;
    a.config = Some(config_with_luks(false));
    a.on_disconnected("the daemon closed the connection".to_owned());
    a.handle(Intent::Select);
    assert!(a.modal.is_none(), "no fence opens while the daemon is down");
    assert!(a.client.calls.is_empty());
    let (msg, _) = a.toast.expect("a toast was set");
    assert!(msg.contains("unreachable"), "got: {msg}");
}

#[test]
fn destroy_fence_refuses_when_luks_is_not_configured() {
    let mut a = app(vec![]);
    a.screen = Screen::Destroy;
    a.config = Some(config());
    a.handle(Intent::Select);
    assert!(a.modal.is_none());
    assert!(a.client.calls.is_empty());
    let (msg, _) = a.toast.expect("a toast was set");
    assert!(msg.contains("not configured"), "got: {msg}");
}

#[test]
fn destroy_fence_rejects_a_wrong_word_and_sends_nothing() {
    let mut a = app(vec![]);
    a.screen = Screen::Destroy;
    a.config = Some(config_with_luks(false));
    a.handle(Intent::Select);
    for c in "destroy".chars() {
        a.handle(Intent::Char(c));
    }
    assert_eq!(a.input, "destroy");
    a.handle(Intent::Select);
    assert!(a.modal.is_none(), "a wrong word cancels the fence");
    assert!(a.client.calls.is_empty());
    assert!(a.input.is_empty());
    let (msg, _) = a.toast.expect("a toast was set");
    assert!(msg.contains("DESTROY"), "got: {msg}");
}

#[test]
fn destroy_fence_needs_the_exact_word_then_y_to_engage() {
    let mut a = app(vec![
        Ok(Reply::Done),
        Ok(Reply::Config(config_with_luks(true))),
        Ok(Reply::Status(status(true))),
    ]);
    a.screen = Screen::Destroy;
    a.config = Some(config_with_luks(false));
    a.handle(Intent::Select);
    for c in "DESTROY".chars() {
        a.handle(Intent::Char(c));
    }
    a.handle(Intent::Select);
    assert!(matches!(
        a.modal,
        Some(Modal::DestroyConfirm { engage: true })
    ));
    a.handle(Intent::Char('y'));
    assert!(a.modal.is_none());
    assert_eq!(a.client.calls[0], Command::SetLuksDestroyEngaged(true));
    assert!(a.luks_engaged(), "the re-fetch reflects the new state");
}

#[test]
fn destroy_fence_step_two_cancels_on_any_key_but_y() {
    for cancel in [
        Intent::Char('n'),
        Intent::Char('x'),
        Intent::Select,
        Intent::Back,
    ] {
        let mut a = app(vec![]);
        a.modal = Some(Modal::DestroyConfirm { engage: true });
        a.handle(cancel);
        assert!(a.modal.is_none());
        assert!(a.client.calls.is_empty(), "nothing sent on cancel");
    }
}

#[test]
fn destroy_fence_step_two_also_accepts_capital_y() {
    let mut a = app(vec![
        Ok(Reply::Done),
        Ok(Reply::Config(config_with_luks(false))),
        Ok(Reply::Status(status(false))),
    ]);
    a.screen = Screen::Destroy;
    a.config = Some(config_with_luks(true));
    a.handle(Intent::Select);
    for c in "DESTROY".chars() {
        a.handle(Intent::Char(c));
    }
    a.handle(Intent::Select);
    a.handle(Intent::Char('Y'));
    assert_eq!(a.client.calls[0], Command::SetLuksDestroyEngaged(false));
}

#[test]
fn destroy_fence_aborts_if_the_target_was_repointed_while_it_was_open() {
    let mut a = app(vec![Ok(Reply::Config(config_with_luks_target(
        "/dev/sdb", false,
    )))]);
    a.screen = Screen::Destroy;
    a.config = Some(config_with_luks_target("/dev/nvme0n1p3", false));
    a.handle(Intent::Select);
    a.config = Some(config_with_luks_target("/dev/sdb", false));
    for c in "DESTROY".chars() {
        a.handle(Intent::Char(c));
    }
    a.handle(Intent::Select);
    a.handle(Intent::Char('y'));
    assert!(a.modal.is_none());
    assert!(
        !a.client
            .calls
            .iter()
            .any(|c| matches!(c, Command::SetLuksDestroyEngaged(_))),
        "must not engage for a target the operator never confirmed"
    );
    let (msg, _) = a.toast.expect("a toast was set");
    assert!(msg.contains("target changed"), "got: {msg}");
}

#[test]
fn enabling_dry_run_while_armed_asks_to_confirm_first() {
    let mut a = app(vec![
        Ok(Reply::Done),
        Ok(Reply::Config(config())),
        Ok(Reply::Status(status(true))),
    ]);
    a.conn = Conn::Up;
    a.config = Some(config());
    a.status = Some(status(true));
    a.screen = Screen::Settings;
    a.settings_cursor = 0;
    a.handle(Intent::Select);
    assert!(matches!(a.modal, Some(Modal::ConfirmConfigSet { row: 0 })));
    assert!(a.client.calls.is_empty(), "nothing sent before the confirm");
    a.handle(Intent::Select);
    assert_eq!(
        a.client.calls[0],
        Command::ConfigSet(ConfigChange::DryRun(true))
    );
}

#[test]
fn a_settings_change_that_does_not_lower_protection_stays_one_keystroke_while_armed() {
    let mut a = app(vec![
        Ok(Reply::Done),
        Ok(Reply::Config(config())),
        Ok(Reply::Status(status(true))),
    ]);
    a.conn = Conn::Up;
    a.config = Some(config());
    a.status = Some(status(true));
    a.screen = Screen::Settings;
    a.settings_cursor = 2;
    a.handle(Intent::Select);
    assert_eq!(
        a.client.calls[0],
        Command::ConfigSet(ConfigChange::ArmedAtBoot(true))
    );
}

#[test]
fn a_settings_edit_is_refused_while_the_daemon_is_unreachable() {
    let mut a = app(vec![]);
    a.config = Some(config());
    a.screen = Screen::Settings;
    a.on_disconnected("gone".to_owned());
    a.settings_cursor = 0;
    a.handle(Intent::Select);
    assert!(a.client.calls.is_empty());
    assert!(a.modal.is_none());
    let (msg, _) = a.toast.expect("a toast was set");
    assert!(msg.contains("unreachable"), "got: {msg}");
}

#[test]
fn help_scroll_stops_at_the_end_of_the_content() {
    let mut a = app(vec![]);
    a.screen = Screen::Help;
    for _ in 0..10_000 {
        a.handle(Intent::Down);
    }
    assert!(a.help_scroll > 0);
    assert!(a.help_scroll < help::line_count());
}

#[test]
fn destroy_screen_scrolls_and_clamps_to_the_content() {
    let mut a = app(vec![]);
    a.conn = Conn::Up;
    a.screen = Screen::Destroy;
    a.config = Some(config_with_luks(false));
    for _ in 0..10_000 {
        a.handle(Intent::Down);
    }
    let count = destroy::line_count(&a);
    assert!(a.destroy_scroll > 0, "it scrolled");
    assert!(
        a.destroy_scroll < count,
        "scroll {} stays under the {count}-line body",
        a.destroy_scroll
    );
}
