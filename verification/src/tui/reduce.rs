//! What each input does to the terminal UI's state.
//!
//! A step that asks the daemon reads the answers, and the times at which they come, off a `tape`:
//! the answer to the next command is the entry of the tape after the ones already heard. A
//! contract over every tape that begins with what was heard says what a step does for every
//! answer it may get.

use crate::proto::action::PowerAction;
use crate::proto::debug;
use crate::proto::protocol::{
    CommandView, ConfigChangeView, EventView, OnSensorGap, ReplyView, StreamEventView,
    WhitelistEntryView,
};
use crate::proto::sensor_event;
use crate::proto::sensor_event::UsbId;
use crate::text;
use crate::tui::client::Answer;
use crate::tui::state;
use crate::tui::state::{
    AppView, Conn, Intent, MenuItem, Modal, Screen, Tape, DESTROY_WORD_INPUT_MAX, DEVICE_ACTION_OPTIONS,
    EVENT_LOG_CAP, MAX_WHITELIST_COUNT_UI, MENU_LEN, SETTINGS_ROW_COUNT, TOAST_TTL,
    USB_ID_INPUT_LEN, WHITELIST_ENTRY_ACTION_OPTIONS,
};
use crate::tui::ui::destroy;
use crate::tui::ui::help::HELP_LINES;
use vstd::prelude::*;

verus! {

/// Whether a tape begins with what was heard, and with what the clock read.
pub open spec fn follows(tape: Tape, heard: Seq<Answer>, readings: Seq<u64>) -> bool {
    &&& heard.len() <= tape.answers.len() && tape.answers.take(heard.len() as int) == heard
    &&& readings.len() <= tape.times.len() && tape.times.take(readings.len() as int) == readings
}

/// A tape begins with itself.
pub proof fn a_tape_follows_itself(a: AppView)
    ensures
        follows(a.tape(), a.heard, a.readings),
{
    assert(a.heard.take(a.heard.len() as int) =~= a.heard);
    assert(a.readings.take(a.readings.len() as int) =~= a.readings);
}

/// The answer that the next command gets.
pub open spec fn answer(a: AppView, tape: Tape) -> Answer {
    tape.answers[a.heard.len() as int]
}

/// The time at which it comes.
pub open spec fn answered_at(a: AppView, tape: Tape) -> u64 {
    tape.times[a.readings.len() as int]
}

/// The state after a command was sent and answered.
pub open spec fn asked(a: AppView, cmd: CommandView, tape: Tape) -> AppView {
    AppView {
        sent: a.sent.push(cmd),
        heard: a.heard.push(answer(a, tape)),
        readings: a.readings.push(answered_at(a, tape)),
        clock: answered_at(a, tape),
        ..a
    }
}

/// The state at a time that the caller gives.
pub open spec fn ticked(a: AppView, now: u64) -> AppView {
    AppView { clock: now, ..a }
}

/// Whether a character is a control code.
pub open spec fn is_control(c: char) -> bool {
    c <= '\u{1f}' || '\u{7f}' <= c <= '\u{9f}'
}

/// A character as a toast shows it.
pub open spec fn visible(c: char) -> char {
    if is_control(c) {
        '\u{fffd}'
    } else {
        c
    }
}

/// A message as a single transient line: its first line, with stray control codes replaced,
/// and a pointer to the rest where there is more.
#[verifier::opaque]
pub open spec fn toast_text(msg: Seq<char>) -> Seq<char> {
    let lines = text::lines_of(msg);
    let first = if lines.len() > 0 {
        lines[0].map_values(|c: char| visible(c))
    } else {
        Seq::empty()
    };
    if lines.len() > 1 {
        first + " … (see the screen for the full report)"@
    } else {
        first
    }
}

/// The state with a new toast, set now.
pub open spec fn toasted(a: AppView, msg: Seq<char>) -> AppView {
    AppView { toast: Some((toast_text(msg), a.clock)), ..a }
}

/// The state once `now` is reached: a toast that was set longer ago than its time goes.
pub open spec fn toast_expired(a: AppView, now: u64) -> AppView {
    match a.toast {
        Some((text, shown_at)) => if now - shown_at > TOAST_TTL {
            AppView { toast: None, ..a }
        } else {
            a
        },
        None => a,
    }
}

// --- fetches ---

/// The current status, fetched.
#[verifier::opaque]
pub open spec fn status_fetched(a: AppView, tape: Tape) -> AppView {
    let b = asked(a, CommandView::GetStatus, tape);
    match answer(a, tape) {
        Ok(ReplyView::Status(s)) => AppView { status: Some(s), ..b },
        Ok(other) => toasted(b, "unexpected reply to GetStatus: "@ + debug::of_reply(other)),
        Err(e) => toasted(b, "status: "@ + e),
    }
}

/// A cursor kept on a row after the list changed.
pub open spec fn clamped(cursor: usize, len: nat) -> usize {
    if cursor < len {
        cursor
    } else if len == 0 {
        0
    } else {
        (len - 1) as usize
    }
}

/// The connected devices, fetched.
#[verifier::opaque]
pub open spec fn devices_fetched(a: AppView, tape: Tape) -> AppView {
    let b = asked(a, CommandView::ListDevices, tape);
    match answer(a, tape) {
        Ok(ReplyView::Devices(d)) => AppView {
            devices: d,
            device_cursor: clamped(a.device_cursor, d.len()),
            ..b
        },
        Ok(other) => toasted(b, "unexpected reply to ListDevices: "@ + debug::of_reply(other)),
        Err(e) => toasted(b, "devices: "@ + e),
    }
}

/// The whitelist, fetched. Its screen has one more row, for adding an entry.
#[verifier::opaque]
pub open spec fn whitelist_fetched(a: AppView, tape: Tape) -> AppView {
    let b = asked(a, CommandView::WhitelistList, tape);
    match answer(a, tape) {
        Ok(ReplyView::Whitelist(w)) => AppView {
            whitelist: w,
            whitelist_cursor: clamped(a.whitelist_cursor, w.len() + 1),
            ..b
        },
        Ok(other) => toasted(b, "unexpected reply to WhitelistList: "@ + debug::of_reply(other)),
        Err(e) => toasted(b, "whitelist: "@ + e),
    }
}

/// The running config, fetched.
#[verifier::opaque]
pub open spec fn config_fetched(a: AppView, tape: Tape) -> AppView {
    let b = asked(a, CommandView::GetConfig, tape);
    match answer(a, tape) {
        Ok(ReplyView::Config(c)) => AppView { config: Some(c), ..b },
        Ok(other) => toasted(b, "unexpected reply to GetConfig: "@ + debug::of_reply(other)),
        Err(e) => toasted(b, "config: "@ + e),
    }
}

/// What would fire now, asked.
#[verifier::opaque]
pub open spec fn dry_run_fetched(a: AppView, tape: Tape) -> AppView {
    let b = asked(a, CommandView::RunDryRun, tape);
    match answer(a, tape) {
        Ok(ReplyView::DryRun(reasons)) => AppView { dryrun: Some(reasons), ..b },
        Ok(ReplyView::Error(e)) => toasted(b, "dry run refused: "@ + e),
        Ok(other) => toasted(b, "unexpected reply to RunDryRun: "@ + debug::of_reply(other)),
        Err(e) => toasted(b, "dry run: "@ + e),
    }
}

/// The status, and what the current screen shows, fetched.
#[verifier::opaque]
pub open spec fn refreshed(a: AppView, tape: Tape) -> AppView {
    let b = status_fetched(a, tape);
    match a.screen {
        Screen::Devices => devices_fetched(b, tape),
        Screen::Whitelist => whitelist_fetched(b, tape),
        Screen::Settings => config_fetched(b, tape),
        Screen::Config => config_fetched(b, tape),
        Screen::Destroy => config_fetched(b, tape),
        Screen::DryRun => dry_run_fetched(b, tape),
        Screen::EventLog => b,
        Screen::Help => b,
    }
}

/// A command sent, its answer shown, and the status fetched to reflect what changed.
#[verifier::opaque]
pub open spec fn commanded(
    a: AppView,
    cmd: CommandView,
    done: Seq<char>,
    tape: Tape,
) -> AppView {
    let b = asked(a, cmd, tape);
    status_fetched(
        match answer(a, tape) {
            Ok(ReplyView::Done) => toasted(b, done),
            Ok(ReplyView::Error(e)) => toasted(b, "refused: "@ + e),
            Ok(other) => toasted(b, "unexpected reply: "@ + debug::of_reply(other)),
            Err(e) => toasted(b, "error: "@ + e),
        },
        tape,
    )
}

// --- what the daemon says ---

/// The event connection came up.
pub open spec fn connected(a: AppView, tape: Tape) -> AppView {
    refreshed(AppView { conn: Conn::Up, conn_error: None, ..a }, tape)
}

/// The event connection went down.
pub open spec fn disconnected(a: AppView, why: Seq<char>) -> AppView {
    AppView { conn: Conn::Down, conn_error: Some(why), ..a }
}

/// One line further back in a log of `len` lines, the oldest line staying visible.
pub open spec fn scrolled_back(scroll: usize, len: nat) -> usize {
    clamped((scroll + 1) as usize, len)
}

/// The newest `cap` of some events.
pub open spec fn newest(events: Seq<StreamEventView>, cap: nat) -> Seq<StreamEventView> {
    if events.len() <= cap {
        events
    } else {
        events.skip(events.len() - cap)
    }
}

/// An event recorded in the log. A paused log keeps its place while new lines come in below.
#[verifier::opaque]
pub open spec fn recorded(a: AppView, e: StreamEventView) -> AppView {
    let events = newest(a.events.push(e), EVENT_LOG_CAP as nat);
    AppView {
        events,
        event_scroll: if a.screen != Screen::EventLog {
            a.event_scroll
        } else if a.events_paused {
            scrolled_back(a.event_scroll, events.len())
        } else {
            0
        },
        ..a
    }
}

/// What an event says in a toast, if anything.
#[verifier::opaque]
pub open spec fn event_toast(e: EventView) -> Option<Seq<char>> {
    match e {
        EventView::DeviceAdded(_) => None,
        EventView::DeviceRemoved(_) => None,
        EventView::Armed => Some("Armed"@),
        EventView::Disarmed => Some("Disarmed"@),
        EventView::WouldKill(reason) => Some("would kill: "@ + reason.text()),
        EventView::SensorStopped => Some("USB sensor stopped — daemon is no longer watching"@),
        EventView::EventsLost => Some("USB events lost — some device changes were missed"@),
        EventView::WhitelistChanged => Some("whitelist changed"@),
        EventView::ConfigChanged => Some("config changed"@),
        EventView::ReloadFailed(reason) => Some("reload failed: "@ + reason),
    }
}

/// Whether an event can have changed the status.
pub open spec fn marks_status(e: EventView) -> bool {
    !(e is WouldKill)
}

/// Whether an event can have changed the device list.
pub open spec fn marks_devices(e: EventView) -> bool {
    e is DeviceAdded || e is DeviceRemoved || e is WhitelistChanged
}

/// An event from the daemon: recorded, told, and what it touches marked for re-fetching.
/// Nothing is asked of the daemon here.
pub open spec fn event_received(a: AppView, e: StreamEventView) -> AppView {
    let b = recorded(a, e);
    let c = match event_toast(e.event) {
        Some(msg) => toasted(b, msg),
        None => b,
    };
    AppView {
        dirty_status: b.dirty_status || marks_status(e.event),
        dirty_devices: b.dirty_devices || marks_devices(e.event),
        dirty_whitelist: b.dirty_whitelist || e.event is WhitelistChanged,
        dirty_config: b.dirty_config || e.event is ConfigChanged,
        ..c
    }
}

/// The status fetched, if it was marked.
#[verifier::opaque]
pub open spec fn status_settled(a: AppView, tape: Tape) -> AppView {
    if a.dirty_status {
        status_fetched(AppView { dirty_status: false, ..a }, tape)
    } else {
        a
    }
}

/// The device list fetched, if it was marked.
#[verifier::opaque]
pub open spec fn devices_settled(a: AppView, tape: Tape) -> AppView {
    if a.dirty_devices {
        devices_fetched(AppView { dirty_devices: false, ..a }, tape)
    } else {
        a
    }
}

/// The whitelist fetched, if it was marked.
#[verifier::opaque]
pub open spec fn whitelist_settled(a: AppView, tape: Tape) -> AppView {
    if a.dirty_whitelist {
        whitelist_fetched(AppView { dirty_whitelist: false, ..a }, tape)
    } else {
        a
    }
}

/// The config fetched, if it was marked.
#[verifier::opaque]
pub open spec fn config_settled(a: AppView, tape: Tape) -> AppView {
    if a.dirty_config {
        config_fetched(AppView { dirty_config: false, ..a }, tape)
    } else {
        a
    }
}

/// What was marked, fetched: at most one fetch of each kind, the status first.
pub open spec fn settled(a: AppView, tape: Tape) -> AppView {
    config_settled(
        whitelist_settled(devices_settled(status_settled(a, tape), tape), tape),
        tape,
    )
}

// --- moving ---

/// A cursor moved by `delta` within `0..len`, wrapping; it stays where it is in an empty list.
pub open spec fn wrapped(cursor: usize, delta: int, len: nat) -> usize {
    if len == 0 {
        cursor
    } else {
        ((cursor + delta) % (len as int)) as usize
    }
}

/// A count stepped by the arrows: up is one more, down one less, within the stepper's range.
pub open spec fn stepped(count: u32, delta: int) -> u32 {
    if count - delta < 1 {
        1
    } else if count - delta > MAX_WHITELIST_COUNT_UI {
        MAX_WHITELIST_COUNT_UI
    } else {
        (count - delta) as u32
    }
}

/// A modal after an arrow key.
#[verifier::opaque]
pub open spec fn modal_moved(m: Modal, delta: int) -> Modal {
    match m {
        Modal::Menu { cursor } => Modal::Menu { cursor: wrapped(cursor, delta, MENU_LEN as nat) },
        Modal::DeviceAction { device_index, cursor } => Modal::DeviceAction {
            device_index,
            cursor: wrapped(cursor, delta, DEVICE_ACTION_OPTIONS as nat),
        },
        Modal::WhitelistEntryAction { entry_index, cursor } => Modal::WhitelistEntryAction {
            entry_index,
            cursor: wrapped(cursor, delta, WHITELIST_ENTRY_ACTION_OPTIONS as nat),
        },
        Modal::WhitelistAddCount { device_index, max_count } => Modal::WhitelistAddCount {
            device_index,
            max_count: stepped(max_count, delta),
        },
        Modal::WhitelistCount { id, max_count, editing } => Modal::WhitelistCount {
            id,
            max_count: stepped(max_count, delta),
            editing,
        },
        _ => m,
    }
}

/// A scroll offset one line up or down, kept on a line of the content.
pub open spec fn scrolled(offset: u16, delta: int, len: u16) -> u16 {
    if delta < 0 {
        if offset == 0 {
            0
        } else {
            (offset - 1) as u16
        }
    } else if len == 0 {
        0
    } else if offset + 1 < len {
        (offset + 1) as u16
    } else {
        (len - 1) as u16
    }
}

/// A screen after an arrow key with no modal above it.
#[verifier::opaque]
pub open spec fn screen_moved(a: AppView, delta: int) -> AppView {
    match a.screen {
        Screen::Devices => if a.devices.len() == 0 {
            a
        } else {
            AppView { device_cursor: wrapped(a.device_cursor, delta, a.devices.len()), ..a }
        },
        Screen::Whitelist => AppView {
            whitelist_cursor: wrapped(a.whitelist_cursor, delta, a.whitelist.len() + 1),
            ..a
        },
        Screen::Settings => AppView {
            settings_cursor: wrapped(a.settings_cursor, delta, SETTINGS_ROW_COUNT as nat),
            ..a
        },
        Screen::EventLog => if delta < 0 {
            AppView {
                event_scroll: scrolled_back(a.event_scroll, a.events.len()),
                events_paused: true,
                ..a
            }
        } else {
            AppView {
                event_scroll: if a.event_scroll == 0 {
                    0
                } else {
                    (a.event_scroll - 1) as usize
                },
                events_paused: a.events_paused && a.event_scroll > 1,
                ..a
            }
        },
        Screen::Help => AppView { help_scroll: scrolled(a.help_scroll, delta, HELP_LINES), ..a },
        Screen::Destroy => AppView {
            destroy_scroll: scrolled(a.destroy_scroll, delta, destroy::body(a).len() as u16),
            ..a
        },
        Screen::Config => a,
        Screen::DryRun => a,
    }
}

/// An arrow key.
#[verifier::opaque]
pub open spec fn moved(a: AppView, delta: int) -> AppView {
    match a.modal {
        Some(m) => AppView { modal: Some(modal_moved(m, delta)), ..a },
        None => screen_moved(a, delta),
    }
}

// --- selecting ---

/// The power action after this one.
pub open spec fn power_after(p: PowerAction) -> PowerAction {
    match p {
        PowerAction::PowerOff => PowerAction::Halt,
        PowerAction::Halt => PowerAction::NoAction,
        PowerAction::NoAction => PowerAction::PowerOff,
    }
}

/// The sensor-gap setting after this one.
pub open spec fn gap_after(g: OnSensorGap) -> OnSensorGap {
    match g {
        OnSensorGap::Warn => OnSensorGap::Kill,
        OnSensorGap::Kill => OnSensorGap::Warn,
    }
}

/// The change that a Settings row would apply, from the config as last fetched.
pub open spec fn setting_change(a: AppView, row: usize) -> Option<ConfigChangeView> {
    match a.config {
        None => None,
        Some(cfg) => if row == 0 {
            Some(ConfigChangeView::DryRun(!cfg.dry_run))
        } else if row == 1 {
            Some(ConfigChangeView::PowerAction(power_after(cfg.power_action)))
        } else if row == 2 {
            Some(ConfigChangeView::ArmedAtBoot(!cfg.armed_at_boot))
        } else if row == 3 {
            Some(ConfigChangeView::OnSensorGap(gap_after(cfg.on_sensor_gap)))
        } else {
            None
        },
    }
}

/// Whether a change lowers protection: kills become inert, may no longer cut power, or no
/// longer fire on a sensor gap.
pub open spec fn lowers_protection(c: ConfigChangeView) -> bool {
    match c {
        ConfigChangeView::DryRun(on) => on,
        ConfigChangeView::PowerAction(p) => p != PowerAction::PowerOff,
        ConfigChangeView::OnSensorGap(g) => g == OnSensorGap::Warn,
        _ => false,
    }
}

/// Whether the daemon counts as armed: a state that is not known does.
pub open spec fn counts_as_armed(a: AppView) -> bool {
    match a.status {
        Some(s) => s.armed,
        None => true,
    }
}

/// A change sent. A rejected one shows the daemon's whole report, and the config is fetched
/// so that the screen reflects what is still running.
#[verifier::opaque]
pub open spec fn config_change_sent(a: AppView, c: ConfigChangeView, tape: Tape) -> AppView {
    let b = asked(a, CommandView::ConfigSet(c), tape);
    match answer(a, tape) {
        Ok(ReplyView::Done) => status_fetched(
            config_fetched(toasted(b, "setting updated"@), tape),
            tape,
        ),
        Ok(ReplyView::Error(report)) => config_fetched(
            AppView { report: Some(report), modal: Some(Modal::Report), ..b },
            tape,
        ),
        Ok(other) => toasted(b, "unexpected reply to ConfigSet: "@ + debug::of_reply(other)),
        Err(e) => toasted(b, "config set: "@ + e),
    }
}

/// `Enter` on a Settings row. What lowers protection while armed asks first; so does what
/// lowers it while the armed state is not known.
#[verifier::opaque]
pub open spec fn setting_edited(a: AppView, row: usize, tape: Tape) -> AppView {
    match setting_change(a, row) {
        None => toasted(a, "no config loaded — press r to retry"@),
        Some(change) => if a.conn == Conn::Down {
            toasted(a, "daemon unreachable — reconnect before changing settings"@)
        } else if counts_as_armed(a) && lowers_protection(change) {
            AppView { modal: Some(Modal::ConfirmConfigSet { row }), ..a }
        } else {
            config_change_sent(a, change, tape)
        },
    }
}

/// A Settings change confirmed.
#[verifier::opaque]
pub open spec fn setting_confirmed(a: AppView, row: usize, tape: Tape) -> AppView {
    let b = AppView { modal: None, ..a };
    match setting_change(b, row) {
        Some(change) => config_change_sent(b, change, tape),
        None => toasted(b, "no config loaded — press r to retry"@),
    }
}

/// `Enter` on a device row.
#[verifier::opaque]
pub open spec fn device_row_selected(a: AppView) -> AppView {
    if a.device_cursor >= a.devices.len() {
        a
    } else if a.devices[a.device_cursor as int].id is None {
        toasted(a, "device has no USB id — nothing to whitelist"@)
    } else {
        AppView {
            modal: Some(Modal::DeviceAction { device_index: a.device_cursor, cursor: 0 }),
            ..a
        }
    }
}

/// `Enter` in the device action modal. The device is read again, not trusted to be what it
/// was when the modal opened.
#[verifier::opaque]
pub open spec fn device_action_selected(a: AppView, device_index: usize, cursor: usize) -> AppView {
    let b = AppView { modal: None, ..a };
    if device_index >= a.devices.len() {
        toasted(b, "device is no longer connected"@)
    } else if cursor != 0 {
        b
    } else if a.devices[device_index as int].whitelisted {
        AppView { modal: Some(Modal::ConfirmRemove { device_index }), ..b }
    } else {
        AppView { modal: Some(Modal::WhitelistAddCount { device_index, max_count: 1 }), ..b }
    }
}

/// The id of a device that is still listed.
pub open spec fn device_id(a: AppView, device_index: usize) -> Option<UsbId> {
    if device_index < a.devices.len() {
        a.devices[device_index as int].id
    } else {
        None
    }
}

/// A device's addition to the whitelist, confirmed with a count.
#[verifier::opaque]
pub open spec fn device_add_confirmed(
    a: AppView,
    device_index: usize,
    max_count: u32,
    tape: Tape,
) -> AppView {
    let b = AppView { modal: None, ..a };
    match device_id(a, device_index) {
        None => toasted(b, "device is no longer connected"@),
        Some(id) => commanded(
            b,
            CommandView::WhitelistAdd(
                WhitelistEntryView {
                    id,
                    label: a.devices[device_index as int].label,
                    max_count: Some(max_count),
                },
            ),
            "added to whitelist"@,
            tape,
        ),
    }
}

/// A device's removal from the whitelist, confirmed.
#[verifier::opaque]
pub open spec fn device_remove_confirmed(
    a: AppView,
    device_index: usize,
    tape: Tape,
) -> AppView {
    let b = AppView { modal: None, ..a };
    match device_id(a, device_index) {
        None => toasted(b, "device is no longer connected"@),
        Some(id) => commanded(
            b,
            CommandView::WhitelistRemove(id),
            "removed from whitelist"@,
            tape,
        ),
    }
}

/// `Enter` on a whitelist row. The first one adds an entry.
#[verifier::opaque]
pub open spec fn whitelist_row_selected(a: AppView) -> AppView {
    if a.whitelist_cursor == 0 {
        AppView { input: Seq::empty(), modal: Some(Modal::WhitelistAddId), ..a }
    } else if a.whitelist_cursor - 1 < a.whitelist.len() {
        AppView {
            modal: Some(
                Modal::WhitelistEntryAction {
                    entry_index: (a.whitelist_cursor - 1) as usize,
                    cursor: 0,
                },
            ),
            ..a
        }
    } else {
        a
    }
}

/// The count that the stepper starts from for an entry.
pub open spec fn starting_count(max_count: Option<u32>) -> u32 {
    match max_count {
        None => 1,
        Some(n) => if n < 1 {
            1
        } else if n > MAX_WHITELIST_COUNT_UI {
            MAX_WHITELIST_COUNT_UI
        } else {
            n
        },
    }
}

/// `Enter` in the whitelist-entry action modal.
#[verifier::opaque]
pub open spec fn entry_action_selected(a: AppView, entry_index: usize, cursor: usize) -> AppView {
    let b = AppView { modal: None, ..a };
    if entry_index >= a.whitelist.len() {
        toasted(b, "that entry is no longer in the whitelist"@)
    } else {
        let e = a.whitelist[entry_index as int];
        if cursor == 0 {
            AppView {
                modal: Some(
                    Modal::WhitelistCount {
                        id: e.id,
                        max_count: starting_count(e.max_count),
                        editing: true,
                    },
                ),
                ..b
            }
        } else if cursor == 1 {
            AppView { modal: Some(Modal::WhitelistRemoveEntry { id: e.id }), ..b }
        } else {
            b
        }
    }
}

/// `Enter` on the typed id. What does not parse keeps the modal open, to be corrected.
#[verifier::opaque]
pub open spec fn typed_id_submitted(a: AppView) -> AppView {
    match sensor_event::usb_id_of(text::trimmed(a.input)) {
        Some(id) => AppView {
            input: Seq::empty(),
            modal: Some(Modal::WhitelistCount { id, max_count: 1, editing: false }),
            ..a
        },
        None => AppView {
            modal: Some(Modal::WhitelistAddId),
            ..toasted(a, "invalid id — expected vendor:product hex, e.g. 1050:0407"@)
        },
    }
}

/// The label of the first entry with this id.
pub open spec fn label_of(entries: Seq<WhitelistEntryView>, id: UsbId) -> Option<Seq<char>>
    decreases entries.len(),
{
    if entries.len() == 0 {
        None
    } else if entries[0].id == id {
        entries[0].label
    } else {
        label_of(entries.skip(1), id)
    }
}

/// An entry's count confirmed. The label it had stays: a change of the count alone must not
/// blank it.
#[verifier::opaque]
pub open spec fn count_confirmed(
    a: AppView,
    id: UsbId,
    max_count: u32,
    tape: Tape,
) -> AppView {
    commanded(
        AppView { modal: None, ..a },
        CommandView::WhitelistAdd(
            WhitelistEntryView {
                id,
                label: label_of(a.whitelist, id),
                max_count: Some(max_count),
            },
        ),
        "whitelist updated"@,
        tape,
    )
}

/// `Enter` on the LUKS-destroy screen: the fence opens, towards the other state, and the
/// target shown is remembered.
#[verifier::opaque]
pub open spec fn fence_opened(a: AppView) -> AppView {
    if a.conn == Conn::Down {
        toasted(a, "daemon unreachable — reconnect before changing LUKS destruction"@)
    } else if a.config is None {
        toasted(a, "no config loaded — press r to retry"@)
    } else {
        match a.luks_target() {
            None => toasted(a, "LUKS destruction is not configured"@),
            Some(target) => AppView {
                input: Seq::empty(),
                destroy_target: Some(target),
                modal: Some(Modal::DestroyText { engage: !a.engaged() }),
                ..a
            },
        }
    }
}

/// `Enter` on the `DESTROY` field: only the exact word advances.
#[verifier::opaque]
pub open spec fn word_submitted(a: AppView, engage: bool) -> AppView {
    if a.input == state::destroy_word() {
        AppView { input: Seq::empty(), modal: Some(Modal::DestroyConfirm { engage }), ..a }
    } else {
        toasted(
            AppView { input: Seq::empty(), modal: None, destroy_target: None, ..a },
            "cancelled — type DESTROY exactly to continue"@,
        )
    }
}

/// The fence given up, with nothing sent.
pub open spec fn fence_cancelled(a: AppView) -> AppView {
    toasted(
        AppView { modal: None, destroy_target: None, ..a },
        "cancelled — LUKS destruction unchanged"@,
    )
}

/// The new engaged state sent, and what it changed fetched.
#[verifier::opaque]
pub open spec fn engaged_sent(a: AppView, engage: bool, tape: Tape) -> AppView {
    let b = asked(a, CommandView::SetLuksDestroyEngaged(engage), tape);
    match answer(a, tape) {
        Ok(ReplyView::Done) => status_fetched(
            config_fetched(
                toasted(
                    b,
                    if engage {
                        "LUKS header destruction ENGAGED (v1: recorded only — the wipe is a stub, the header is not touched)"@
                    } else {
                        "LUKS header destruction disengaged"@
                    },
                ),
                tape,
            ),
            tape,
        ),
        Ok(ReplyView::Error(e)) => toasted(b, "refused: "@ + e),
        Ok(other) => toasted(
            b,
            "unexpected reply to SetLuksDestroyEngaged: "@ + debug::of_reply(other),
        ),
        Err(e) => toasted(b, "luks engage: "@ + e),
    }
}

/// The fence passed. The target is held against the config as it is now: one that moved
/// while the fence was open is not what the operator confirmed.
#[verifier::opaque]
pub open spec fn fence_passed(a: AppView, engage: bool, tape: Tape) -> AppView {
    let b = AppView { modal: None, destroy_target: None, ..a };
    if a.destroy_target != a.luks_target() {
        config_fetched(
            toasted(
                b,
                "LUKS target changed while the fence was open — nothing sent, re-open to confirm"@,
            ),
            tape,
        )
    } else {
        engaged_sent(b, engage, tape)
    }
}

/// A menu item chosen, with the menu already closed.
#[verifier::opaque]
pub open spec fn menu_item_selected(a: AppView, item: MenuItem, tape: Tape) -> AppView {
    match item {
        MenuItem::Devices => AppView { screen: Screen::Devices, ..a },
        MenuItem::Whitelist => whitelist_fetched(
            AppView { screen: Screen::Whitelist, whitelist_cursor: 0, ..a },
            tape,
        ),
        MenuItem::DryRun => dry_run_fetched(AppView { screen: Screen::DryRun, ..a }, tape),
        MenuItem::Settings => config_fetched(
            AppView { screen: Screen::Settings, settings_cursor: 0, ..a },
            tape,
        ),
        MenuItem::EventLog => AppView {
            screen: Screen::EventLog,
            event_scroll: 0,
            events_paused: false,
            ..a
        },
        MenuItem::Config => config_fetched(AppView { screen: Screen::Config, ..a }, tape),
        MenuItem::LuksDestroy => config_fetched(
            AppView { screen: Screen::Destroy, destroy_scroll: 0, ..a },
            tape,
        ),
        MenuItem::Arm => AppView {
            modal: Some(Modal::Confirm { action: state::ConfirmAction::Arm }),
            ..a
        },
        MenuItem::Disarm => AppView {
            modal: Some(Modal::Confirm { action: state::ConfirmAction::Disarm }),
            ..a
        },
        MenuItem::Reload => AppView {
            modal: Some(Modal::Confirm { action: state::ConfirmAction::Reload }),
            ..a
        },
        MenuItem::Help => AppView { screen: Screen::Help, help_scroll: 0, ..a },
        MenuItem::Quit => AppView { should_quit: true, ..a },
    }
}

/// `Enter` with no modal open.
#[verifier::opaque]
pub open spec fn row_selected(a: AppView, tape: Tape) -> AppView {
    match a.screen {
        Screen::Devices => device_row_selected(a),
        Screen::Whitelist => whitelist_row_selected(a),
        Screen::Settings => setting_edited(a, a.settings_cursor, tape),
        Screen::Destroy => fence_opened(a),
        _ => a,
    }
}

/// `Enter`.
#[verifier::opaque]
pub open spec fn selected(a: AppView, tape: Tape) -> AppView {
    match a.modal {
        Some(Modal::Menu { cursor }) => menu_item_selected(
            AppView { modal: None, ..a },
            state::menu_order()[cursor as int],
            tape,
        ),
        Some(Modal::DeviceAction { device_index, cursor }) => device_action_selected(
            a,
            device_index,
            cursor,
        ),
        Some(Modal::WhitelistAddCount { device_index, max_count }) => device_add_confirmed(
            a,
            device_index,
            max_count,
            tape,
        ),
        Some(Modal::ConfirmRemove { device_index }) => device_remove_confirmed(
            a,
            device_index,
            tape,
        ),
        Some(Modal::Confirm { action }) => commanded(
            AppView { modal: None, ..a },
            action.command(),
            action.done_words(),
            tape,
        ),
        Some(Modal::WhitelistEntryAction { entry_index, cursor }) => entry_action_selected(
            a,
            entry_index,
            cursor,
        ),
        Some(Modal::WhitelistAddId) => typed_id_submitted(a),
        Some(Modal::WhitelistCount { id, max_count, editing }) => count_confirmed(
            a,
            id,
            max_count,
            tape,
        ),
        Some(Modal::WhitelistRemoveEntry { id }) => commanded(
            AppView { modal: None, ..a },
            CommandView::WhitelistRemove(id),
            "removed from whitelist"@,
            tape,
        ),
        Some(Modal::Report) => AppView { modal: None, report: None, ..a },
        Some(Modal::ConfirmConfigSet { row }) => setting_confirmed(a, row, tape),
        Some(Modal::DestroyText { engage }) => word_submitted(a, engage),
        Some(Modal::DestroyConfirm { .. }) => fence_cancelled(a),
        None => row_selected(a, tape),
    }
}

// --- typing ---

/// Whether a character may be typed into the id field after `input`: a hexadecimal digit, or
/// the one colon.
pub open spec fn id_char(input: Seq<char>, c: char) -> bool {
    sensor_event::hex_value(c) is Some || (c == ':' && !input.contains(':'))
}

/// Whether a character is an unaccented letter.
pub open spec fn is_letter(c: char) -> bool {
    'a' <= c <= 'z' || 'A' <= c <= 'Z'
}

/// A character typed into the id field.
pub open spec fn id_typed(a: AppView, c: char) -> AppView {
    if a.input.len() < USB_ID_INPUT_LEN && id_char(a.input, c) {
        AppView { input: a.input.push(text::lower(c)), ..a }
    } else {
        a
    }
}

/// A character typed into the `DESTROY` field.
pub open spec fn word_typed(a: AppView, c: char) -> AppView {
    if a.input.len() < DESTROY_WORD_INPUT_MAX && is_letter(c) {
        AppView { input: a.input.push(c), ..a }
    } else {
        a
    }
}

/// A character typed.
#[verifier::opaque]
pub open spec fn typed(a: AppView, c: char, tape: Tape) -> AppView {
    match a.modal {
        Some(Modal::WhitelistAddId) => id_typed(a, c),
        Some(Modal::DestroyText { .. }) => word_typed(a, c),
        Some(Modal::DestroyConfirm { engage }) => if c == 'y' || c == 'Y' {
            fence_passed(a, engage, tape)
        } else {
            fence_cancelled(a)
        },
        _ => a,
    }
}

// --- intents ---

/// `Esc`: a modal closes, or the Devices screen comes back.
#[verifier::opaque]
pub open spec fn gone_back(a: AppView) -> AppView {
    let b = AppView {
        modal: None,
        input: Seq::empty(),
        report: None,
        destroy_target: None,
        ..a
    };
    match a.modal {
        Some(Modal::DestroyText { .. }) => fence_cancelled(b),
        Some(Modal::DestroyConfirm { .. }) => fence_cancelled(b),
        Some(_) => b,
        None => AppView { screen: Screen::Devices, ..b },
    }
}

/// The event log frozen, or followed again.
#[verifier::opaque]
pub open spec fn pause_toggled(a: AppView) -> AppView {
    if a.screen != Screen::EventLog {
        a
    } else if a.events_paused {
        toasted(AppView { events_paused: false, event_scroll: 0, ..a }, "log following"@)
    } else {
        toasted(AppView { events_paused: true, ..a }, "log paused"@)
    }
}

/// What an intent does.
pub open spec fn handled(a: AppView, intent: Intent, tape: Tape) -> AppView {
    match intent {
        Intent::Nothing => a,
        Intent::Quit => AppView { should_quit: true, ..a },
        Intent::ToggleMenu => AppView {
            modal: match a.modal {
                Some(Modal::Menu { .. }) => None,
                _ => Some(Modal::Menu { cursor: 0 }),
            },
            input: Seq::empty(),
            destroy_target: None,
            ..a
        },
        Intent::Back => gone_back(a),
        Intent::Up => moved(a, -1),
        Intent::Down => moved(a, 1),
        Intent::Select => selected(a, tape),
        Intent::Refresh => refreshed(a, tape),
        Intent::Reconnect => toasted(a, "reconnecting…"@),
        Intent::Help => AppView {
            modal: None,
            input: Seq::empty(),
            destroy_target: None,
            screen: Screen::Help,
            help_scroll: 0,
            ..a
        },
        Intent::Char(c) => typed(a, c, tape),
        Intent::Backspace => if a.captures_text() && a.input.len() > 0 {
            AppView { input: a.input.drop_last(), ..a }
        } else {
            a
        },
        Intent::TogglePause => pause_toggled(a),
    }
}

// --- what every step keeps ---

/// A fetch keeps every cursor on a row that exists.
proof fn fetching_keeps_wf(a: AppView, tape: Tape)
    requires
        a.wf(),
    ensures
        status_fetched(a, tape).wf(),
        devices_fetched(a, tape).wf(),
        whitelist_fetched(a, tape).wf(),
        config_fetched(a, tape).wf(),
        dry_run_fetched(a, tape).wf(),
{
    reveal(status_fetched);
    reveal(devices_fetched);
    reveal(whitelist_fetched);
    reveal(config_fetched);
    reveal(dry_run_fetched);
}

/// So does a refresh of the current screen.
proof fn refreshing_keeps_wf(a: AppView, tape: Tape)
    requires
        a.wf(),
    ensures
        refreshed(a, tape).wf(),
{
    reveal(refreshed);
    fetching_keeps_wf(a, tape);
    fetching_keeps_wf(status_fetched(a, tape), tape);
}

/// So does a command and what follows it.
proof fn commanding_keeps_wf(a: AppView, cmd: CommandView, done: Seq<char>, tape: Tape)
    requires
        a.wf(),
    ensures
        commanded(a, cmd, done, tape).wf(),
{
    reveal(commanded);
    let b = asked(a, cmd, tape);
    let c = match answer(a, tape) {
        Ok(ReplyView::Done) => toasted(b, done),
        Ok(ReplyView::Error(e)) => toasted(b, "refused: "@ + e),
        Ok(other) => toasted(b, "unexpected reply: "@ + debug::of_reply(other)),
        Err(e) => toasted(b, "error: "@ + e),
    };
    assert(c.wf());
    fetching_keeps_wf(c, tape);
}

/// So does a config change and what follows it.
proof fn changing_keeps_wf(a: AppView, c: ConfigChangeView, tape: Tape)
    requires
        a.wf(),
    ensures
        config_change_sent(a, c, tape).wf(),
{
    reveal(config_change_sent);
    let b = asked(a, CommandView::ConfigSet(c), tape);
    match answer(a, tape) {
        Ok(ReplyView::Done) => {
            let t = toasted(b, "setting updated"@);
            fetching_keeps_wf(t, tape);
            fetching_keeps_wf(config_fetched(t, tape), tape);
        },
        Ok(ReplyView::Error(report)) => {
            fetching_keeps_wf(
                AppView { report: Some(report), modal: Some(Modal::Report), ..b },
                tape,
            );
        },
        _ => {},
    }
}

/// So does the fence, passed.
proof fn passing_keeps_wf(a: AppView, engage: bool, tape: Tape)
    requires
        a.wf(),
    ensures
        fence_passed(a, engage, tape).wf(),
{
    reveal(fence_passed);
    reveal(engaged_sent);
    let b = AppView { modal: None, destroy_target: None, ..a };
    if a.destroy_target != a.luks_target() {
        fetching_keeps_wf(
            toasted(
                b,
                "LUKS target changed while the fence was open — nothing sent, re-open to confirm"@,
            ),
            tape,
        );
    } else {
        let c = toasted(
            asked(b, CommandView::SetLuksDestroyEngaged(engage), tape),
            if engage {
                "LUKS header destruction ENGAGED (v1: recorded only — the wipe is a stub, the header is not touched)"@
            } else {
                "LUKS header destruction disengaged"@
            },
        );
        fetching_keeps_wf(c, tape);
        fetching_keeps_wf(config_fetched(c, tape), tape);
    }
}

/// So does a menu item.
proof fn choosing_keeps_wf(a: AppView, item: MenuItem, tape: Tape)
    requires
        a.wf(),
    ensures
        menu_item_selected(a, item, tape).wf(),
{
    reveal(menu_item_selected);
    fetching_keeps_wf(AppView { screen: Screen::Whitelist, whitelist_cursor: 0, ..a }, tape);
    fetching_keeps_wf(AppView { screen: Screen::DryRun, ..a }, tape);
    fetching_keeps_wf(AppView { screen: Screen::Settings, settings_cursor: 0, ..a }, tape);
    fetching_keeps_wf(AppView { screen: Screen::Config, ..a }, tape);
    fetching_keeps_wf(AppView { screen: Screen::Destroy, destroy_scroll: 0, ..a }, tape);
}

/// So does `Enter` on a row.
proof fn row_keeps_wf(a: AppView, tape: Tape)
    requires
        a.wf(),
    ensures
        row_selected(a, tape).wf(),
{
    reveal(row_selected);
    reveal(device_row_selected);
    reveal(whitelist_row_selected);
    reveal(setting_edited);
    reveal(fence_opened);
    match setting_change(a, a.settings_cursor) {
        Some(change) => changing_keeps_wf(a, change, tape),
        None => {},
    }
}

/// So does `Enter`.
#[verifier::rlimit(40)]
proof fn selecting_keeps_wf(a: AppView, tape: Tape)
    requires
        a.wf(),
    ensures
        selected(a, tape).wf(),
{
    reveal(selected);
    let b = AppView { modal: None, ..a };
    match a.modal {
        Some(Modal::Menu { cursor }) => {
            choosing_keeps_wf(b, state::menu_order()[cursor as int], tape);
        },
        Some(Modal::DeviceAction { .. }) => {
            reveal(device_action_selected);
        },
        Some(Modal::WhitelistAddCount { device_index, max_count }) => {
            reveal(device_add_confirmed);
            if let Some(id) = device_id(a, device_index) {
                commanding_keeps_wf(
                    b,
                    CommandView::WhitelistAdd(
                        WhitelistEntryView {
                            id,
                            label: a.devices[device_index as int].label,
                            max_count: Some(max_count),
                        },
                    ),
                    "added to whitelist"@,
                    tape,
                );
            }
        },
        Some(Modal::ConfirmRemove { device_index }) => {
            reveal(device_remove_confirmed);
            if let Some(id) = device_id(a, device_index) {
                commanding_keeps_wf(
                    b,
                    CommandView::WhitelistRemove(id),
                    "removed from whitelist"@,
                    tape,
                );
            }
        },
        Some(Modal::Confirm { action }) => {
            commanding_keeps_wf(b, action.command(), action.done_words(), tape);
        },
        Some(Modal::WhitelistEntryAction { .. }) => {
            reveal(entry_action_selected);
        },
        Some(Modal::WhitelistAddId) => {
            reveal(typed_id_submitted);
        },
        Some(Modal::WhitelistCount { id, max_count, .. }) => {
            reveal(count_confirmed);
            commanding_keeps_wf(
                b,
                CommandView::WhitelistAdd(
                    WhitelistEntryView {
                        id,
                        label: label_of(a.whitelist, id),
                        max_count: Some(max_count),
                    },
                ),
                "whitelist updated"@,
                tape,
            );
        },
        Some(Modal::WhitelistRemoveEntry { id }) => {
            commanding_keeps_wf(
                b,
                CommandView::WhitelistRemove(id),
                "removed from whitelist"@,
                tape,
            );
        },
        Some(Modal::Report) => {},
        Some(Modal::ConfirmConfigSet { row }) => {
            reveal(setting_confirmed);
            match setting_change(b, row) {
                Some(change) => changing_keeps_wf(b, change, tape),
                None => {},
            }
        },
        Some(Modal::DestroyText { .. }) => {
            reveal(word_submitted);
        },
        Some(Modal::DestroyConfirm { .. }) => {},
        None => row_keeps_wf(a, tape),
    }
}

/// So does an arrow key: a cursor wraps around, a screen stays on its content.
proof fn moving_keeps_wf(a: AppView, delta: int)
    requires
        a.wf(),
    ensures
        moved(a, delta).wf(),
{
    reveal(moved);
    reveal(modal_moved);
    reveal(screen_moved);
}

/// An intent keeps every cursor on a row, every screen on its content, and the log within its
/// cap, whatever the daemon answers.
#[verifier::rlimit(40)]
pub proof fn handling_keeps_wf(a: AppView, intent: Intent, tape: Tape)
    requires
        a.wf(),
    ensures
        handled(a, intent, tape).wf(),
{
    match intent {
        Intent::Back => {
            reveal(gone_back);
        },
        Intent::Up => moving_keeps_wf(a, -1),
        Intent::Down => moving_keeps_wf(a, 1),
        Intent::Select => selecting_keeps_wf(a, tape),
        Intent::Refresh => refreshing_keeps_wf(a, tape),
        Intent::Char(c) => {
            reveal(typed);
            if let Some(Modal::DestroyConfirm { engage }) = a.modal {
                passing_keeps_wf(a, engage, tape);
            }
        },
        Intent::TogglePause => {
            reveal(pause_toggled);
        },
        _ => {},
    }
}

/// So does an event.
pub proof fn an_event_keeps_wf(a: AppView, e: StreamEventView)
    requires
        a.wf(),
    ensures
        event_received(a, e).wf(),
{
    reveal(recorded);
}

/// So does every message from the daemon.
#[verifier::rlimit(40)]
pub proof fn messages_keep_wf(a: AppView, e: StreamEventView, why: Seq<char>, tape: Tape)
    requires
        a.wf(),
    ensures
        connected(a, tape).wf(),
        disconnected(a, why).wf(),
        event_received(a, e).wf(),
        settled(a, tape).wf(),
{
    refreshing_keeps_wf(AppView { conn: Conn::Up, conn_error: None, ..a }, tape);
    an_event_keeps_wf(a, e);
    reveal(status_settled);
    reveal(devices_settled);
    reveal(whitelist_settled);
    reveal(config_settled);
    let b = status_settled(a, tape);
    let c = devices_settled(b, tape);
    let d = whitelist_settled(c, tape);
    fetching_keeps_wf(AppView { dirty_status: false, ..a }, tape);
    fetching_keeps_wf(AppView { dirty_devices: false, ..b }, tape);
    fetching_keeps_wf(AppView { dirty_whitelist: false, ..c }, tape);
    fetching_keeps_wf(AppView { dirty_config: false, ..d }, tape);
}

} // verus!
