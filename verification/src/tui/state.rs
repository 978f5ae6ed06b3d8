//! What the terminal UI holds: the screens, the modals above them, and the cache of what the
//! daemon has told.

use crate::proto::action::KillReason;
use crate::proto::protocol::{
    Command, CommandView, ConfigPayloadView, DeviceInfoView, StatusView, StreamEventView,
    WhitelistEntryView,
};
use crate::proto::sensor_event::UsbId;
use crate::tui::client::Answer;
use crate::tui::ui::help::HELP_LINES;
use vstd::prelude::*;

verus! {

/// How long a toast stays on screen, in milliseconds.
pub const TOAST_TTL: u64 = 4000;

/// Rows in the device action modal: one action plus Cancel, always.
pub const DEVICE_ACTION_OPTIONS: usize = 2;

/// Rows in the whitelist-entry action modal: edit, remove, cancel.
pub const WHITELIST_ENTRY_ACTION_OPTIONS: usize = 3;

/// Editable rows on the Settings screen: dry-run, power action, armed-at-boot, on-sensor-gap.
/// `sensors` is shown read-only.
pub const SETTINGS_ROW_COUNT: usize = 4;

/// UI-only ceiling on the stepper in the whitelist count modals. Not a protocol or config
/// limit, just a sane bound for a stepper with no free-text entry.
pub const MAX_WHITELIST_COUNT_UI: u32 = 32;

/// Longest string the `vendor:product` entry field accepts.
pub const USB_ID_INPUT_LEN: usize = 9;

/// How many events the event log keeps. Older ones age out.
pub const EVENT_LOG_CAP: usize = 1000;

/// Longest string the `DESTROY` field accepts. A hair over the word itself, so an over-long
/// typo stops accepting characters rather than scrolling.
pub const DESTROY_WORD_INPUT_MAX: usize = 12;

/// Entries in the main menu.
pub const MENU_LEN: usize = 12;

/// The exact word the LUKS-destroy fence demands, case-sensitive. Nothing else advances it.
pub open spec fn destroy_word() -> Seq<char> {
    "DESTROY"@
}

/// Connection state, as reported by the event connection.
#[derive(Debug, Clone, Copy, PartialEq, Eq, Structural)]
pub enum Conn {
    /// Started, no connection established yet this session.
    Connecting,
    Up,
    Down,
}

/// The primary view behind any modal.
#[derive(Debug, Clone, Copy, PartialEq, Eq, Structural)]
pub enum Screen {
    Devices,
    Whitelist,
    DryRun,
    Settings,
    EventLog,
    /// Read-only parsed-config inspector and validation report.
    Config,
    /// Static keybinding reference.
    Help,
    /// The fenced LUKS-header-destruction screen. It only toggles the runtime `engaged` flag.
    Destroy,
}

/// An entry in the main menu.
#[derive(Debug, Clone, Copy, PartialEq, Eq, Structural)]
pub enum MenuItem {
    Devices,
    Whitelist,
    DryRun,
    Settings,
    EventLog,
    Config,
    LuksDestroy,
    Arm,
    Disarm,
    Reload,
    Help,
    Quit,
}

/// Menu order, top to bottom.
pub open spec fn menu_order() -> Seq<MenuItem> {
    seq![
        MenuItem::Devices,
        MenuItem::Whitelist,
        MenuItem::DryRun,
        MenuItem::Settings,
        MenuItem::EventLog,
        MenuItem::Config,
        MenuItem::LuksDestroy,
        MenuItem::Arm,
        MenuItem::Disarm,
        MenuItem::Reload,
        MenuItem::Help,
        MenuItem::Quit,
    ]
}

impl MenuItem {
    /// Menu order, top to bottom.
    pub const ORDER: [MenuItem; 12] = [
        MenuItem::Devices,
        MenuItem::Whitelist,
        MenuItem::DryRun,
        MenuItem::Settings,
        MenuItem::EventLog,
        MenuItem::Config,
        MenuItem::LuksDestroy,
        MenuItem::Arm,
        MenuItem::Disarm,
        MenuItem::Reload,
        MenuItem::Help,
        MenuItem::Quit,
    ];

    /// The words the menu shows.
    pub open spec fn words(self) -> Seq<char> {
        match self {
            MenuItem::Devices => "Devices"@,
            MenuItem::Whitelist => "Whitelist"@,
            MenuItem::DryRun => "Dry-run"@,
            MenuItem::Settings => "Settings"@,
            MenuItem::EventLog => "Event log"@,
            MenuItem::Config => "Config"@,
            MenuItem::LuksDestroy => "LUKS destroy"@,
            MenuItem::Arm => "Arm"@,
            MenuItem::Disarm => "Disarm"@,
            MenuItem::Reload => "Reload config from file"@,
            MenuItem::Help => "Help"@,
            MenuItem::Quit => "Quit"@,
        }
    }

    /// The words the menu shows.
    pub fn label(self) -> (r: &'static str)
        ensures
            r@ == self.words(),
    {
        match self {
            MenuItem::Devices => "Devices",
            MenuItem::Whitelist => "Whitelist",
            MenuItem::DryRun => "Dry-run",
            MenuItem::Settings => "Settings",
            MenuItem::EventLog => "Event log",
            MenuItem::Config => "Config",
            MenuItem::LuksDestroy => "LUKS destroy",
            MenuItem::Arm => "Arm",
            MenuItem::Disarm => "Disarm",
            MenuItem::Reload => "Reload config from file",
            MenuItem::Help => "Help",
            MenuItem::Quit => "Quit",
        }
    }

    /// A separator line is drawn *before* items that start a new group.
    pub fn starts_group(self) -> (r: bool)
        ensures
            r == (self == MenuItem::Arm || self == MenuItem::Help),
    {
        matches!(self, MenuItem::Arm | MenuItem::Help)
    }
}

/// The three menu actions that change protection or reload from disk. Each one opens a
/// [`Modal::Confirm`] before it fires.
#[derive(Debug, Clone, Copy, PartialEq, Eq, Structural)]
pub enum ConfirmAction {
    Arm,
    Disarm,
    Reload,
}

impl ConfirmAction {
    /// The command that the action sends.
    pub open spec fn command(self) -> CommandView {
        match self {
            ConfirmAction::Arm => CommandView::Arm,
            ConfirmAction::Disarm => CommandView::Disarm,
            ConfirmAction::Reload => CommandView::ReloadConfig,
        }
    }

    /// What is shown once the daemon has accepted it.
    pub open spec fn done_words(self) -> Seq<char> {
        match self {
            ConfirmAction::Arm => "armed"@,
            ConfirmAction::Disarm => "disarmed"@,
            ConfirmAction::Reload => "config reloaded"@,
        }
    }

    /// The question the confirm modal asks.
    pub open spec fn question(self) -> Seq<char> {
        match self {
            ConfirmAction::Arm => "Arm protection now?"@,
            ConfirmAction::Disarm =>
                "Disarm protection? This lowers protection until you re-arm."@,
            ConfirmAction::Reload => "Reload the config from disk?"@,
        }
    }

    /// The command that the action sends.
    pub fn to_command(self) -> (r: Command)
        ensures
            r@ == self.command(),
    {
        match self {
            ConfirmAction::Arm => Command::Arm,
            ConfirmAction::Disarm => Command::Disarm,
            ConfirmAction::Reload => Command::ReloadConfig,
        }
    }

    /// What is shown once the daemon has accepted it.
    pub fn ok_msg(self) -> (r: &'static str)
        ensures
            r@ == self.done_words(),
    {
        match self {
            ConfirmAction::Arm => "armed",
            ConfirmAction::Disarm => "disarmed",
            ConfirmAction::Reload => "config reloaded",
        }
    }

    /// The question the confirm modal asks.
    pub fn prompt(self) -> (r: &'static str)
        ensures
            r@ == self.question(),
    {
        match self {
            ConfirmAction::Arm => "Arm protection now?",
            ConfirmAction::Disarm => "Disarm protection? This lowers protection until you re-arm.",
            ConfirmAction::Reload => "Reload the config from disk?",
        }
    }
}

/// The overlay above the primary screen. Any text being typed lives beside it, in the app's
/// `input`.
#[derive(Debug, Clone, Copy, PartialEq, Eq, Structural)]
pub enum Modal {
    Menu { cursor: usize },
    /// Opened with `Enter` on a device row. `device_index` indexes the device list at the
    /// moment the modal opened: re-checked, not trusted, when an option is confirmed, since
    /// the list can change under a modal that is still open.
    DeviceAction { device_index: usize, cursor: usize },
    /// Second step of the device screen's "Add to whitelist…": pick `max_count` before
    /// anything is sent.
    WhitelistAddCount { device_index: usize, max_count: u32 },
    /// Second step of the device screen's "Remove from whitelist": a confirm.
    ConfirmRemove { device_index: usize },
    /// `Arm` / `Disarm` / `Reload` from the menu.
    Confirm { action: ConfirmAction },
    /// A Settings change that would *lower* protection while the daemon is armed. `row`
    /// re-derives the change from the config on confirm.
    ConfirmConfigSet { row: usize },
    /// `Enter` on a whitelist-screen entry row: edit / remove / cancel.
    WhitelistEntryAction { entry_index: usize, cursor: usize },
    /// The whitelist screen's "add entry" flow, step one: type a `vendor:product` id.
    WhitelistAddId,
    /// Whitelist count picker: step two of "add entry", or "edit max count" on an existing
    /// entry (`editing` only changes the title).
    WhitelistCount { id: UsbId, max_count: u32, editing: bool },
    /// Confirm removing an entry from the Whitelist screen.
    WhitelistRemoveEntry { id: UsbId },
    /// A rejected change: shows the daemon's full validation report.
    Report,
    /// LUKS-destroy fence, step one: a text field that must be typed exactly to advance.
    /// `engage` is the state the toggle would move *to*.
    DestroyText { engage: bool },
    /// LUKS-destroy fence, step two: a final `y` / anything else.
    DestroyConfirm { engage: bool },
}

/// The device action modal's option labels, in cursor order. Whitelisted and not-whitelisted
/// devices get different first options; both always end in Cancel.
pub open spec fn device_action_words(whitelisted: bool) -> Seq<Seq<char>> {
    if whitelisted {
        seq!["Remove from whitelist"@, "Cancel"@]
    } else {
        seq!["Add to whitelist…"@, "Cancel"@]
    }
}

/// The device action modal's option labels, in cursor order.
pub fn device_action_labels(whitelisted: bool) -> (r: [&'static str; 2])
    ensures
        r@.map_values(|s: &'static str| s@) == device_action_words(whitelisted),
{
    if whitelisted {
        let r = ["Remove from whitelist", "Cancel"];
        assert(r@.map_values(|s: &'static str| s@) =~= device_action_words(whitelisted));
        r
    } else {
        let r = ["Add to whitelist…", "Cancel"];
        assert(r@.map_values(|s: &'static str| s@) =~= device_action_words(whitelisted));
        r
    }
}

/// The whitelist-entry action modal's option labels, in cursor order.
pub open spec fn whitelist_entry_action_words() -> Seq<Seq<char>> {
    seq!["Edit max count…"@, "Remove from whitelist"@, "Cancel"@]
}

/// The whitelist-entry action modal's option labels, in cursor order.
pub fn whitelist_entry_action_labels() -> (r: [&'static str; 3])
    ensures
        r@.map_values(|s: &'static str| s@) == whitelist_entry_action_words(),
{
    let r = ["Edit max count…", "Remove from whitelist", "Cancel"];
    assert(r@.map_values(|s: &'static str| s@) =~= whitelist_entry_action_words());
    r
}

/// One decoded keypress, resolved against the current screen and modal.
#[derive(Debug, Clone, Copy, PartialEq, Eq, Structural)]
pub enum Intent {
    /// Do nothing.
    Nothing,
    Quit,
    /// Open the main menu, or close it if already open.
    ToggleMenu,
    /// Close a modal, else return to the Devices screen.
    Back,
    Up,
    Down,
    /// Activate the selected menu item / list row / confirm a modal.
    Select,
    /// Re-fetch the current screen's data from the daemon.
    Refresh,
    /// Nudge a reconnect while the daemon is unreachable.
    Reconnect,
    Help,
    /// A printable character typed into a text-entry modal.
    Char(char),
    /// Delete the last character in a text-entry modal.
    Backspace,
    /// Event log only: freeze / unfreeze auto-scroll.
    TogglePause,
}

/// What the app holds, with what it has sent to the daemon and what it was answered.
pub struct AppView {
    pub conn: Conn,
    pub conn_error: Option<Seq<char>>,
    pub status: Option<StatusView>,
    pub devices: Seq<DeviceInfoView>,
    pub whitelist: Seq<WhitelistEntryView>,
    pub config: Option<ConfigPayloadView>,
    pub dryrun: Option<Seq<KillReason>>,
    pub events: Seq<StreamEventView>,
    pub report: Option<Seq<char>>,
    pub screen: Screen,
    pub modal: Option<Modal>,
    pub device_cursor: usize,
    pub whitelist_cursor: usize,
    pub settings_cursor: usize,
    pub event_scroll: usize,
    pub events_paused: bool,
    pub help_scroll: u16,
    pub destroy_scroll: u16,
    pub input: Seq<char>,
    pub destroy_target: Option<Seq<char>>,
    /// A transient message, and when it was set.
    pub toast: Option<(Seq<char>, u64)>,
    pub should_quit: bool,
    pub dirty_status: bool,
    pub dirty_devices: bool,
    pub dirty_whitelist: bool,
    pub dirty_config: bool,
    /// The time, as far as it is known.
    pub clock: u64,
    /// Every command that the client was called with, in order.
    pub sent: Seq<CommandView>,
    /// What it answered to each of them.
    pub heard: Seq<Answer>,
    /// What its clock read, each time it was asked.
    pub readings: Seq<u64>,
    /// What it is known to answer, by the number of the call.
    pub script: Map<nat, Answer>,
}

/// What the outside gives: the answer to each command, and the time after it.
pub struct Tape {
    pub answers: Seq<Answer>,
    pub times: Seq<u64>,
}

impl AppView {
    /// What the app starts with: nothing known, nothing done.
    pub open spec fn fresh(
        sent: Seq<CommandView>,
        heard: Seq<Answer>,
        readings: Seq<u64>,
        script: Map<nat, Answer>,
    ) -> AppView {
        AppView {
            conn: Conn::Connecting,
            conn_error: None,
            status: None,
            devices: Seq::empty(),
            whitelist: Seq::empty(),
            config: None,
            dryrun: None,
            events: Seq::empty(),
            report: None,
            screen: Screen::Devices,
            modal: None,
            device_cursor: 0,
            whitelist_cursor: 0,
            settings_cursor: 0,
            event_scroll: 0,
            events_paused: false,
            help_scroll: 0,
            destroy_scroll: 0,
            input: Seq::empty(),
            destroy_target: None,
            toast: None,
            should_quit: false,
            dirty_status: false,
            dirty_devices: false,
            dirty_whitelist: false,
            dirty_config: false,
            clock: 0,
            sent,
            heard,
            readings,
            script,
        }
    }

    /// Whether the modal is within its own bounds: the cursor on one of its rows, the count
    /// within the stepper's range.
    pub open spec fn modal_wf(modal: Option<Modal>) -> bool {
        match modal {
            Some(Modal::Menu { cursor }) => cursor < MENU_LEN,
            Some(Modal::DeviceAction { cursor, .. }) => cursor < DEVICE_ACTION_OPTIONS,
            Some(Modal::WhitelistEntryAction { cursor, .. }) => cursor
                < WHITELIST_ENTRY_ACTION_OPTIONS,
            Some(Modal::WhitelistAddCount { max_count, .. }) => 1 <= max_count
                <= MAX_WHITELIST_COUNT_UI,
            Some(Modal::WhitelistCount { max_count, .. }) => 1 <= max_count
                <= MAX_WHITELIST_COUNT_UI,
            Some(Modal::ConfirmConfigSet { row }) => row < SETTINGS_ROW_COUNT,
            _ => true,
        }
    }

    /// Every cursor is on a row that exists, no screen is scrolled past its content, and the
    /// event log is within its cap.
    pub open spec fn wf(self) -> bool {
        &&& Self::modal_wf(self.modal)
        &&& self.device_cursor == 0 || self.device_cursor < self.devices.len()
        &&& self.whitelist_cursor <= self.whitelist.len()
        &&& self.settings_cursor < SETTINGS_ROW_COUNT
        &&& self.events.len() <= EVENT_LOG_CAP
        &&& self.event_scroll == 0 || self.event_scroll < self.events.len()
        &&& self.help_scroll < HELP_LINES
        &&& self.destroy_scroll < u16::MAX
    }

    /// What the outside has given so far.
    pub open spec fn tape(self) -> Tape {
        Tape { answers: self.heard, times: self.readings }
    }

    /// Whether the current modal takes printable keys as text.
    pub open spec fn captures_text(self) -> bool {
        match self.modal {
            Some(Modal::WhitelistAddId) => true,
            Some(Modal::DestroyText { .. }) => true,
            Some(Modal::DestroyConfirm { .. }) => true,
            _ => false,
        }
    }

    /// The LUKS target header of the running config, as last fetched.
    pub open spec fn luks_target(self) -> Option<Seq<char>> {
        match self.config {
            Some(c) => match c.luks_destroy {
                Some(l) => Some(l.target_header),
                None => None,
            },
            None => None,
        }
    }

    /// Whether LUKS header destruction is engaged, as last fetched. Not assumed where it is
    /// unknown or not configured.
    pub open spec fn engaged(self) -> bool {
        match self.config {
            Some(c) => match c.luks_destroy {
                Some(l) => l.engaged,
                None => false,
            },
            None => false,
        }
    }

    /// Whether a device with this id is connected, as last fetched.
    pub open spec fn connected(self, id: UsbId) -> bool {
        exists|i: int| 0 <= i < self.devices.len() && (#[trigger] self.devices[i]).id == Some(id)
    }
}

} // verus!
