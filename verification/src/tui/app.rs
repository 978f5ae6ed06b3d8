//! The render-thread state store and its reducer.
//!
//! [`App`] is a *cache* of what the daemon has told: never authoritative state of its own.
//! Every field changes only in response to a reply that was asked for or an event the daemon
//! pushed. When an event means that authority changed, the reducer re-fetches from the daemon
//! rather than guessing, so the daemon stays the single source of truth.

use std::collections::VecDeque;

use crate::proto::action::{KillReason, PowerAction};
use crate::proto::debug;
use crate::proto::protocol::{
    Command, ConfigChange, ConfigPayload, DeviceInfo, Event, OnSensorGap, Reply,
    StatusPayload, StreamEvent, WhitelistEntry,
};
use crate::proto::sensor_event;
use crate::proto::sensor_event::UsbId;
use crate::text;
use crate::tui::client;
use crate::tui::client::Client;
use crate::tui::reduce;
use crate::tui::state;
use crate::tui::state::{
    AppView, ConfirmAction, Conn, Intent, MenuItem, Modal, Screen, Tape, DESTROY_WORD_INPUT_MAX,
    DEVICE_ACTION_OPTIONS, EVENT_LOG_CAP, MAX_WHITELIST_COUNT_UI, MENU_LEN, SETTINGS_ROW_COUNT,
    TOAST_TTL, USB_ID_INPUT_LEN, WHITELIST_ENTRY_ACTION_OPTIONS,
};
use crate::tui::ui::destroy;
use crate::tui::ui::help::HELP_LINES;
use vstd::prelude::*;

verus! {

/// The state behind the screens. `C` is the control-socket client.
pub struct App<C: Client> {
    pub client: C,
    pub conn: Conn,
    pub conn_error: Option<String>,
    pub status: Option<StatusPayload>,
    pub devices: Vec<DeviceInfo>,
    pub whitelist: Vec<WhitelistEntry>,
    pub config: Option<ConfigPayload>,
    /// Result of the last dry run; `None` until one has run.
    pub dryrun: Option<Vec<KillReason>>,
    /// Decision / event scrollback, newest last, capped.
    pub events: VecDeque<StreamEvent>,
    /// The validation report behind [`Modal::Report`].
    pub report: Option<String>,
    pub screen: Screen,
    pub modal: Option<Modal>,
    pub device_cursor: usize,
    /// Row 0 is the "add entry" action; entry `i` is at cursor `i + 1`.
    pub whitelist_cursor: usize,
    pub settings_cursor: usize,
    /// Lines the event log is scrolled up from the newest (0 = following).
    pub event_scroll: usize,
    /// Event log auto-scroll is frozen.
    pub events_paused: bool,
    /// Lines the Help screen is scrolled down from the top.
    pub help_scroll: u16,
    /// Lines the LUKS-destroy screen is scrolled down from the top. Reset to 0 whenever that
    /// screen is (re-)entered from the menu.
    pub destroy_scroll: u16,
    /// The string being typed in a text-entry modal.
    pub input: String,
    /// The LUKS target header captured when the fence opened, re-checked before anything is
    /// sent: the operator confirmed the header shown then.
    pub destroy_target: Option<String>,
    /// A transient message, and when it was set, in milliseconds.
    pub toast: Option<(String, u64)>,
    pub should_quit: bool,
    /// What events have marked for re-fetching since the last [`App::settle`].
    pub dirty_status: bool,
    pub dirty_devices: bool,
    pub dirty_whitelist: bool,
    pub dirty_config: bool,
    /// The time in milliseconds, as of the last [`App::tick`] or the last answer.
    pub clock: u64,
}

/// The view of a toast.
pub open spec fn toast_view(t: Option<(String, u64)>) -> Option<(Seq<char>, u64)> {
    match t {
        Some(p) => Some((p.0@, p.1)),
        None => None,
    }
}

/// The reasons that a dry run gave.
pub open spec fn reasons_view(d: Option<Vec<KillReason>>) -> Option<Seq<KillReason>> {
    match d {
        Some(v) => Some(v@),
        None => None,
    }
}

impl<C: Client> View for App<C> {
    type V = AppView;

    open spec fn view(&self) -> AppView {
        AppView {
            conn: self.conn,
            conn_error: text::opt_view(self.conn_error),
            status: text::opt_view(self.status),
            devices: text::views(self.devices@),
            whitelist: text::views(self.whitelist@),
            config: text::opt_view(self.config),
            dryrun: reasons_view(self.dryrun),
            events: text::views(self.events@),
            report: text::opt_view(self.report),
            screen: self.screen,
            modal: self.modal,
            device_cursor: self.device_cursor,
            whitelist_cursor: self.whitelist_cursor,
            settings_cursor: self.settings_cursor,
            event_scroll: self.event_scroll,
            events_paused: self.events_paused,
            help_scroll: self.help_scroll,
            destroy_scroll: self.destroy_scroll,
            input: self.input@,
            destroy_target: text::opt_view(self.destroy_target),
            toast: toast_view(self.toast),
            should_quit: self.should_quit,
            dirty_status: self.dirty_status,
            dirty_devices: self.dirty_devices,
            dirty_whitelist: self.dirty_whitelist,
            dirty_config: self.dirty_config,
            clock: self.clock,
            sent: self.client.log(),
            heard: self.client.answers(),
            readings: self.client.readings(),
            script: self.client.script(),
        }
    }
}

/// A toast's characters.
fn visible_char(c: char) -> (r: char)
    ensures
        r == reduce::visible(c),
{
    let code: u32 = c as u32;
    if code <= 0x1f || (0x7f <= code && code <= 0x9f) {
        '\u{fffd}'
    } else {
        c
    }
}

/// A message as a single transient line.
fn toast_line(msg: &str) -> (r: String)
    ensures
        r@ == reduce::toast_text(msg@),
{
    proof {
        reveal(reduce::toast_text);
    }
    let lines = text::lines(msg);
    let ghost all = text::views(lines@);
    let mut r = String::new();
    if lines.len() > 0 {
        let first = text::chars_of(lines[0].as_str());
        let mut i: usize = 0;
        while i < first.len()
            invariant
                i <= first@.len(),
                r@.len() == i,
                forall|k: int| 0 <= k < i ==> #[trigger] r@[k] == reduce::visible(first@[k]),
            decreases first@.len() - i,
        {
            r.push(visible_char(first[i]));
            i += 1;
        }
        assert(all[0] == first@);
        assert(r@ =~= all[0].map_values(|c: char| reduce::visible(c)));
    }
    assert(all.len() == lines@.len());
    if lines.len() > 1 {
        r = r.concat(" … (see the screen for the full report)");
    }
    r
}

/// Moves a cursor by `delta` within `0..len`, wrapping. A no-op if there is nothing to move in.
fn wrap(cursor: usize, delta: i32, len: u128) -> (r: usize)
    requires
        len <= usize::MAX + 1,
    ensures
        r == reduce::wrapped(cursor, delta as int, len as nat),
{
    if len == 0 {
        return cursor;
    }
    let at: i128 = cursor as i128 + delta as i128;
    if at >= 0 {
        (at as u128 % len) as usize
    } else {
        let back: u128 = (-at) as u128;
        let over: u128 = back % len;
        let r: u128 = if over == 0 {
            0
        } else {
            len - over
        };
        proof {
            let n = len as int;
            let q = back as int / n;
            vstd::arithmetic::div_mod::lemma_fundamental_div_mod(back as int, n);
            if over == 0 {
                assert(at == n * (-q)) by (nonlinear_arith)
                    requires
                        at == -(back as int),
                        back == n * q + over,
                        over == 0,
                ;
                vstd::arithmetic::div_mod::lemma_fundamental_div_mod_converse(at as int, n, -q, 0);
            } else {
                assert(at == n * (-q - 1) + (n - over)) by (nonlinear_arith)
                    requires
                        at == -(back as int),
                        back == n * q + over,
                ;
                vstd::arithmetic::div_mod::lemma_fundamental_div_mod_converse(
                    at as int,
                    n,
                    -q - 1,
                    n - over,
                );
            }
        }
        r as usize
    }
}

/// Keeps a cursor inside `0..len` after the list behind it changed.
fn clamp_cursor(cursor: usize, len: u128) -> (r: usize)
    requires
        len <= usize::MAX + 1,
    ensures
        r == reduce::clamped(cursor, len as nat),
{
    if (cursor as u128) < len {
        cursor
    } else if len == 0 {
        0
    } else {
        (len - 1) as usize
    }
}

/// Scrolls one line up or down, staying on a line of the content.
fn scroll(offset: u16, delta: i32, len: u16) -> (r: u16)
    requires
        offset < u16::MAX,
    ensures
        r == reduce::scrolled(offset, delta as int, len),
{
    if delta < 0 {
        if offset == 0 {
            0
        } else {
            offset - 1
        }
    } else if len == 0 {
        0
    } else if offset + 1 < len {
        offset + 1
    } else {
        len - 1
    }
}

/// Steps a count within the stepper's range.
fn step_count(count: u32, delta: i32) -> (r: u32)
    ensures
        r == reduce::stepped(count, delta as int),
{
    let next: i64 = count as i64 - delta as i64;
    if next < 1 {
        1
    } else if next > MAX_WHITELIST_COUNT_UI as i64 {
        MAX_WHITELIST_COUNT_UI
    } else {
        next as u32
    }
}

/// The power action after this one.
fn next_power_action(p: PowerAction) -> (r: PowerAction)
    ensures
        r == reduce::power_after(p),
{
    match p {
        PowerAction::PowerOff => PowerAction::Halt,
        PowerAction::Halt => PowerAction::NoAction,
        PowerAction::NoAction => PowerAction::PowerOff,
    }
}

/// The sensor-gap setting after this one.
fn next_sensor_gap(g: OnSensorGap) -> (r: OnSensorGap)
    ensures
        r == reduce::gap_after(g),
{
    match g {
        OnSensorGap::Warn => OnSensorGap::Kill,
        OnSensorGap::Kill => OnSensorGap::Warn,
    }
}

/// A letter in lower case; any other character as it is.
fn lower_char(c: char) -> (r: char)
    ensures
        r == text::lower(c),
{
    let code: u32 = c as u32;
    if 65 <= code && code <= 90 {
        let low: u8 = code as u8 + 32;
        low as char
    } else {
        c
    }
}

/// Whether a character may be typed into the id field.
fn fits_id(input: &str, c: char) -> (r: bool)
    ensures
        r == reduce::id_char(input@, c),
{
    let chars = text::chars_of(input);
    proof {
        text::find_is_first(chars@, ':');
    }
    match sensor_event::hex_digit(c) {
        Some(_) => true,
        None => c == ':' && text::find_char(&chars, ':').is_none(),
    }
}

/// Whether a character is an unaccented letter.
fn letter(c: char) -> (r: bool)
    ensures
        r == reduce::is_letter(c),
{
    let code: u32 = c as u32;
    (97 <= code && code <= 122) || (65 <= code && code <= 90)
}

/// What an event says in a toast, if anything.
fn event_message(event: &Event) -> (r: Option<String>)
    ensures
        text::opt_view(r) == reduce::event_toast(event@),
{
    proof {
        reveal(reduce::event_toast);
    }
    match event {
        Event::DeviceAdded(_) | Event::DeviceRemoved(_) => None,
        Event::Armed => Some("Armed".to_owned()),
        Event::Disarmed => Some("Disarmed".to_owned()),
        Event::WouldKill(reason) => Some(
            "would kill: ".to_owned().concat(reason.to_text().as_str()),
        ),
        Event::SensorStopped => Some(
            "USB sensor stopped — daemon is no longer watching".to_owned(),
        ),
        Event::EventsLost => Some("USB events lost — some device changes were missed".to_owned()),
        Event::WhitelistChanged => Some("whitelist changed".to_owned()),
        Event::ConfigChanged => Some("config changed".to_owned()),
        Event::ReloadFailed(reason) => Some("reload failed: ".to_owned().concat(reason.as_str())),
    }
}

/// What an event can have changed: the status, the device list, the whitelist, the config.
fn event_marks(event: &Event) -> (r: (bool, bool, bool, bool))
    ensures
        r.0 == reduce::marks_status(event@),
        r.1 == reduce::marks_devices(event@),
        r.2 == (event@ is WhitelistChanged),
        r.3 == (event@ is ConfigChanged),
{
    match event {
        Event::DeviceAdded(_) | Event::DeviceRemoved(_) => (true, true, false, false),
        Event::WouldKill(_) => (false, false, false, false),
        Event::WhitelistChanged => (true, true, true, false),
        Event::ConfigChanged => (true, false, false, true),
        Event::Armed
        | Event::Disarmed
        | Event::SensorStopped
        | Event::EventsLost
        | Event::ReloadFailed(_) => (true, false, false, false),
    }
}

impl<C: Client> App<C> {
    pub fn new(client: C) -> (r: Self)
        ensures
            r.client == client,
            r@ == AppView::fresh(
                client.log(),
                client.answers(),
                client.readings(),
                client.script(),
            ),
            r@.wf(),
    {
        let r = App {
            client,
            conn: Conn::Connecting,
            conn_error: None,
            status: None,
            devices: Vec::new(),
            whitelist: Vec::new(),
            config: None,
            dryrun: None,
            events: VecDeque::new(),
            report: None,
            screen: Screen::Devices,
            modal: None,
            device_cursor: 0,
            whitelist_cursor: 0,
            settings_cursor: 0,
            event_scroll: 0,
            events_paused: false,
            help_scroll: 0,
            destroy_scroll: 0,
            input: String::new(),
            destroy_target: None,
            toast: None,
            should_quit: false,
            dirty_status: false,
            dirty_devices: false,
            dirty_whitelist: false,
            dirty_config: false,
            clock: 0,
        };
        proof {
            assert(r@.devices =~= Seq::empty());
            assert(r@.whitelist =~= Seq::empty());
            assert(r@.events =~= Seq::empty());
        }
        r
    }

    /// Whether the current modal is a text-entry field: printable keys are then text, not
    /// accelerators.
    pub fn capturing_text(&self) -> (r: bool)
        ensures
            r == self@.captures_text(),
    {
        match self.modal {
            Some(Modal::WhitelistAddId) => true,
            Some(Modal::DestroyText { .. }) => true,
            Some(Modal::DestroyConfirm { .. }) => true,
            _ => false,
        }
    }

    /// Whether LUKS header destruction is currently engaged, per the last config fetched.
    /// `false` when unknown or unconfigured.
    pub fn luks_engaged(&self) -> (r: bool)
        ensures
            r == self@.engaged(),
    {
        match &self.config {
            Some(c) => match &c.luks_destroy {
                Some(l) => l.engaged,
                None => false,
            },
            None => false,
        }
    }

    /// The LUKS target header per the last config fetched.
    fn luks_target(&self) -> (r: Option<String>)
        ensures
            text::opt_view(r) == self@.luks_target(),
    {
        match &self.config {
            Some(c) => match &c.luks_destroy {
                Some(l) => Some(l.target_header.clone()),
                None => None,
            },
            None => None,
        }
    }

    /// Whether a device with this id is currently connected.
    pub fn whitelist_entry_connected(&self, id: UsbId) -> (r: bool)
        ensures
            r == self@.connected(id),
    {
        let mut i: usize = 0;
        while i < self.devices.len()
            invariant
                i <= self.devices@.len(),
                forall|k: int| 0 <= k < i ==> (#[trigger] self@.devices[k]).id != Some(id),
            decreases self.devices@.len() - i,
        {
            assert(self@.devices[i as int] == self.devices@[i as int]@);
            if let Some(other) = self.devices[i].id {
                if other == id {
                    return true;
                }
            }
            i += 1;
        }
        false
    }

    // --- toast ---

    fn set_toast(&mut self, msg: &str)
        ensures
            final(self)@ == reduce::toasted(old(self)@, msg@),
            final(self).client == old(self).client,
    {
        self.toast = Some((toast_line(msg), self.clock));
    }

    /// Tells the app the time, in milliseconds on the client's clock.
    pub fn tick(&mut self, now: u64)
        ensures
            final(self)@ == reduce::ticked(old(self)@, now),
            old(self)@.wf() ==> final(self)@.wf(),
            final(self).client == old(self).client,
    {
        self.clock = now;
    }

    /// Drops a toast that was set longer than [`TOAST_TTL`] before `now`.
    pub fn expire_toast(&mut self, now: u64)
        ensures
            final(self)@ == reduce::toast_expired(old(self)@, now),
            old(self)@.wf() ==> final(self)@.wf(),
            final(self).client == old(self).client,
    {
        let expired = match &self.toast {
            Some(t) => now > t.1 && now - t.1 > TOAST_TTL,
            None => false,
        };
        if expired {
            self.toast = None;
        }
    }

    // --- fetches ---

    /// Calls the client with one command, and looks at the clock when the answer is there.
    fn ask(&mut self, cmd: &Command) -> (r: Result<Reply, String>)
        ensures
            final(self)@.sent == old(self)@.sent.push(cmd@),
            final(self)@.heard == old(self)@.heard.push(client::answer_view(r)),
            final(self)@.readings.len() == old(self)@.readings.len() + 1,
            final(self)@.script == old(self)@.script,
            client::true_to(old(self)@.script, old(self)@.heard) ==> client::true_to(
                final(self)@.script,
                final(self)@.heard,
            ),
            forall|tape: Tape| #[trigger]
                reduce::follows(tape, final(self)@.heard, final(self)@.readings) ==> {
                    &&& reduce::follows(tape, old(self)@.heard, old(self)@.readings)
                    &&& final(self)@ == reduce::asked(old(self)@, cmd@, tape)
                    &&& client::answer_view(r) == reduce::answer(old(self)@, tape)
                },
    {
        let r = self.client.call(cmd);
        self.clock = self.client.now();
        proof {
            let before = old(self)@;
            let after = self@;
            assert forall|tape: Tape| #[trigger]
                reduce::follows(tape, after.heard, after.readings) implies {
                &&& reduce::follows(tape, before.heard, before.readings)
                &&& tape.answers[before.heard.len() as int] == client::answer_view(r)
                &&& tape.times[before.readings.len() as int] == after.clock
            } by {
                assert(tape.answers.take(before.heard.len() as int) =~= after.heard.drop_last());
                assert(after.heard.drop_last() =~= before.heard);
                assert(tape.answers.take(after.heard.len() as int)[before.heard.len() as int]
                    == after.heard.last());
                assert(tape.times.take(before.readings.len() as int)
                    =~= after.readings.drop_last());
                assert(after.readings.drop_last() =~= before.readings);
                assert(tape.times.take(after.readings.len() as int)[before.readings.len() as int]
                    == after.readings.last());
            }
            reveal(client::true_to);
        }
        r
    }

    pub fn refresh_status(&mut self)
        ensures
            reduce::follows(final(self)@.tape(), old(self)@.heard, old(self)@.readings),
            final(self)@ == reduce::status_fetched(old(self)@, final(self)@.tape()),
            final(self)@.heard.len() >= old(self)@.heard.len(),
            final(self)@.readings.len() >= old(self)@.readings.len(),
            final(self)@.script == old(self)@.script,
            client::true_to(old(self)@.script, old(self)@.heard) ==> client::true_to(
                final(self)@.script,
                final(self)@.heard,
            ),
            forall|tape: Tape| #[trigger]
                reduce::follows(tape, final(self)@.heard, final(self)@.readings)
                    ==> reduce::follows(tape, old(self)@.heard, old(self)@.readings)
                    && final(self)@ == reduce::status_fetched(old(self)@, tape),
    {
        proof {
            reveal(reduce::status_fetched);
        }
        match self.ask(&Command::GetStatus) {
            Ok(Reply::Status(s)) => {
                self.status = Some(s);
            },
            Ok(other) => {
                self.set_toast(
                    "unexpected reply to GetStatus: ".to_owned().concat(
                        debug::reply_text(&other).as_str(),
                    ).as_str(),
                );
            },
            Err(e) => {
                self.set_toast("status: ".to_owned().concat(e.as_str()).as_str());
            },
        }
        proof {
            let tape = self@.tape();
            reduce::a_tape_follows_itself(self@);
        }
    }

    fn refresh_devices(&mut self)
        ensures
            final(self)@.heard.len() >= old(self)@.heard.len(),
            final(self)@.readings.len() >= old(self)@.readings.len(),
            final(self)@.script == old(self)@.script,
            client::true_to(old(self)@.script, old(self)@.heard) ==> client::true_to(
                final(self)@.script,
                final(self)@.heard,
            ),
            forall|tape: Tape| #[trigger]
                reduce::follows(tape, final(self)@.heard, final(self)@.readings)
                    ==> reduce::follows(tape, old(self)@.heard, old(self)@.readings)
                    && final(self)@ == reduce::devices_fetched(old(self)@, tape),
    {
        proof {
            reveal(reduce::devices_fetched);
        }
        match self.ask(&Command::ListDevices) {
            Ok(Reply::Devices(d)) => {
                self.devices = d;
                self.device_cursor = clamp_cursor(self.device_cursor, self.devices.len() as u128);
            },
            Ok(other) => {
                self.set_toast(
                    "unexpected reply to ListDevices: ".to_owned().concat(
                        debug::reply_text(&other).as_str(),
                    ).as_str(),
                );
            },
            Err(e) => {
                self.set_toast("devices: ".to_owned().concat(e.as_str()).as_str());
            },
        }
    }

    fn refresh_whitelist(&mut self)
        ensures
            final(self)@.heard.len() >= old(self)@.heard.len(),
            final(self)@.readings.len() >= old(self)@.readings.len(),
            final(self)@.script == old(self)@.script,
            client::true_to(old(self)@.script, old(self)@.heard) ==> client::true_to(
                final(self)@.script,
                final(self)@.heard,
            ),
            forall|tape: Tape| #[trigger]
                reduce::follows(tape, final(self)@.heard, final(self)@.readings)
                    ==> reduce::follows(tape, old(self)@.heard, old(self)@.readings)
                    && final(self)@ == reduce::whitelist_fetched(old(self)@, tape),
    {
        proof {
            reveal(reduce::whitelist_fetched);
        }
        match self.ask(&Command::WhitelistList) {
            Ok(Reply::Whitelist(w)) => {
                self.whitelist = w;
                self.whitelist_cursor = clamp_cursor(
                    self.whitelist_cursor,
                    self.whitelist.len() as u128 + 1,
                );
            },
            Ok(other) => {
                self.set_toast(
                    "unexpected reply to WhitelistList: ".to_owned().concat(
                        debug::reply_text(&other).as_str(),
                    ).as_str(),
                );
            },
            Err(e) => {
                self.set_toast("whitelist: ".to_owned().concat(e.as_str()).as_str());
            },
        }
    }

    fn refresh_config(&mut self)
        ensures
            final(self)@.heard.len() >= old(self)@.heard.len(),
            final(self)@.readings.len() >= old(self)@.readings.len(),
            final(self)@.script == old(self)@.script,
            client::true_to(old(self)@.script, old(self)@.heard) ==> client::true_to(
                final(self)@.script,
                final(self)@.heard,
            ),
            forall|tape: Tape| #[trigger]
                reduce::follows(tape, final(self)@.heard, final(self)@.readings)
                    ==> reduce::follows(tape, old(self)@.heard, old(self)@.readings)
                    && final(self)@ == reduce::config_fetched(old(self)@, tape),
    {
        proof {
            reveal(reduce::config_fetched);
        }
        match self.ask(&Command::GetConfig) {
            Ok(Reply::Config(c)) => {
                self.config = Some(c);
            },
            Ok(other) => {
                self.set_toast(
                    "unexpected reply to GetConfig: ".to_owned().concat(
                        debug::reply_text(&other).as_str(),
                    ).as_str(),
                );
            },
            Err(e) => {
                self.set_toast("config: ".to_owned().concat(e.as_str()).as_str());
            },
        }
    }

    fn run_dry_run(&mut self)
        ensures
            final(self)@.heard.len() >= old(self)@.heard.len(),
            final(self)@.readings.len() >= old(self)@.readings.len(),
            final(self)@.script == old(self)@.script,
            client::true_to(old(self)@.script, old(self)@.heard) ==> client::true_to(
                final(self)@.script,
                final(self)@.heard,
            ),
            forall|tape: Tape| #[trigger]
                reduce::follows(tape, final(self)@.heard, final(self)@.readings)
                    ==> reduce::follows(tape, old(self)@.heard, old(self)@.readings)
                    && final(self)@ == reduce::dry_run_fetched(old(self)@, tape),
    {
        proof {
            reveal(reduce::dry_run_fetched);
        }
        match self.ask(&Command::RunDryRun) {
            Ok(Reply::DryRun(reasons)) => {
                self.dryrun = Some(reasons);
            },
            Ok(Reply::Error(e)) => {
                self.set_toast("dry run refused: ".to_owned().concat(e.as_str()).as_str());
            },
            Ok(other) => {
                self.set_toast(
                    "unexpected reply to RunDryRun: ".to_owned().concat(
                        debug::reply_text(&other).as_str(),
                    ).as_str(),
                );
            },
            Err(e) => {
                self.set_toast("dry run: ".to_owned().concat(e.as_str()).as_str());
            },
        }
    }

    fn refresh(&mut self)
        ensures
            final(self)@.heard.len() >= old(self)@.heard.len(),
            final(self)@.readings.len() >= old(self)@.readings.len(),
            final(self)@.script == old(self)@.script,
            client::true_to(old(self)@.script, old(self)@.heard) ==> client::true_to(
                final(self)@.script,
                final(self)@.heard,
            ),
            forall|tape: Tape| #[trigger]
                reduce::follows(tape, final(self)@.heard, final(self)@.readings)
                    ==> reduce::follows(tape, old(self)@.heard, old(self)@.readings)
                    && final(self)@ == reduce::refreshed(old(self)@, tape),
    {
        proof {
            reveal(reduce::refreshed);
        }
        let screen = self.screen;
        self.refresh_status();
        match screen {
            Screen::Devices => self.refresh_devices(),
            Screen::Whitelist => self.refresh_whitelist(),
            Screen::Settings | Screen::Config | Screen::Destroy => self.refresh_config(),
            Screen::DryRun => self.run_dry_run(),
            Screen::EventLog | Screen::Help => {},
        }
    }

    pub fn command(&mut self, cmd: &Command, ok_msg: &str)
        ensures
            reduce::follows(final(self)@.tape(), old(self)@.heard, old(self)@.readings),
            final(self)@ == reduce::commanded(old(self)@, cmd@, ok_msg@, final(self)@.tape()),
            final(self)@.heard.len() >= old(self)@.heard.len(),
            final(self)@.readings.len() >= old(self)@.readings.len(),
            final(self)@.script == old(self)@.script,
            client::true_to(old(self)@.script, old(self)@.heard) ==> client::true_to(
                final(self)@.script,
                final(self)@.heard,
            ),
            forall|tape: Tape| #[trigger]
                reduce::follows(tape, final(self)@.heard, final(self)@.readings)
                    ==> reduce::follows(tape, old(self)@.heard, old(self)@.readings)
                    && final(self)@ == reduce::commanded(
                        old(self)@,
                        cmd@,
                        ok_msg@,
                        tape,
                    ),
    {
        proof {
            reveal(reduce::commanded);
        }
        match self.ask(cmd) {
            Ok(Reply::Done) => {
                self.set_toast(ok_msg);
            },
            Ok(Reply::Error(e)) => {
                self.set_toast("refused: ".to_owned().concat(e.as_str()).as_str());
            },
            Ok(other) => {
                self.set_toast(
                    "unexpected reply: ".to_owned().concat(
                        debug::reply_text(&other).as_str(),
                    ).as_str(),
                );
            },
            Err(e) => {
                self.set_toast("error: ".to_owned().concat(e.as_str()).as_str());
            },
        }
        self.refresh_status();
        proof {
            let tape = self@.tape();
            reduce::a_tape_follows_itself(self@);
        }
    }

    // --- input ---

    /// Carries out one intent.
    #[verifier::rlimit(40)]
    pub fn handle(&mut self, intent: Intent)
        requires
            old(self)@.wf(),
        ensures
            final(self)@.wf(),
            reduce::follows(final(self)@.tape(), old(self)@.heard, old(self)@.readings),
            client::true_to(old(self)@.script, old(self)@.heard) ==> client::true_to(
                final(self)@.script,
                final(self)@.heard,
            ),
            final(self)@ == reduce::handled(old(self)@, intent, final(self)@.tape()),
    {
        self.carry_out(intent);
        proof {
            let tape = self@.tape();
            reduce::a_tape_follows_itself(self@);
            reduce::handling_keeps_wf(old(self)@, intent, tape);
        }
    }

    #[verifier::rlimit(40)]
    fn carry_out(&mut self, intent: Intent)
        requires
            old(self)@.wf(),
        ensures
            final(self)@.heard.len() >= old(self)@.heard.len(),
            final(self)@.readings.len() >= old(self)@.readings.len(),
            final(self)@.script == old(self)@.script,
            client::true_to(old(self)@.script, old(self)@.heard) ==> client::true_to(
                final(self)@.script,
                final(self)@.heard,
            ),
            forall|tape: Tape| #[trigger]
                reduce::follows(tape, final(self)@.heard, final(self)@.readings)
                    ==> reduce::follows(tape, old(self)@.heard, old(self)@.readings)
                    && final(self)@ == reduce::handled(old(self)@, intent, tape),
    {
        match intent {
            Intent::Nothing => {},
            Intent::Quit => {
                self.should_quit = true;
            },
            Intent::ToggleMenu => {
                self.modal = match self.modal {
                    Some(Modal::Menu { .. }) => None,
                    _ => Some(Modal::Menu { cursor: 0 }),
                };
                self.input = String::new();
                self.destroy_target = None;
            },
            Intent::Back => self.go_back(),
            Intent::Up => self.move_cursor(-1),
            Intent::Down => self.move_cursor(1),
            Intent::Select => self.select(),
            Intent::Refresh => self.refresh(),
            Intent::Reconnect => self.set_toast("reconnecting…"),
            Intent::Help => {
                self.modal = None;
                self.input = String::new();
                self.destroy_target = None;
                self.screen = Screen::Help;
                self.help_scroll = 0;
            },
            Intent::Char(c) => self.input_char(c),
            Intent::Backspace => {
                if self.capturing_text() && !self.input.as_str().is_empty() {
                    let chars = text::chars_of(self.input.as_str());
                    let shorter = text::slice_chars(&chars, 0, chars.len() - 1);
                    assert(shorter@ =~= self.input@.drop_last());
                    self.input = text::string_of(shorter.as_slice());
                }
            },
            Intent::TogglePause => self.toggle_pause(),
        }
    }

    /// Closes a modal, else returns to the Devices screen.
    fn go_back(&mut self)
        ensures
            final(self)@ == reduce::gone_back(old(self)@),
            final(self)@.heard == old(self)@.heard,
            final(self)@.readings == old(self)@.readings,
            final(self)@.script == old(self)@.script,
    {
        proof {
            reveal(reduce::gone_back);
        }
        let modal = self.modal;
        self.modal = None;
        self.input = String::new();
        self.report = None;
        self.destroy_target = None;
        match modal {
            Some(Modal::DestroyText { .. }) | Some(Modal::DestroyConfirm { .. }) => {
                self.set_toast("cancelled — LUKS destruction unchanged");
            },
            Some(_) => {},
            None => {
                self.screen = Screen::Devices;
            },
        }
    }

    /// Freezes the event log, or follows it again.
    fn toggle_pause(&mut self)
        ensures
            final(self)@ == reduce::pause_toggled(old(self)@),
            final(self)@.heard == old(self)@.heard,
            final(self)@.readings == old(self)@.readings,
            final(self)@.script == old(self)@.script,
    {
        proof {
            reveal(reduce::pause_toggled);
        }
        if self.screen == Screen::EventLog {
            self.events_paused = !self.events_paused;
            if self.events_paused {
                self.set_toast("log paused");
            } else {
                self.event_scroll = 0;
                self.set_toast("log following");
            }
        }
    }

    fn type_id(&mut self, c: char)
        ensures
            final(self)@ == reduce::id_typed(old(self)@, c),
            final(self)@.heard == old(self)@.heard,
            final(self)@.readings == old(self)@.readings,
            final(self)@.script == old(self)@.script,
    {
        if self.input.as_str().unicode_len() < USB_ID_INPUT_LEN && fits_id(self.input.as_str(), c) {
            self.input.push(lower_char(c));
        }
    }

    fn type_word(&mut self, c: char)
        ensures
            final(self)@ == reduce::word_typed(old(self)@, c),
            final(self)@.heard == old(self)@.heard,
            final(self)@.readings == old(self)@.readings,
            final(self)@.script == old(self)@.script,
    {
        if self.input.as_str().unicode_len() < DESTROY_WORD_INPUT_MAX && letter(c) {
            self.input.push(c);
        }
    }

    #[verifier::rlimit(40)]
    fn input_char(&mut self, c: char)
        ensures
            final(self)@.heard.len() >= old(self)@.heard.len(),
            final(self)@.readings.len() >= old(self)@.readings.len(),
            final(self)@.script == old(self)@.script,
            client::true_to(old(self)@.script, old(self)@.heard) ==> client::true_to(
                final(self)@.script,
                final(self)@.heard,
            ),
            forall|tape: Tape| #[trigger]
                reduce::follows(tape, final(self)@.heard, final(self)@.readings)
                    ==> reduce::follows(tape, old(self)@.heard, old(self)@.readings)
                    && final(self)@ == reduce::typed(old(self)@, c, tape),
    {
        proof {
            reveal(reduce::typed);
        }
        match self.modal {
            Some(Modal::WhitelistAddId) => self.type_id(c),
            Some(Modal::DestroyText { .. }) => self.type_word(c),
            Some(Modal::DestroyConfirm { engage }) => {
                if c == 'y' || c == 'Y' {
                    self.set_luks_destroy_engaged(engage);
                } else {
                    self.modal = None;
                    self.destroy_target = None;
                    self.set_toast("cancelled — LUKS destruction unchanged");
                }
            },
            _ => {},
        }
    }

    fn move_cursor(&mut self, delta: i32)
        requires
            old(self)@.wf(),
        ensures
            final(self)@ == reduce::moved(old(self)@, delta as int),
            final(self)@.heard == old(self)@.heard,
            final(self)@.readings == old(self)@.readings,
            final(self)@.script == old(self)@.script,
    {
        proof {
            reveal(reduce::moved);
            reveal(reduce::modal_moved);
        }
        match self.modal {
            None => self.move_screen_cursor(delta),
            Some(modal) => {
                let next = match modal {
                    Modal::Menu { cursor } => Modal::Menu {
                        cursor: wrap(cursor, delta, MENU_LEN as u128),
                    },
                    Modal::DeviceAction { device_index, cursor } => Modal::DeviceAction {
                        device_index,
                        cursor: wrap(cursor, delta, DEVICE_ACTION_OPTIONS as u128),
                    },
                    Modal::WhitelistEntryAction {
                        entry_index,
                        cursor,
                    } => Modal::WhitelistEntryAction {
                        entry_index,
                        cursor: wrap(cursor, delta, WHITELIST_ENTRY_ACTION_OPTIONS as u128),
                    },
                    Modal::WhitelistAddCount {
                        device_index,
                        max_count,
                    } => Modal::WhitelistAddCount {
                        device_index,
                        max_count: step_count(max_count, delta),
                    },
                    Modal::WhitelistCount { id, max_count, editing } => Modal::WhitelistCount {
                        id,
                        max_count: step_count(max_count, delta),
                        editing,
                    },
                    other => other,
                };
                self.modal = Some(next);
            },
        }
    }

    fn move_screen_cursor(&mut self, delta: i32)
        requires
            old(self)@.wf(),
        ensures
            final(self)@ == reduce::screen_moved(old(self)@, delta as int),
            final(self)@.heard == old(self)@.heard,
            final(self)@.readings == old(self)@.readings,
            final(self)@.script == old(self)@.script,
    {
        proof {
            reveal(reduce::screen_moved);
        }
        match self.screen {
            Screen::Devices => {
                if self.devices.len() > 0 {
                    self.device_cursor = wrap(
                        self.device_cursor,
                        delta,
                        self.devices.len() as u128,
                    );
                }
            },
            Screen::Whitelist => {
                self.whitelist_cursor = wrap(
                    self.whitelist_cursor,
                    delta,
                    self.whitelist.len() as u128 + 1,
                );
            },
            Screen::Settings => {
                self.settings_cursor = wrap(
                    self.settings_cursor,
                    delta,
                    SETTINGS_ROW_COUNT as u128,
                );
            },
            Screen::EventLog => {
                if delta < 0 {
                    assert(self@.events.len() == self.events@.len());
                    self.event_scroll = clamp_cursor(
                        self.event_scroll + 1,
                        self.events.len() as u128,
                    );
                    self.events_paused = true;
                } else {
                    if self.event_scroll > 0 {
                        self.event_scroll = self.event_scroll - 1;
                    }
                    if self.event_scroll == 0 {
                        self.events_paused = false;
                    }
                }
            },
            Screen::Help => {
                self.help_scroll = scroll(self.help_scroll, delta, HELP_LINES);
            },
            Screen::Destroy => {
                self.destroy_scroll = scroll(
                    self.destroy_scroll,
                    delta,
                    destroy::line_count(self),
                );
            },
            Screen::Config | Screen::DryRun => {},
        }
    }

    #[verifier::rlimit(40)]
    fn select(&mut self)
        requires
            old(self)@.wf(),
        ensures
            final(self)@.heard.len() >= old(self)@.heard.len(),
            final(self)@.readings.len() >= old(self)@.readings.len(),
            final(self)@.script == old(self)@.script,
            client::true_to(old(self)@.script, old(self)@.heard) ==> client::true_to(
                final(self)@.script,
                final(self)@.heard,
            ),
            forall|tape: Tape| #[trigger]
                reduce::follows(tape, final(self)@.heard, final(self)@.readings)
                    ==> reduce::follows(tape, old(self)@.heard, old(self)@.readings)
                    && final(self)@ == reduce::selected(old(self)@, tape),
    {
        proof {
            reveal(reduce::selected);
        }
        match self.modal {
            Some(Modal::Menu { cursor }) => {
                self.modal = None;
                self.choose_menu_item(menu_item(cursor));
            },
            Some(Modal::DeviceAction { device_index, cursor }) => self.select_device_action(
                device_index,
                cursor,
            ),
            Some(
                Modal::WhitelistAddCount { device_index, max_count },
            ) => self.confirm_device_whitelist_add(device_index, max_count),
            Some(Modal::ConfirmRemove { device_index }) => self.confirm_device_remove(device_index),
            Some(Modal::Confirm { action }) => {
                self.modal = None;
                self.command(&action.to_command(), action.ok_msg());
            },
            Some(
                Modal::WhitelistEntryAction { entry_index, cursor },
            ) => self.select_whitelist_entry_action(entry_index, cursor),
            Some(Modal::WhitelistAddId) => self.submit_whitelist_add_id(),
            Some(Modal::WhitelistCount { id, max_count, .. }) => self.confirm_whitelist_count(
                id,
                max_count,
            ),
            Some(Modal::WhitelistRemoveEntry { id }) => {
                self.modal = None;
                self.command(&Command::WhitelistRemove(id), "removed from whitelist");
            },
            Some(Modal::Report) => {
                self.modal = None;
                self.report = None;
            },
            Some(Modal::ConfirmConfigSet { row }) => self.confirm_config_set(row),
            Some(Modal::DestroyText { engage }) => self.submit_destroy_text(engage),
            Some(Modal::DestroyConfirm { .. }) => {
                self.modal = None;
                self.destroy_target = None;
                self.set_toast("cancelled — LUKS destruction unchanged");
            },
            None => self.select_row(),
        }
    }

    /// Carries out a menu item, with the menu already closed.
    pub fn select_menu_item(&mut self, item: MenuItem)
        ensures
            reduce::follows(final(self)@.tape(), old(self)@.heard, old(self)@.readings),
            client::true_to(old(self)@.script, old(self)@.heard) ==> client::true_to(
                final(self)@.script,
                final(self)@.heard,
            ),
            final(self)@ == reduce::menu_item_selected(old(self)@, item, final(self)@.tape()),
    {
        self.choose_menu_item(item);
        proof {
            let tape = self@.tape();
            reduce::a_tape_follows_itself(self@);
        }
    }

    fn choose_menu_item(&mut self, item: MenuItem)
        ensures
            final(self)@.heard.len() >= old(self)@.heard.len(),
            final(self)@.readings.len() >= old(self)@.readings.len(),
            final(self)@.script == old(self)@.script,
            client::true_to(old(self)@.script, old(self)@.heard) ==> client::true_to(
                final(self)@.script,
                final(self)@.heard,
            ),
            forall|tape: Tape| #[trigger]
                reduce::follows(tape, final(self)@.heard, final(self)@.readings)
                    ==> reduce::follows(tape, old(self)@.heard, old(self)@.readings)
                    && final(self)@ == reduce::menu_item_selected(old(self)@, item, tape),
    {
        proof {
            reveal(reduce::menu_item_selected);
        }
        match item {
            MenuItem::Devices => {
                self.screen = Screen::Devices;
            },
            MenuItem::Whitelist => {
                self.screen = Screen::Whitelist;
                self.whitelist_cursor = 0;
                self.refresh_whitelist();
            },
            MenuItem::DryRun => {
                self.screen = Screen::DryRun;
                self.run_dry_run();
            },
            MenuItem::Settings => {
                self.screen = Screen::Settings;
                self.settings_cursor = 0;
                self.refresh_config();
            },
            MenuItem::EventLog => {
                self.screen = Screen::EventLog;
                self.event_scroll = 0;
                self.events_paused = false;
            },
            MenuItem::Config => {
                self.screen = Screen::Config;
                self.refresh_config();
            },
            MenuItem::LuksDestroy => {
                self.screen = Screen::Destroy;
                self.destroy_scroll = 0;
                self.refresh_config();
            },
            MenuItem::Arm => {
                self.modal = Some(Modal::Confirm { action: ConfirmAction::Arm });
            },
            MenuItem::Disarm => {
                self.modal = Some(Modal::Confirm { action: ConfirmAction::Disarm });
            },
            MenuItem::Reload => {
                self.modal = Some(Modal::Confirm { action: ConfirmAction::Reload });
            },
            MenuItem::Help => {
                self.screen = Screen::Help;
                self.help_scroll = 0;
            },
            MenuItem::Quit => {
                self.should_quit = true;
            },
        }
    }

    /// `Enter` on a list row with no modal open, by screen.
    fn select_row(&mut self)
        ensures
            final(self)@.heard.len() >= old(self)@.heard.len(),
            final(self)@.readings.len() >= old(self)@.readings.len(),
            final(self)@.script == old(self)@.script,
            client::true_to(old(self)@.script, old(self)@.heard) ==> client::true_to(
                final(self)@.script,
                final(self)@.heard,
            ),
            forall|tape: Tape| #[trigger]
                reduce::follows(tape, final(self)@.heard, final(self)@.readings)
                    ==> reduce::follows(tape, old(self)@.heard, old(self)@.readings)
                    && final(self)@ == reduce::row_selected(old(self)@, tape),
    {
        proof {
            reveal(reduce::row_selected);
        }
        match self.screen {
            Screen::Devices => self.select_device_row(),
            Screen::Whitelist => self.select_whitelist_row(),
            Screen::Settings => {
                let row: usize = self.settings_cursor;
                self.edit_setting(row);
            },
            Screen::Destroy => self.open_destroy_fence(),
            _ => {},
        }
    }

    // --- devices screen ---

    /// `Enter` on a device row: opens the device action modal, unless the device has no USB
    /// id, which policy cannot key on either.
    fn select_device_row(&mut self)
        ensures
            final(self)@ == reduce::device_row_selected(old(self)@),
            final(self)@.heard == old(self)@.heard,
            final(self)@.readings == old(self)@.readings,
            final(self)@.script == old(self)@.script,
    {
        proof {
            reveal(reduce::device_row_selected);
        }
        let at: usize = self.device_cursor;
        if at >= self.devices.len() {
            return;
        }
        assert(self@.devices[at as int] == self.devices@[at as int]@);
        if self.devices[at].id.is_none() {
            self.set_toast("device has no USB id — nothing to whitelist");
            return;
        }
        self.modal = Some(Modal::DeviceAction { device_index: at, cursor: 0 });
    }

    /// The device action modal's `Enter`.
    fn select_device_action(&mut self, device_index: usize, cursor: usize)
        ensures
            final(self)@ == reduce::device_action_selected(old(self)@, device_index, cursor),
            final(self)@.heard == old(self)@.heard,
            final(self)@.readings == old(self)@.readings,
            final(self)@.script == old(self)@.script,
    {
        proof {
            reveal(reduce::device_action_selected);
        }
        self.modal = None;
        if device_index >= self.devices.len() {
            self.set_toast("device is no longer connected");
            return;
        }
        assert(self@.devices[device_index as int] == self.devices@[device_index as int]@);
        if cursor != 0 {
            return;
        }
        if self.devices[device_index].whitelisted {
            self.modal = Some(Modal::ConfirmRemove { device_index });
        } else {
            self.modal = Some(Modal::WhitelistAddCount { device_index, max_count: 1 });
        }
    }

    /// The id of a device that is still listed.
    fn device_id(&self, device_index: usize) -> (r: Option<UsbId>)
        ensures
            r == reduce::device_id(self@, device_index),
            r is Some ==> device_index < self.devices@.len(),
    {
        if device_index < self.devices.len() {
            assert(self@.devices[device_index as int] == self.devices@[device_index as int]@);
            self.devices[device_index].id
        } else {
            None
        }
    }

    fn confirm_device_whitelist_add(&mut self, device_index: usize, max_count: u32)
        ensures
            final(self)@.heard.len() >= old(self)@.heard.len(),
            final(self)@.readings.len() >= old(self)@.readings.len(),
            final(self)@.script == old(self)@.script,
            client::true_to(old(self)@.script, old(self)@.heard) ==> client::true_to(
                final(self)@.script,
                final(self)@.heard,
            ),
            forall|tape: Tape| #[trigger]
                reduce::follows(tape, final(self)@.heard, final(self)@.readings)
                    ==> reduce::follows(tape, old(self)@.heard, old(self)@.readings)
                    && final(self)@ == reduce::device_add_confirmed(
                        old(self)@,
                        device_index,
                        max_count,
                        tape,
                    ),
    {
        proof {
            reveal(reduce::device_add_confirmed);
        }
        self.modal = None;
        match self.device_id(device_index) {
            None => self.set_toast("device is no longer connected"),
            Some(id) => {
                assert(self@.devices[device_index as int] == self.devices@[device_index as int]@);
                let entry = WhitelistEntry {
                    id,
                    label: self.devices[device_index].label.clone(),
                    max_count: Some(max_count),
                };
                self.command(&Command::WhitelistAdd(entry), "added to whitelist");
            },
        }
    }

    fn confirm_device_remove(&mut self, device_index: usize)
        ensures
            final(self)@.heard.len() >= old(self)@.heard.len(),
            final(self)@.readings.len() >= old(self)@.readings.len(),
            final(self)@.script == old(self)@.script,
            client::true_to(old(self)@.script, old(self)@.heard) ==> client::true_to(
                final(self)@.script,
                final(self)@.heard,
            ),
            forall|tape: Tape| #[trigger]
                reduce::follows(tape, final(self)@.heard, final(self)@.readings)
                    ==> reduce::follows(tape, old(self)@.heard, old(self)@.readings)
                    && final(self)@ == reduce::device_remove_confirmed(
                        old(self)@,
                        device_index,
                        tape,
                    ),
    {
        proof {
            reveal(reduce::device_remove_confirmed);
        }
        self.modal = None;
        match self.device_id(device_index) {
            None => self.set_toast("device is no longer connected"),
            Some(id) => self.command(&Command::WhitelistRemove(id), "removed from whitelist"),
        }
    }

    // --- whitelist screen ---

    fn select_whitelist_row(&mut self)
        ensures
            final(self)@ == reduce::whitelist_row_selected(old(self)@),
            final(self)@.heard == old(self)@.heard,
            final(self)@.readings == old(self)@.readings,
            final(self)@.script == old(self)@.script,
    {
        proof {
            reveal(reduce::whitelist_row_selected);
        }
        if self.whitelist_cursor == 0 {
            self.input = String::new();
            self.modal = Some(Modal::WhitelistAddId);
            return;
        }
        let entry_index: usize = self.whitelist_cursor - 1;
        if entry_index < self.whitelist.len() {
            self.modal = Some(Modal::WhitelistEntryAction { entry_index, cursor: 0 });
        }
    }

    fn select_whitelist_entry_action(&mut self, entry_index: usize, cursor: usize)
        ensures
            final(self)@ == reduce::entry_action_selected(old(self)@, entry_index, cursor),
            final(self)@.heard == old(self)@.heard,
            final(self)@.readings == old(self)@.readings,
            final(self)@.script == old(self)@.script,
    {
        proof {
            reveal(reduce::entry_action_selected);
        }
        self.modal = None;
        if entry_index >= self.whitelist.len() {
            self.set_toast("that entry is no longer in the whitelist");
            return;
        }
        assert(self@.whitelist[entry_index as int] == self.whitelist@[entry_index as int]@);
        let id = self.whitelist[entry_index].id;
        let max_count: u32 = match self.whitelist[entry_index].max_count {
            None => 1,
            Some(n) => if n < 1 {
                1
            } else if n > MAX_WHITELIST_COUNT_UI {
                MAX_WHITELIST_COUNT_UI
            } else {
                n
            },
        };
        if cursor == 0 {
            self.modal = Some(Modal::WhitelistCount { id, max_count, editing: true });
        } else if cursor == 1 {
            self.modal = Some(Modal::WhitelistRemoveEntry { id });
        }
    }

    /// `Enter` on the typed `vendor:product` field. A parse failure keeps the modal open with
    /// what was typed, so it can be corrected.
    fn submit_whitelist_add_id(&mut self)
        ensures
            final(self)@ == reduce::typed_id_submitted(old(self)@),
            final(self)@.heard == old(self)@.heard,
            final(self)@.readings == old(self)@.readings,
            final(self)@.script == old(self)@.script,
    {
        proof {
            reveal(reduce::typed_id_submitted);
        }
        let typed = text::trim(&text::chars_of(self.input.as_str()));
        match UsbId::parse(text::string_of(typed.as_slice()).as_str()) {
            Ok(id) => {
                self.input = String::new();
                self.modal = Some(Modal::WhitelistCount { id, max_count: 1, editing: false });
            },
            Err(_) => {
                self.set_toast("invalid id — expected vendor:product hex, e.g. 1050:0407");
                self.modal = Some(Modal::WhitelistAddId);
            },
        }
    }

    /// The label of the first entry with this id.
    fn label_of(&self, id: UsbId) -> (r: Option<String>)
        ensures
            text::opt_view(r) == reduce::label_of(self@.whitelist, id),
    {
        let ghost all = self@.whitelist;
        let mut i: usize = 0;
        assert(all.skip(0) =~= all);
        while i < self.whitelist.len()
            invariant
                i <= self.whitelist@.len(),
                all == text::views(self.whitelist@),
                reduce::label_of(all, id) == reduce::label_of(all.skip(i as int), id),
            decreases self.whitelist@.len() - i,
        {
            proof {
                assert(all.skip(i as int)[0] == self.whitelist@[i as int]@);
                assert(all.skip(i as int).skip(1) =~= all.skip(i + 1));
            }
            if self.whitelist[i].id == id {
                return self.whitelist[i].label.clone();
            }
            i += 1;
        }
        None
    }

    fn confirm_whitelist_count(&mut self, id: UsbId, max_count: u32)
        ensures
            final(self)@.heard.len() >= old(self)@.heard.len(),
            final(self)@.readings.len() >= old(self)@.readings.len(),
            final(self)@.script == old(self)@.script,
            client::true_to(old(self)@.script, old(self)@.heard) ==> client::true_to(
                final(self)@.script,
                final(self)@.heard,
            ),
            forall|tape: Tape| #[trigger]
                reduce::follows(tape, final(self)@.heard, final(self)@.readings)
                    ==> reduce::follows(tape, old(self)@.heard, old(self)@.readings)
                    && final(self)@ == reduce::count_confirmed(
                        old(self)@,
                        id,
                        max_count,
                        tape,
                    ),
    {
        proof {
            reveal(reduce::count_confirmed);
        }
        self.modal = None;
        let entry = WhitelistEntry { id, label: self.label_of(id), max_count: Some(max_count) };
        self.command(&Command::WhitelistAdd(entry), "whitelist updated");
    }

    // --- settings screen ---

    /// The change that a Settings row would apply, derived from the current config each time.
    /// `None` if no config is loaded or `row` is out of range.
    fn setting_change(&self, row: usize) -> (r: Option<ConfigChange>)
        ensures
            text::opt_view(r) == reduce::setting_change(self@, row),
    {
        match &self.config {
            None => None,
            Some(cfg) => if row == 0 {
                Some(ConfigChange::DryRun(!cfg.dry_run))
            } else if row == 1 {
                Some(ConfigChange::PowerAction(next_power_action(cfg.power_action)))
            } else if row == 2 {
                Some(ConfigChange::ArmedAtBoot(!cfg.armed_at_boot))
            } else if row == 3 {
                Some(ConfigChange::OnSensorGap(next_sensor_gap(cfg.on_sensor_gap)))
            } else {
                None
            },
        }
    }

    fn edit_setting(&mut self, row: usize)
        ensures
            final(self)@.heard.len() >= old(self)@.heard.len(),
            final(self)@.readings.len() >= old(self)@.readings.len(),
            final(self)@.script == old(self)@.script,
            client::true_to(old(self)@.script, old(self)@.heard) ==> client::true_to(
                final(self)@.script,
                final(self)@.heard,
            ),
            forall|tape: Tape| #[trigger]
                reduce::follows(tape, final(self)@.heard, final(self)@.readings)
                    ==> reduce::follows(tape, old(self)@.heard, old(self)@.readings)
                    && final(self)@ == reduce::setting_edited(old(self)@, row, tape),
    {
        proof {
            reveal(reduce::setting_edited);
        }
        match self.setting_change(row) {
            None => self.set_toast("no config loaded — press r to retry"),
            Some(change) => {
                if self.conn == Conn::Down {
                    self.set_toast("daemon unreachable — reconnect before changing settings");
                    return;
                }
                let armed = match &self.status {
                    Some(s) => s.armed,
                    None => true,
                };
                let lowers = match &change {
                    ConfigChange::DryRun(on) => *on,
                    ConfigChange::PowerAction(p) => *p != PowerAction::PowerOff,
                    ConfigChange::OnSensorGap(g) => *g == OnSensorGap::Warn,
                    _ => false,
                };
                if armed && lowers {
                    self.modal = Some(Modal::ConfirmConfigSet { row });
                } else {
                    self.config_set(change);
                }
            },
        }
    }

    fn confirm_config_set(&mut self, row: usize)
        ensures
            final(self)@.heard.len() >= old(self)@.heard.len(),
            final(self)@.readings.len() >= old(self)@.readings.len(),
            final(self)@.script == old(self)@.script,
            client::true_to(old(self)@.script, old(self)@.heard) ==> client::true_to(
                final(self)@.script,
                final(self)@.heard,
            ),
            forall|tape: Tape| #[trigger]
                reduce::follows(tape, final(self)@.heard, final(self)@.readings)
                    ==> reduce::follows(tape, old(self)@.heard, old(self)@.readings)
                    && final(self)@ == reduce::setting_confirmed(old(self)@, row, tape),
    {
        proof {
            reveal(reduce::setting_confirmed);
        }
        self.modal = None;
        match self.setting_change(row) {
            Some(change) => self.config_set(change),
            None => self.set_toast("no config loaded — press r to retry"),
        }
    }

    #[verifier::rlimit(40)]
    fn config_set(&mut self, change: ConfigChange)
        ensures
            final(self)@.heard.len() >= old(self)@.heard.len(),
            final(self)@.readings.len() >= old(self)@.readings.len(),
            final(self)@.script == old(self)@.script,
            client::true_to(old(self)@.script, old(self)@.heard) ==> client::true_to(
                final(self)@.script,
                final(self)@.heard,
            ),
            forall|tape: Tape| #[trigger]
                reduce::follows(tape, final(self)@.heard, final(self)@.readings)
                    ==> reduce::follows(tape, old(self)@.heard, old(self)@.readings)
                    && final(self)@ == reduce::config_change_sent(
                        old(self)@,
                        change@,
                        tape,
                    ),
    {
        proof {
            reveal(reduce::config_change_sent);
        }
        match self.ask(&Command::ConfigSet(change)) {
            Ok(Reply::Done) => {
                self.set_toast("setting updated");
                self.refresh_config();
                self.refresh_status();
            },
            Ok(Reply::Error(report)) => {
                self.report = Some(report);
                self.modal = Some(Modal::Report);
                self.refresh_config();
            },
            Ok(other) => {
                self.set_toast(
                    "unexpected reply to ConfigSet: ".to_owned().concat(
                        debug::reply_text(&other).as_str(),
                    ).as_str(),
                );
            },
            Err(e) => {
                self.set_toast("config set: ".to_owned().concat(e.as_str()).as_str());
            },
        }
    }

    // --- LUKS destroy screen ---

    /// `Enter` on the fenced screen: opens step one of the typed-word fence, towards the
    /// other state.
    fn open_destroy_fence(&mut self)
        ensures
            final(self)@ == reduce::fence_opened(old(self)@),
            final(self)@.heard == old(self)@.heard,
            final(self)@.readings == old(self)@.readings,
            final(self)@.script == old(self)@.script,
    {
        proof {
            reveal(reduce::fence_opened);
        }
        if self.conn == Conn::Down {
            self.set_toast("daemon unreachable — reconnect before changing LUKS destruction");
            return;
        }
        if self.config.is_none() {
            self.set_toast("no config loaded — press r to retry");
            return;
        }
        match self.luks_target() {
            None => self.set_toast("LUKS destruction is not configured"),
            Some(target) => {
                let engage = !self.luks_engaged();
                self.input = String::new();
                self.destroy_target = Some(target);
                self.modal = Some(Modal::DestroyText { engage });
            },
        }
    }

    /// `Enter` on the `DESTROY` text field. Only the exact word advances; anything else
    /// cancels with nothing sent.
    fn submit_destroy_text(&mut self, engage: bool)
        ensures
            final(self)@ == reduce::word_submitted(old(self)@, engage),
            final(self)@.heard == old(self)@.heard,
            final(self)@.readings == old(self)@.readings,
            final(self)@.script == old(self)@.script,
    {
        proof {
            reveal(reduce::word_submitted);
        }
        let typed_the_word = text::same_text(self.input.as_str(), "DESTROY");
        self.input = String::new();
        if typed_the_word {
            self.modal = Some(Modal::DestroyConfirm { engage });
        } else {
            self.modal = None;
            self.destroy_target = None;
            self.set_toast("cancelled — type DESTROY exactly to continue");
        }
    }

    /// The fence passed: sends the new state, unless the target moved while it was open.
    fn set_luks_destroy_engaged(&mut self, engage: bool)
        ensures
            final(self)@.heard.len() >= old(self)@.heard.len(),
            final(self)@.readings.len() >= old(self)@.readings.len(),
            final(self)@.script == old(self)@.script,
            client::true_to(old(self)@.script, old(self)@.heard) ==> client::true_to(
                final(self)@.script,
                final(self)@.heard,
            ),
            forall|tape: Tape| #[trigger]
                reduce::follows(tape, final(self)@.heard, final(self)@.readings)
                    ==> reduce::follows(tape, old(self)@.heard, old(self)@.readings)
                    && final(self)@ == reduce::fence_passed(old(self)@, engage, tape),
    {
        proof {
            reveal(reduce::fence_passed);
        }
        let current = self.luks_target();
        let same = text::same_opt_text(&self.destroy_target, &current);
        self.modal = None;
        self.destroy_target = None;
        if !same {
            self.set_toast(
                "LUKS target changed while the fence was open — nothing sent, re-open to confirm",
            );
            self.refresh_config();
            return;
        }
        self.send_engaged(engage);
    }

    /// Sends the new engaged state, and fetches what it changed.
    #[verifier::rlimit(40)]
    fn send_engaged(&mut self, engage: bool)
        ensures
            final(self)@.heard.len() >= old(self)@.heard.len(),
            final(self)@.readings.len() >= old(self)@.readings.len(),
            final(self)@.script == old(self)@.script,
            client::true_to(old(self)@.script, old(self)@.heard) ==> client::true_to(
                final(self)@.script,
                final(self)@.heard,
            ),
            forall|tape: Tape| #[trigger]
                reduce::follows(tape, final(self)@.heard, final(self)@.readings)
                    ==> reduce::follows(tape, old(self)@.heard, old(self)@.readings)
                    && final(self)@ == reduce::engaged_sent(old(self)@, engage, tape),
    {
        proof {
            reveal(reduce::engaged_sent);
        }
        match self.ask(&Command::SetLuksDestroyEngaged(engage)) {
            Ok(Reply::Done) => {
                if engage {
                    self.set_toast(
                        "LUKS header destruction ENGAGED (v1: recorded only — the wipe is a stub, the header is not touched)",
                    );
                } else {
                    self.set_toast("LUKS header destruction disengaged");
                }
                self.refresh_config();
                self.refresh_status();
            },
            Ok(Reply::Error(e)) => {
                self.set_toast("refused: ".to_owned().concat(e.as_str()).as_str());
            },
            Ok(other) => {
                self.set_toast(
                    "unexpected reply to SetLuksDestroyEngaged: ".to_owned().concat(
                        debug::reply_text(&other).as_str(),
                    ).as_str(),
                );
            },
            Err(e) => {
                self.set_toast("luks engage: ".to_owned().concat(e.as_str()).as_str());
            },
        }
    }

    // --- daemon messages ---

    #[verifier::rlimit(40)]
    pub fn on_connected(&mut self)
        requires
            old(self)@.wf(),
        ensures
            final(self)@.wf(),
            reduce::follows(final(self)@.tape(), old(self)@.heard, old(self)@.readings),
            client::true_to(old(self)@.script, old(self)@.heard) ==> client::true_to(
                final(self)@.script,
                final(self)@.heard,
            ),
            final(self)@ == reduce::connected(old(self)@, final(self)@.tape()),
    {
        self.conn = Conn::Up;
        self.conn_error = None;
        self.refresh();
        proof {
            let tape = self@.tape();
            reduce::a_tape_follows_itself(self@);
            reduce::messages_keep_wf(old(self)@, arbitrary(), arbitrary(), tape);
        }
    }

    pub fn on_disconnected(&mut self, why: String)
        ensures
            final(self)@ == reduce::disconnected(old(self)@, why@),
            old(self)@.wf() ==> final(self)@.wf(),
            final(self).client == old(self).client,
    {
        self.conn = Conn::Down;
        self.conn_error = Some(why);
    }

    /// A daemon-pushed event, with the daemon's own timestamp: recorded in the event log,
    /// then reduced. It only marks *what* needs re-fetching; the round-trips happen once per
    /// tick in [`App::settle`], so a burst of events costs one fetch of each kind.
    #[verifier::rlimit(40)]
    pub fn on_event(&mut self, se: StreamEvent)
        requires
            old(self)@.wf(),
        ensures
            final(self)@ == reduce::event_received(old(self)@, se@),
            final(self)@.wf(),
            final(self).client == old(self).client,
    {
        proof {
            reduce::an_event_keeps_wf(self@, se@);
        }
        let message = event_message(&se.event);
        let marks = event_marks(&se.event);
        self.record_event(se);
        if let Some(msg) = message {
            self.set_toast(msg.as_str());
        }
        self.mark(marks);
    }

    /// Marks what is to be re-fetched.
    fn mark(&mut self, marks: (bool, bool, bool, bool))
        ensures
            final(self)@ == (AppView {
                dirty_status: old(self)@.dirty_status || marks.0,
                dirty_devices: old(self)@.dirty_devices || marks.1,
                dirty_whitelist: old(self)@.dirty_whitelist || marks.2,
                dirty_config: old(self)@.dirty_config || marks.3,
                ..old(self)@
            }),
            final(self).client == old(self).client,
    {
        if marks.0 {
            self.dirty_status = true;
        }
        if marks.1 {
            self.dirty_devices = true;
        }
        if marks.2 {
            self.dirty_whitelist = true;
        }
        if marks.3 {
            self.dirty_config = true;
        }
    }

    /// Services the marks set since the last tick: at most one fetch of each kind, no matter
    /// how many events asked for it. Status first, then the screen data.
    #[verifier::rlimit(40)]
    pub fn settle(&mut self)
        requires
            old(self)@.wf(),
        ensures
            final(self)@.wf(),
            reduce::follows(final(self)@.tape(), old(self)@.heard, old(self)@.readings),
            client::true_to(old(self)@.script, old(self)@.heard) ==> client::true_to(
                final(self)@.script,
                final(self)@.heard,
            ),
            final(self)@ == reduce::settled(old(self)@, final(self)@.tape()),
    {
        self.settle_status();
        self.settle_devices();
        self.settle_whitelist();
        self.settle_config();
        proof {
            let tape = self@.tape();
            reduce::a_tape_follows_itself(self@);
            reduce::messages_keep_wf(old(self)@, arbitrary(), arbitrary(), tape);
        }
    }

    fn settle_status(&mut self)
        ensures
            final(self)@.heard.len() >= old(self)@.heard.len(),
            final(self)@.readings.len() >= old(self)@.readings.len(),
            final(self)@.script == old(self)@.script,
            client::true_to(old(self)@.script, old(self)@.heard) ==> client::true_to(
                final(self)@.script,
                final(self)@.heard,
            ),
            forall|tape: Tape| #[trigger]
                reduce::follows(tape, final(self)@.heard, final(self)@.readings)
                    ==> reduce::follows(tape, old(self)@.heard, old(self)@.readings)
                    && final(self)@ == reduce::status_settled(old(self)@, tape),
    {
        proof {
            reveal(reduce::status_settled);
        }
        if self.dirty_status {
            self.dirty_status = false;
            self.refresh_status();
        }
    }

    fn settle_devices(&mut self)
        ensures
            final(self)@.heard.len() >= old(self)@.heard.len(),
            final(self)@.readings.len() >= old(self)@.readings.len(),
            final(self)@.script == old(self)@.script,
            client::true_to(old(self)@.script, old(self)@.heard) ==> client::true_to(
                final(self)@.script,
                final(self)@.heard,
            ),
            forall|tape: Tape| #[trigger]
                reduce::follows(tape, final(self)@.heard, final(self)@.readings)
                    ==> reduce::follows(tape, old(self)@.heard, old(self)@.readings)
                    && final(self)@ == reduce::devices_settled(old(self)@, tape),
    {
        proof {
            reveal(reduce::devices_settled);
        }
        if self.dirty_devices {
            self.dirty_devices = false;
            self.refresh_devices();
        }
    }

    fn settle_whitelist(&mut self)
        ensures
            final(self)@.heard.len() >= old(self)@.heard.len(),
            final(self)@.readings.len() >= old(self)@.readings.len(),
            final(self)@.script == old(self)@.script,
            client::true_to(old(self)@.script, old(self)@.heard) ==> client::true_to(
                final(self)@.script,
                final(self)@.heard,
            ),
            forall|tape: Tape| #[trigger]
                reduce::follows(tape, final(self)@.heard, final(self)@.readings)
                    ==> reduce::follows(tape, old(self)@.heard, old(self)@.readings)
                    && final(self)@ == reduce::whitelist_settled(old(self)@, tape),
    {
        proof {
            reveal(reduce::whitelist_settled);
        }
        if self.dirty_whitelist {
            self.dirty_whitelist = false;
            self.refresh_whitelist();
        }
    }

    fn settle_config(&mut self)
        ensures
            final(self)@.heard.len() >= old(self)@.heard.len(),
            final(self)@.readings.len() >= old(self)@.readings.len(),
            final(self)@.script == old(self)@.script,
            client::true_to(old(self)@.script, old(self)@.heard) ==> client::true_to(
                final(self)@.script,
                final(self)@.heard,
            ),
            forall|tape: Tape| #[trigger]
                reduce::follows(tape, final(self)@.heard, final(self)@.readings)
                    ==> reduce::follows(tape, old(self)@.heard, old(self)@.readings)
                    && final(self)@ == reduce::config_settled(old(self)@, tape),
    {
        proof {
            reveal(reduce::config_settled);
        }
        if self.dirty_config {
            self.dirty_config = false;
            self.refresh_config();
        }
    }

    fn record_event(&mut self, se: StreamEvent)
        requires
            old(self)@.wf(),
        ensures
            final(self)@ == reduce::recorded(old(self)@, se@),
            final(self).client == old(self).client,
    {
        proof {
            reveal(reduce::recorded);
        }
        let ghost before = self@.events;
        self.events.push_back(se);
        assert(text::views(self.events@) =~= before.push(se@));
        if self.events.len() > EVENT_LOG_CAP {
            let _ = self.events.pop_front();
            assert(text::views(self.events@) =~= before.push(se@).skip(1));
        }
        assert(self@.events.len() == self.events@.len());
        if self.screen == Screen::EventLog {
            if self.events_paused {
                self.event_scroll = clamp_cursor(self.event_scroll + 1, self.events.len() as u128);
            } else {
                self.event_scroll = 0;
            }
        }
    }
}

/// The menu item at a cursor.
fn menu_item(cursor: usize) -> (r: MenuItem)
    requires
        cursor < MENU_LEN,
    ensures
        r == state::menu_order()[cursor as int],
{
    MenuItem::ORDER[cursor]
}

} // verus!
