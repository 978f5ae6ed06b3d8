//! The control-socket protocol.
//!
//! One Unix socket carries three kinds of traffic:
//!
//! * [`Command`]: client to daemon, expects a [`Reply`].
//! * [`Reply`]: daemon to client, answers one command.
//! * [`Event`]: daemon to subscribed clients, unsolicited, always inside a
//!   [`StreamEvent`] envelope.
//!
//! Wire format: a 4-byte big-endian body length, then the body ([`encode`] /
//! [`decode`]). The body is the JSON of the message, which the programs write
//! and read.

use crate::proto::action::{KillReason, PowerAction};
use crate::proto::sensor_event::{SensorSource, UsbId};
use crate::text;
use vstd::prelude::*;

verus! {

/// A whitelist entry as carried over the wire (mirrors `[[whitelist]]` in config).
#[derive(Debug, PartialEq, Eq)]
pub struct WhitelistEntry {
    pub id: UsbId,
    pub label: Option<String>,
    /// Maximum copies of this id allowed connected at once. `None` is resolved
    /// to `1` by the daemon's config validation.
    pub max_count: Option<u32>,
}

/// What a [`WhitelistEntry`] holds.
pub struct WhitelistEntryView {
    pub id: UsbId,
    pub label: Option<Seq<char>>,
    pub max_count: Option<u32>,
}

impl View for WhitelistEntry {
    type V = WhitelistEntryView;

    open spec fn view(&self) -> WhitelistEntryView {
        WhitelistEntryView {
            id: self.id,
            label: text::opt_view(self.label),
            max_count: self.max_count,
        }
    }
}

impl Clone for WhitelistEntry {
    fn clone(&self) -> (r: Self)
        ensures
            r == *self,
    {
        WhitelistEntry { id: self.id, label: self.label.clone(), max_count: self.max_count }
    }
}

/// A currently-connected device, as reported by `ListDevices` and device events.
#[derive(Debug, PartialEq, Eq)]
pub struct DeviceInfo {
    pub source: SensorSource,
    pub id: Option<UsbId>,
    pub serial: Option<String>,
    pub label: Option<String>,
    /// Whether this device matches a current whitelist entry.
    pub whitelisted: bool,
}

/// What a [`DeviceInfo`] holds.
pub struct DeviceInfoView {
    pub source: SensorSource,
    pub id: Option<UsbId>,
    pub serial: Option<Seq<char>>,
    pub label: Option<Seq<char>>,
    pub whitelisted: bool,
}

impl View for DeviceInfo {
    type V = DeviceInfoView;

    open spec fn view(&self) -> DeviceInfoView {
        DeviceInfoView {
            source: self.source,
            id: self.id,
            serial: text::opt_view(self.serial),
            label: text::opt_view(self.label),
            whitelisted: self.whitelisted,
        }
    }
}

impl Clone for DeviceInfo {
    fn clone(&self) -> (r: Self)
        ensures
            r == *self,
    {
        DeviceInfo {
            source: self.source,
            id: self.id,
            serial: self.serial.clone(),
            label: self.label.clone(),
            whitelisted: self.whitelisted,
        }
    }
}

/// A USB string descriptor is at most 126 UTF-16 code units; anything longer is
/// not a real serial or label. Also the ceiling on any device string kept or
/// rendered anywhere: see [`sanitize_device_string`].
pub const MAX_DEVICE_STRING: usize = 256;

/// The space and the printable ASCII characters.
pub open spec fn is_plain(c: char) -> bool {
    ' ' <= c <= '~'
}

/// The character that stands in for one that must not reach a terminal.
pub open spec fn plain_or_replaced(c: char) -> char {
    if is_plain(c) {
        c
    } else {
        '\u{fffd}'
    }
}

/// A device string made safe: cut to [`MAX_DEVICE_STRING`] characters, each of
/// them printable ASCII, the space, or U+FFFD.
pub open spec fn sanitized(s: Seq<char>) -> Seq<char> {
    let n = if s.len() < MAX_DEVICE_STRING {
        s.len()
    } else {
        MAX_DEVICE_STRING as nat
    };
    s.take(n as int).map_values(|c: char| plain_or_replaced(c))
}

/// Whether a string can be shown on a terminal as it is: short enough, and nothing in it but
/// printable ASCII, the space and U+FFFD.
pub open spec fn is_safe(s: Seq<char>) -> bool {
    s.len() <= MAX_DEVICE_STRING && forall|i: int|
        0 <= i < s.len() ==> is_plain(#[trigger] s[i]) || s[i] == '\u{fffd}'
}

/// The character that stands in for `c`.
fn plain_char(c: char) -> (r: char)
    ensures
        r == plain_or_replaced(c),
{
    let code: u32 = c as u32;
    if 32 <= code && code <= 126 {
        c
    } else {
        '\u{fffd}'
    }
}

/// A device's `label` and `serial` come from USB string descriptors and are
/// fully attacker-controlled. **Any consumer that renders one to a terminal, or
/// keeps one, must pass it through here first.**
///
/// This is an **allowlist**: printable ASCII and the space survive, everything
/// else becomes U+FFFD. It then truncates to [`MAX_DEVICE_STRING`] characters.
#[must_use]
pub fn sanitize_device_string(s: &str) -> (r: String)
    ensures
        r@ == sanitized(s@),
{
    let chars = text::chars_of(s);
    let n: usize = if chars.len() < MAX_DEVICE_STRING {
        chars.len()
    } else {
        MAX_DEVICE_STRING
    };
    let mut r = String::new();
    let mut i: usize = 0;
    while i < n
        invariant
            i <= n <= chars@.len(),
            r@.len() == i,
            forall|k: int| 0 <= k < i ==> #[trigger] r@[k] == plain_or_replaced(chars@[k]),
        decreases n - i,
    {
        r.push(plain_char(chars[i]));
        i += 1;
    }
    assert(r@ == sanitized(s@));
    r
}

/// Whatever goes in, only printable ASCII, the space and U+FFFD come out, and at
/// most [`MAX_DEVICE_STRING`] of them.
pub proof fn sanitized_is_plain(s: Seq<char>)
    ensures
        is_safe(sanitized(s)),
{
}

/// Sanitizing twice is sanitizing once.
pub proof fn sanitized_is_idempotent(s: Seq<char>)
    ensures
        sanitized(sanitized(s)) == sanitized(s),
{
    assert(sanitized(sanitized(s)) =~= sanitized(s));
}

/// A plain string within the limit passes unchanged.
pub proof fn plain_text_survives(s: Seq<char>)
    requires
        s.len() <= MAX_DEVICE_STRING,
        forall|i: int| 0 <= i < s.len() ==> is_plain(#[trigger] s[i]),
    ensures
        sanitized(s) == s,
{
    assert(sanitized(s) =~= s);
}

/// Snapshot of daemon state, returned by `GetStatus`.
#[derive(Debug, Clone, PartialEq, Eq)]
pub struct StatusPayload {
    pub armed: bool,
    pub dry_run: bool,
    pub power_action: PowerAction,
    /// Number of entries in the active whitelist.
    pub whitelist_len: usize,
    /// Number of currently-connected devices the daemon is tracking.
    pub device_count: usize,
    /// Set when the loaded config failed validation: the daemon is refusing to
    /// arm until it is fixed. Rendered as the full report.
    pub config_error: Option<String>,
    /// `false` if the USB sensor thread has stopped: the daemon can no longer
    /// see device changes and refuses to arm.
    pub sensor_ok: bool,
    /// `true` once the sensor has reported a gap: some device add/remove events
    /// were missed. Sticky until the daemon restarts; the daemon refuses to
    /// (re)arm while it holds.
    pub events_lost: bool,
    /// `true` if a `reload` or whitelist change was rejected and the running
    /// config now differs from what is on disk.
    pub config_stale: bool,
}

/// What a [`StatusPayload`] holds.
pub struct StatusView {
    pub armed: bool,
    pub dry_run: bool,
    pub power_action: PowerAction,
    pub whitelist_len: usize,
    pub device_count: usize,
    pub config_error: Option<Seq<char>>,
    pub sensor_ok: bool,
    pub events_lost: bool,
    pub config_stale: bool,
}

impl View for StatusPayload {
    type V = StatusView;

    open spec fn view(&self) -> StatusView {
        StatusView {
            armed: self.armed,
            dry_run: self.dry_run,
            power_action: self.power_action,
            whitelist_len: self.whitelist_len,
            device_count: self.device_count,
            config_error: text::opt_view(self.config_error),
            sensor_ok: self.sensor_ok,
            events_lost: self.events_lost,
            config_stale: self.config_stale,
        }
    }
}

/// What to do if a sensor reports lost events. Mirrors `response.on_sensor_gap`
/// in config.
#[derive(Debug, Clone, Copy, PartialEq, Eq, Structural)]
pub enum OnSensorGap {
    /// Surface `events_lost` in `status`, log loudly, keep running.
    Warn,
    /// Treat the gap as an unauthorized change: fire a kill.
    Kill,
}

impl Default for OnSensorGap {
    fn default() -> (r: Self)
        ensures
            r == OnSensorGap::Warn,
    {
        OnSensorGap::Warn
    }
}

impl OnSensorGap {
    /// The word that config and messages use.
    pub open spec fn word(self) -> Seq<char> {
        match self {
            OnSensorGap::Warn => "warn"@,
            OnSensorGap::Kill => "kill"@,
        }
    }

    /// The word that config and messages use.
    pub fn as_str(&self) -> (r: &'static str)
        ensures
            r@ == self.word(),
    {
        match self {
            OnSensorGap::Warn => "warn",
            OnSensorGap::Kill => "kill",
        }
    }
}

/// The LUKS-header-destruction slice of [`ConfigPayload`].
///
/// `acknowledged` is always `true` when this is present in a `ConfigPayload`:
/// a target that is configured but not acknowledged fails validation. The field
/// is kept explicit so a client never has to know that rule.
#[derive(Debug, Clone, PartialEq, Eq)]
pub struct LuksDestroyInfo {
    pub acknowledged: bool,
    /// The target block device path, e.g. `/dev/nvme0n1p3`.
    pub target_header: String,
    /// The separate runtime toggle set by [`Command::SetLuksDestroyEngaged`].
    /// Never persisted; every daemon start begins with this `false`.
    pub engaged: bool,
}

/// What a [`LuksDestroyInfo`] holds.
pub struct LuksDestroyInfoView {
    pub acknowledged: bool,
    pub target_header: Seq<char>,
    pub engaged: bool,
}

impl View for LuksDestroyInfo {
    type V = LuksDestroyInfoView;

    open spec fn view(&self) -> LuksDestroyInfoView {
        LuksDestroyInfoView {
            acknowledged: self.acknowledged,
            target_header: self.target_header@,
            engaged: self.engaged,
        }
    }
}

/// A read-only snapshot of the daemon's configuration, answering
/// [`Command::GetConfig`]. Reflects the currently **running** (validated)
/// config, not the raw file.
#[derive(Debug, Clone, PartialEq, Eq)]
pub struct ConfigPayload {
    pub armed_at_boot: bool,
    /// The configured sensor names, as config writes them.
    pub sensors: Vec<String>,
    pub dry_run: bool,
    pub power_action: PowerAction,
    pub on_sensor_gap: OnSensorGap,
    /// `None` if `[response.luks_destroy]` is absent from the running config.
    pub luks_destroy: Option<LuksDestroyInfo>,
    /// `Some` if the config **on disk** currently fails validation: the fields
    /// above are the last-good running config.
    pub validation_error: Option<String>,
}

/// What a [`ConfigPayload`] holds.
pub struct ConfigPayloadView {
    pub armed_at_boot: bool,
    pub sensors: Seq<Seq<char>>,
    pub dry_run: bool,
    pub power_action: PowerAction,
    pub on_sensor_gap: OnSensorGap,
    pub luks_destroy: Option<LuksDestroyInfoView>,
    pub validation_error: Option<Seq<char>>,
}

impl View for ConfigPayload {
    type V = ConfigPayloadView;

    open spec fn view(&self) -> ConfigPayloadView {
        ConfigPayloadView {
            armed_at_boot: self.armed_at_boot,
            sensors: text::views(self.sensors@),
            dry_run: self.dry_run,
            power_action: self.power_action,
            on_sensor_gap: self.on_sensor_gap,
            luks_destroy: text::opt_view(self.luks_destroy),
            validation_error: text::opt_view(self.validation_error),
        }
    }
}

/// One field of the running config, as [`Command::ConfigSet`] changes it. The
/// daemon applies this to a copy of its in-memory raw config, re-runs
/// validation on the whole thing, and only on success persists and swaps.
#[derive(Debug, PartialEq, Eq)]
pub enum ConfigChange {
    DryRun(bool),
    PowerAction(PowerAction),
    ArmedAtBoot(bool),
    Sensors(Vec<String>),
    OnSensorGap(OnSensorGap),
}

/// What a [`ConfigChange`] holds.
pub enum ConfigChangeView {
    DryRun(bool),
    PowerAction(PowerAction),
    ArmedAtBoot(bool),
    Sensors(Seq<Seq<char>>),
    OnSensorGap(OnSensorGap),
}

impl Clone for ConfigChange {
    fn clone(&self) -> (r: Self)
        ensures
            r@ == self@,
    {
        match self {
            ConfigChange::DryRun(b) => ConfigChange::DryRun(*b),
            ConfigChange::PowerAction(p) => ConfigChange::PowerAction(*p),
            ConfigChange::ArmedAtBoot(b) => ConfigChange::ArmedAtBoot(*b),
            ConfigChange::Sensors(v) => ConfigChange::Sensors(text::copy_all(v)),
            ConfigChange::OnSensorGap(g) => ConfigChange::OnSensorGap(*g),
        }
    }
}

impl View for ConfigChange {
    type V = ConfigChangeView;

    open spec fn view(&self) -> ConfigChangeView {
        match self {
            ConfigChange::DryRun(b) => ConfigChangeView::DryRun(*b),
            ConfigChange::PowerAction(p) => ConfigChangeView::PowerAction(*p),
            ConfigChange::ArmedAtBoot(b) => ConfigChangeView::ArmedAtBoot(*b),
            ConfigChange::Sensors(v) => ConfigChangeView::Sensors(text::views(v@)),
            ConfigChange::OnSensorGap(g) => ConfigChangeView::OnSensorGap(*g),
        }
    }
}

/// One [`Event`], stamped with when the daemon broadcast it. This is the
/// subscribe stream's wire envelope: both the backlog replay and every live
/// push after it carry this.
#[derive(Debug, PartialEq, Eq)]
pub struct StreamEvent {
    /// RFC 3339, UTC, second precision (e.g. `"2024-01-02T03:04:05Z"`).
    pub at: String,
    pub event: Event,
}

/// What a [`StreamEvent`] holds.
pub struct StreamEventView {
    pub at: Seq<char>,
    pub event: EventView,
}

impl Clone for StreamEvent {
    fn clone(&self) -> (r: Self)
        ensures
            r == *self,
    {
        StreamEvent { at: self.at.clone(), event: self.event.clone() }
    }
}

impl View for StreamEvent {
    type V = StreamEventView;

    open spec fn view(&self) -> StreamEventView {
        StreamEventView { at: self.at@, event: self.event@ }
    }
}

/// A request from a client.
#[derive(Debug, PartialEq, Eq)]
pub enum Command {
    /// Return a [`StatusPayload`].
    GetStatus,
    /// Return the list of currently-connected devices.
    ListDevices,
    /// Arm protection. Refused if the config is invalid.
    Arm,
    /// Disarm protection. The only way to disarm.
    Disarm,
    /// Add an entry to the whitelist; the daemon validates and persists it.
    /// Upsert by id: adding an id already present replaces its entry.
    WhitelistAdd(WhitelistEntry),
    /// Remove the whitelist entry with this id.
    WhitelistRemove(UsbId),
    /// Return the active whitelist as [`Reply::Whitelist`].
    WhitelistList,
    /// Run the policy engine over the current device set without acting.
    /// Answers with [`Reply::DryRun`] and also broadcasts an
    /// [`Event::WouldKill`] per hit to subscribers.
    RunDryRun,
    /// Re-read and re-validate the config file. Refused if the new file is
    /// invalid; prior state is kept.
    ReloadConfig,
    /// Return a [`Reply::Config`] snapshot of the running configuration.
    GetConfig,
    /// Change one field of the running config.
    ConfigSet(ConfigChange),
    /// Engage (`true`) or disengage (`false`) LUKS header destruction on a
    /// future kill. Refused, either way, unless the running config has an
    /// acknowledged `[response.luks_destroy]`.
    SetLuksDestroyEngaged(bool),
    /// Ask the daemon to stream [`Event`]s on this connection until it closes,
    /// after the current backlog, oldest first.
    Subscribe,
}

/// What a [`Command`] holds.
pub enum CommandView {
    GetStatus,
    ListDevices,
    Arm,
    Disarm,
    WhitelistAdd(WhitelistEntryView),
    WhitelistRemove(UsbId),
    WhitelistList,
    RunDryRun,
    ReloadConfig,
    GetConfig,
    ConfigSet(ConfigChangeView),
    SetLuksDestroyEngaged(bool),
    Subscribe,
}

impl Clone for Command {
    fn clone(&self) -> (r: Self)
        ensures
            r@ == self@,
    {
        match self {
            Command::GetStatus => Command::GetStatus,
            Command::ListDevices => Command::ListDevices,
            Command::Arm => Command::Arm,
            Command::Disarm => Command::Disarm,
            Command::WhitelistAdd(e) => Command::WhitelistAdd(e.clone()),
            Command::WhitelistRemove(id) => Command::WhitelistRemove(*id),
            Command::WhitelistList => Command::WhitelistList,
            Command::RunDryRun => Command::RunDryRun,
            Command::ReloadConfig => Command::ReloadConfig,
            Command::GetConfig => Command::GetConfig,
            Command::ConfigSet(c) => Command::ConfigSet(c.clone()),
            Command::SetLuksDestroyEngaged(b) => Command::SetLuksDestroyEngaged(*b),
            Command::Subscribe => Command::Subscribe,
        }
    }
}

impl View for Command {
    type V = CommandView;

    open spec fn view(&self) -> CommandView {
        match self {
            Command::GetStatus => CommandView::GetStatus,
            Command::ListDevices => CommandView::ListDevices,
            Command::Arm => CommandView::Arm,
            Command::Disarm => CommandView::Disarm,
            Command::WhitelistAdd(e) => CommandView::WhitelistAdd(e@),
            Command::WhitelistRemove(id) => CommandView::WhitelistRemove(*id),
            Command::WhitelistList => CommandView::WhitelistList,
            Command::RunDryRun => CommandView::RunDryRun,
            Command::ReloadConfig => CommandView::ReloadConfig,
            Command::GetConfig => CommandView::GetConfig,
            Command::ConfigSet(c) => CommandView::ConfigSet(c@),
            Command::SetLuksDestroyEngaged(b) => CommandView::SetLuksDestroyEngaged(*b),
            Command::Subscribe => CommandView::Subscribe,
        }
    }
}

impl CommandView {
    /// The commands that anyone who reaches the socket may send: the read-only
    /// snapshots. Everything else is privileged.
    pub open spec fn read_only(self) -> bool {
        self is GetStatus || self is ListDevices || self is WhitelistList
    }
}

impl Command {
    /// Whether this command changes state or exposes more than a public status
    /// snapshot, and so requires an authenticated (uid 0) caller. The read-only
    /// queries are listed explicitly; everything else is privileged.
    #[must_use]
    pub fn requires_root(&self) -> (r: bool)
        ensures
            r == !self@.read_only(),
    {
        match self {
            Command::GetStatus | Command::ListDevices | Command::WhitelistList => false,
            _ => true,
        }
    }
}

/// The daemon's answer to one [`Command`].
#[derive(Debug, Clone, PartialEq, Eq)]
pub enum Reply {
    /// Command succeeded, no payload.
    Done,
    Status(StatusPayload),
    Devices(Vec<DeviceInfo>),
    /// The active whitelist, answering [`Command::WhitelistList`].
    Whitelist(Vec<WhitelistEntry>),
    /// The kill reasons a dry run produced, answering [`Command::RunDryRun`].
    /// Empty means nothing connected would trigger a kill.
    DryRun(Vec<KillReason>),
    /// Answers [`Command::GetConfig`].
    Config(ConfigPayload),
    /// Command failed; the string is a human-readable reason.
    Error(String),
}

/// What a [`Reply`] holds.
pub enum ReplyView {
    Done,
    Status(StatusView),
    Devices(Seq<DeviceInfoView>),
    Whitelist(Seq<WhitelistEntryView>),
    DryRun(Seq<KillReason>),
    Config(ConfigPayloadView),
    Error(Seq<char>),
}

impl View for Reply {
    type V = ReplyView;

    open spec fn view(&self) -> ReplyView {
        match self {
            Reply::Done => ReplyView::Done,
            Reply::Status(s) => ReplyView::Status(s@),
            Reply::Devices(v) => ReplyView::Devices(text::views(v@)),
            Reply::Whitelist(v) => ReplyView::Whitelist(text::views(v@)),
            Reply::DryRun(v) => ReplyView::DryRun(v@),
            Reply::Config(c) => ReplyView::Config(c@),
            Reply::Error(m) => ReplyView::Error(m@),
        }
    }
}

/// An unsolicited message the daemon pushes to subscribed clients.
#[derive(Debug, PartialEq, Eq)]
pub enum Event {
    DeviceAdded(DeviceInfo),
    DeviceRemoved(DeviceInfo),
    Armed,
    Disarmed,
    /// Emitted during a dry run in place of dispatching responders.
    WouldKill(KillReason),
    /// The USB sensor thread has stopped: the daemon is no longer seeing device
    /// changes.
    SensorStopped,
    /// The daemon missed some device add/remove events and its device set can no
    /// longer be fully accounted for.
    EventsLost,
    /// The whitelist changed (`WhitelistAdd`/`WhitelistRemove` succeeded).
    WhitelistChanged,
    /// The running config changed for a reason other than the whitelist
    /// (`ConfigSet` or a successful `ReloadConfig`).
    ConfigChanged,
    /// A [`Command::ReloadConfig`] was rejected. The running config and armed
    /// state are unchanged; the string is the reason the caller got back.
    ReloadFailed(String),
}

/// What an [`Event`] holds.
pub enum EventView {
    DeviceAdded(DeviceInfoView),
    DeviceRemoved(DeviceInfoView),
    Armed,
    Disarmed,
    WouldKill(KillReason),
    SensorStopped,
    EventsLost,
    WhitelistChanged,
    ConfigChanged,
    ReloadFailed(Seq<char>),
}

impl Clone for Event {
    fn clone(&self) -> (r: Self)
        ensures
            r == *self,
    {
        match self {
            Event::DeviceAdded(d) => Event::DeviceAdded(d.clone()),
            Event::DeviceRemoved(d) => Event::DeviceRemoved(d.clone()),
            Event::Armed => Event::Armed,
            Event::Disarmed => Event::Disarmed,
            Event::WouldKill(k) => Event::WouldKill(*k),
            Event::SensorStopped => Event::SensorStopped,
            Event::EventsLost => Event::EventsLost,
            Event::WhitelistChanged => Event::WhitelistChanged,
            Event::ConfigChanged => Event::ConfigChanged,
            Event::ReloadFailed(m) => Event::ReloadFailed(m.clone()),
        }
    }
}

impl View for Event {
    type V = EventView;

    open spec fn view(&self) -> EventView {
        match self {
            Event::DeviceAdded(d) => EventView::DeviceAdded(d@),
            Event::DeviceRemoved(d) => EventView::DeviceRemoved(d@),
            Event::Armed => EventView::Armed,
            Event::Disarmed => EventView::Disarmed,
            Event::WouldKill(r) => EventView::WouldKill(*r),
            Event::SensorStopped => EventView::SensorStopped,
            Event::EventsLost => EventView::EventsLost,
            Event::WhitelistChanged => EventView::WhitelistChanged,
            Event::ConfigChanged => EventView::ConfigChanged,
            Event::ReloadFailed(m) => EventView::ReloadFailed(m@),
        }
    }
}

/// The maximum size of a whole control-socket frame, header **and** body, in
/// bytes: 64 KiB. This is exactly the read buffer every reader on the wire
/// allocates, so a frame this size or smaller always fits in one `read`.
pub const MAX_CONTROL_FRAME: usize = 65536;

/// Length-prefix header size, in bytes.
pub const HEADER_LEN: usize = 4;

/// The largest body [`encode`] will accept: [`MAX_CONTROL_FRAME`] minus the
/// length prefix, so the frame it produces fits a reader's buffer exactly.
pub const MAX_BODY_LEN: usize = MAX_CONTROL_FRAME - HEADER_LEN;

/// A framing or serialization failure.
#[derive(Debug, PartialEq, Eq)]
pub enum ProtocolError {
    FrameTooLarge { len: usize },
    Truncated { expected: usize, actual: usize },
    ShortHeader(usize),
    /// The body is not the JSON of the expected message.
    Json(String),
}

impl ProtocolError {
    /// The message for a person.
    pub fn to_text(&self) -> (r: String)
        ensures
            r@ == match *self {
                ProtocolError::FrameTooLarge { len } => "frame body is "@ + text::decimal(
                    len as nat,
                ) + " bytes, over the "@ + text::decimal(MAX_BODY_LEN as nat) + " byte limit"@,
                ProtocolError::Truncated { expected, actual } => {
                    "frame is truncated: header declares "@ + text::decimal(expected as nat)
                        + " body bytes, "@ + text::decimal(actual as nat) + " present"@
                },
                ProtocolError::ShortHeader(len) => {
                    "frame header is incomplete: need 4 bytes, got "@ + text::decimal(len as nat)
                },
                ProtocolError::Json(m) => "JSON: "@ + m@,
            },
    {
        match self {
            ProtocolError::FrameTooLarge { len } => "frame body is ".to_owned().concat(
                text::decimal_text(*len as u64).as_str(),
            ).concat(" bytes, over the ").concat(text::decimal_text(MAX_BODY_LEN as u64).as_str()).concat(
                " byte limit",
            ),
            ProtocolError::Truncated { expected, actual } => {
                "frame is truncated: header declares ".to_owned().concat(
                    text::decimal_text(*expected as u64).as_str(),
                ).concat(" body bytes, ").concat(text::decimal_text(*actual as u64).as_str()).concat(
                    " present",
                )
            },
            ProtocolError::ShortHeader(len) => {
                "frame header is incomplete: need 4 bytes, got ".to_owned().concat(
                    text::decimal_text(*len as u64).as_str(),
                )
            },
            ProtocolError::Json(m) => "JSON: ".to_owned().concat(m.as_str()),
        }
    }
}

/// `n` in four bytes, most significant first.
pub open spec fn be32(n: nat) -> Seq<u8> {
    seq![
        (n / 16777216 % 256) as u8,
        (n / 65536 % 256) as u8,
        (n / 256 % 256) as u8,
        (n % 256) as u8,
    ]
}

/// The number that the first four bytes write, most significant first.
pub open spec fn be32_value(b: Seq<u8>) -> nat {
    (b[0] * 16777216 + b[1] * 65536 + b[2] * 256 + b[3]) as nat
}

/// The frame that carries `body`.
pub open spec fn frame_of(body: Seq<u8>) -> Seq<u8> {
    be32(body.len()) + body
}

/// What the front of a buffer holds.
pub enum FrameView {
    /// Fewer bytes than a header.
    Short,
    /// The header declares a body over the limit.
    TooLarge(nat),
    /// The body is not all there yet.
    Partial(nat),
    /// A whole frame, with this body.
    Whole(Seq<u8>),
}

/// The frame at the front of `bytes`.
pub open spec fn front_frame(bytes: Seq<u8>) -> FrameView {
    if bytes.len() < HEADER_LEN {
        FrameView::Short
    } else {
        let len = be32_value(bytes);
        if len > MAX_BODY_LEN {
            FrameView::TooLarge(len)
        } else if bytes.len() < HEADER_LEN + len {
            FrameView::Partial(len)
        } else {
            FrameView::Whole(bytes.subrange(HEADER_LEN as int, HEADER_LEN + len))
        }
    }
}

/// Puts `body` into a length-prefixed frame.
pub fn encode(body: &[u8]) -> (r: Result<Vec<u8>, ProtocolError>)
    ensures
        match r {
            Ok(frame) => body@.len() <= MAX_BODY_LEN && frame@ == frame_of(body@),
            Err(e) => body@.len() > MAX_BODY_LEN && e == (ProtocolError::FrameTooLarge {
                len: body@.len() as usize,
            }),
        },
{
    let len: usize = body.len();
    if len > MAX_BODY_LEN {
        return Err(ProtocolError::FrameTooLarge { len });
    }
    let mut frame: Vec<u8> = Vec::with_capacity(HEADER_LEN + len);
    frame.push((len / 16777216 % 256) as u8);
    frame.push((len / 65536 % 256) as u8);
    frame.push((len / 256 % 256) as u8);
    frame.push((len % 256) as u8);
    frame.extend_from_slice(body);
    assert(frame@ == frame_of(body@));
    Ok(frame)
}

/// Reads one length-prefixed frame from the front of `bytes`.
///
/// Returns the body and the total number of bytes the frame occupied, so a
/// caller reading from a stream buffer knows how much to consume. Trailing bytes
/// after the frame are ignored.
pub fn decode(bytes: &[u8]) -> (r: Result<(&[u8], usize), ProtocolError>)
    ensures
        match front_frame(bytes@) {
            FrameView::Short => r == Err::<(&[u8], usize), ProtocolError>(
                ProtocolError::ShortHeader(bytes@.len() as usize),
            ),
            FrameView::TooLarge(len) => r matches Err(
                ProtocolError::FrameTooLarge { len: l },
            ) && l == len,
            FrameView::Partial(len) => r matches Err(
                ProtocolError::Truncated { expected, actual },
            ) && expected == len && actual == bytes@.len() - HEADER_LEN,
            FrameView::Whole(body) => r matches Ok((b, n)) && b@ == body && n == HEADER_LEN
                + body.len(),
        },
{
    if bytes.len() < HEADER_LEN {
        return Err(ProtocolError::ShortHeader(bytes.len()));
    }
    let value: u32 = bytes[0] as u32 * 16777216 + bytes[1] as u32 * 65536 + bytes[2] as u32 * 256
        + bytes[3] as u32;
    let len: usize = value as usize;
    if len > MAX_BODY_LEN {
        return Err(ProtocolError::FrameTooLarge { len });
    }
    let end: usize = HEADER_LEN + len;
    if bytes.len() < end {
        return Err(ProtocolError::Truncated { expected: len, actual: bytes.len() - HEADER_LEN });
    }
    Ok((vstd::slice::slice_subrange(bytes, HEADER_LEN, end), end))
}

proof fn be32_round_trip(n: nat)
    requires
        n < 0x1_0000_0000,
    ensures
        be32_value(be32(n)) == n,
{
    let a = n / 16777216;
    let b = n / 65536;
    let c = n / 256;
    assert(c == n / 256 && b == c / 256 && a == b / 256);
    assert(a < 256);
}

/// What is written is read back: the frame of a body within the limit, whatever
/// follows it in the buffer, reads as that body, and its length is consumed.
pub proof fn frame_round_trip(body: Seq<u8>, rest: Seq<u8>)
    requires
        body.len() <= MAX_BODY_LEN,
    ensures
        front_frame(frame_of(body) + rest) == FrameView::Whole(body),
{
    be32_round_trip(body.len());
    let bytes = frame_of(body) + rest;
    assert(be32_value(bytes) == be32_value(be32(body.len())));
    assert(bytes.subrange(HEADER_LEN as int, HEADER_LEN + body.len()) =~= body);
}

/// Every frame that can be sent fits the buffer of every reader.
pub proof fn frames_fit_a_reader(body: Seq<u8>)
    requires
        body.len() <= MAX_BODY_LEN,
    ensures
        frame_of(body).len() <= MAX_CONTROL_FRAME,
{
}

/// A frame cut short is never read as a message.
pub proof fn a_cut_frame_is_not_read(body: Seq<u8>, n: int)
    requires
        body.len() <= MAX_BODY_LEN,
        0 <= n < frame_of(body).len(),
    ensures
        !(front_frame(frame_of(body).take(n)) is Whole),
{
    be32_round_trip(body.len());
    let cut = frame_of(body).take(n);
    if n >= HEADER_LEN {
        assert(be32_value(cut) == be32_value(be32(body.len())));
    }
}

/// A device string is made safe character by character: the first 256 stay in their places, a
/// printable one as it is and any other as U+FFFD.
pub proof fn sanitizing_goes_character_by_character(s: Seq<char>, i: int)
    ensures
        sanitized(s).len() == (if s.len() <= 256 {
            s.len()
        } else {
            256
        }),
        0 <= i < sanitized(s).len() ==> sanitized(s)[i] == (if ' ' <= s[i] && s[i] <= '~' {
            s[i]
        } else {
            '\u{fffd}'
        }),
{
}

/// A frame is the length of its body in four bytes, the most significant first, and then the body;
/// no frame is longer than sixty-four kibibytes.
pub proof fn a_frame_starts_with_its_length(body: Seq<u8>)
    requires
        body.len() <= MAX_BODY_LEN,
    ensures
        ({
            let f = frame_of(body);
            &&& f.len() == 4 + body.len() <= 65536
            &&& f[0] * 16777216 + f[1] * 65536 + f[2] * 256 + f[3] == body.len()
            &&& f.skip(4) == body
        }),
{
    be32_round_trip(body.len());
    assert(frame_of(body).skip(4) =~= body);
}

/// Anyone who reaches the socket may ask for the status, the devices and the whitelist; everything
/// else is for root.
pub proof fn only_three_queries_are_open(cmd: &Command)
    ensures
        cmd@.read_only() <==> cmd is GetStatus || cmd is ListDevices || cmd is WhitelistList,
{
}

/// What is said of a command, a reply and an event is said of what they are: none is taken for
/// another, and what they carry is what is meant.
pub proof fn messages_are_taken_for_what_they_are(cmd: &Command, reply: &Reply, event: &Event)
    ensures
        cmd is GetStatus <==> cmd@ is GetStatus,
        cmd is ListDevices <==> cmd@ is ListDevices,
        cmd is Arm <==> cmd@ is Arm,
        cmd is Disarm <==> cmd@ is Disarm,
        cmd is WhitelistList <==> cmd@ is WhitelistList,
        cmd is RunDryRun <==> cmd@ is RunDryRun,
        cmd is ReloadConfig <==> cmd@ is ReloadConfig,
        cmd is GetConfig <==> cmd@ is GetConfig,
        cmd is Subscribe <==> cmd@ is Subscribe,
        cmd matches Command::WhitelistAdd(e) ==> (cmd@ matches CommandView::WhitelistAdd(v) && v.id
            == e.id && v.max_count == e.max_count && v.label == text::opt_view(e.label)),
        cmd matches Command::WhitelistRemove(id) ==> cmd@ == CommandView::WhitelistRemove(*id),
        cmd matches Command::SetLuksDestroyEngaged(b) ==> cmd@
            == CommandView::SetLuksDestroyEngaged(*b),
        cmd matches Command::ConfigSet(c) ==> (cmd@ matches CommandView::ConfigSet(v) && {
            &&& c matches ConfigChange::DryRun(b) ==> v == ConfigChangeView::DryRun(*b)
            &&& c matches ConfigChange::ArmedAtBoot(b) ==> v == ConfigChangeView::ArmedAtBoot(*b)
            &&& c matches ConfigChange::PowerAction(p) ==> v == ConfigChangeView::PowerAction(*p)
            &&& c matches ConfigChange::OnSensorGap(g) ==> v == ConfigChangeView::OnSensorGap(*g)
            &&& c matches ConfigChange::Sensors(n) ==> v == ConfigChangeView::Sensors(
                text::views(n@),
            )
        }),
        reply is Done <==> reply@ is Done,
        reply matches Reply::Error(e) ==> reply@ == ReplyView::Error(e@),
        reply matches Reply::Status(s) ==> (reply@ matches ReplyView::Status(v) && v.armed
            == s.armed && v.dry_run == s.dry_run && v.power_action == s.power_action
            && v.whitelist_len == s.whitelist_len && v.device_count == s.device_count
            && v.sensor_ok == s.sensor_ok && v.events_lost == s.events_lost && v.config_stale
            == s.config_stale && v.config_error == text::opt_view(s.config_error)),
        reply matches Reply::DryRun(r) ==> reply@ == ReplyView::DryRun(r@),
        reply matches Reply::Devices(d) ==> reply@ == ReplyView::Devices(text::views(d@)),
        reply matches Reply::Whitelist(w) ==> reply@ == ReplyView::Whitelist(text::views(w@)),
        reply matches Reply::Config(c) ==> (reply@ matches ReplyView::Config(v) && v.armed_at_boot
            == c.armed_at_boot && v.dry_run == c.dry_run && v.power_action == c.power_action
            && v.on_sensor_gap == c.on_sensor_gap && v.sensors == text::views(c.sensors@)
            && v.validation_error == text::opt_view(c.validation_error) && (c.luks_destroy matches
            Some(l) ==> (v.luks_destroy matches Some(w) && w.engaged == l.engaged && w.acknowledged
            == l.acknowledged && w.target_header == l.target_header@)) && (c.luks_destroy is None
            ==> v.luks_destroy is None)),
        event is Armed <==> event@ is Armed,
        event is Disarmed <==> event@ is Disarmed,
        event is SensorStopped <==> event@ is SensorStopped,
        event is EventsLost <==> event@ is EventsLost,
        event is WhitelistChanged <==> event@ is WhitelistChanged,
        event is ConfigChanged <==> event@ is ConfigChanged,
        event matches Event::DeviceAdded(d) ==> event@ == EventView::DeviceAdded(d@),
        event matches Event::DeviceRemoved(d) ==> event@ == EventView::DeviceRemoved(d@),
        event matches Event::WouldKill(r) ==> event@ == EventView::WouldKill(*r),
        event matches Event::ReloadFailed(m) ==> event@ == EventView::ReloadFailed(m@),
{
}

/// What is said of a device is said of what was read of it.
pub proof fn a_device_is_taken_for_what_it_is(d: &DeviceInfo)
    ensures
        d@.id == d.id,
        d@.whitelisted == d.whitelisted,
        d@.serial == text::opt_view(d.serial),
        d@.label == text::opt_view(d.label),
{
}

} // verus!
