//! What the core knows, what reaches it, and what it wants done.

use crate::killbilld::config;
use crate::killbilld::config::{Config, ConfigView, RawConfig, RawConfigView};
use crate::killbilld::control::PeerCred;
use crate::killbilld::daemon::tracker::{DeviceTracker, TrackerView};
use crate::killbilld::responder::{LogLine, LogLineView};
use crate::proto::action::Action;
use crate::proto::protocol::{
    Command, CommandView, Event, EventView, Reply, ReplyView, StreamEvent, StreamEventView,
};
use crate::proto::sensor_event::{SensorEvent, SensorEventView};
use crate::text;
use vstd::prelude::*;

verus! {

/// Where the daemon reads and writes config and binds its control socket.
#[derive(Debug, Clone, PartialEq, Eq)]
pub struct RunOptions {
    pub config_path: String,
    pub socket_path: String,
}

/// Most event subscribers at once.
pub const MAX_SUBSCRIBERS: usize = 16;

/// A subscriber is dropped after this many events in a row could not be delivered.
pub const MAX_MISSES: u32 = 64;

/// How many past events a new subscriber is sent.
pub const BACKLOG_LIMIT: usize = 200;

/// A subscribed control connection, and how many events in a row it has missed.
#[derive(Debug, Clone, Copy, PartialEq, Eq, Structural)]
pub struct Subscriber {
    pub token: u64,
    pub consecutive_misses: u32,
}

/// A config change that a client asked for.
#[derive(Debug, Clone, Copy, PartialEq, Eq, Structural)]
pub enum Change {
    WhitelistAdd,
    WhitelistRemove,
    ConfigSet,
}

impl Change {
    /// What messages call the change.
    pub open spec fn label(self) -> Seq<char> {
        match self {
            Change::WhitelistAdd => "whitelist add"@,
            Change::WhitelistRemove => "whitelist remove"@,
            Change::ConfigSet => "config set"@,
        }
    }

    /// The event that tells clients of the change.
    pub open spec fn event(self) -> EventView {
        match self {
            Change::ConfigSet => EventView::ConfigChanged,
            _ => EventView::WhitelistChanged,
        }
    }

    /// What messages call the change.
    pub fn as_str(&self) -> (r: &'static str)
        ensures
            r@ == self.label(),
    {
        match self {
            Change::WhitelistAdd => "whitelist add",
            Change::WhitelistRemove => "whitelist remove",
            Change::ConfigSet => "config set",
        }
    }

    /// The event that tells clients of the change.
    pub fn to_event(&self) -> (r: Event)
        ensures
            r@ == self.event(),
    {
        match self {
            Change::ConfigSet => Event::ConfigChanged,
            _ => Event::WhitelistChanged,
        }
    }
}

/// A config read or write that the writer thread has not finished. There is at most
/// one.
#[derive(Debug)]
pub enum Pending {
    /// A validated config is being written for the request `to`.
    Write { raw: RawConfig, config: Config, change: Change, to: u64 },
    /// The file is being read again for the request `to`.
    Reload { to: u64 },
}

/// What a [`Pending`] holds.
pub enum PendingView {
    Write { raw: RawConfigView, change: Change, to: u64 },
    Reload { to: u64 },
}

impl View for Pending {
    type V = PendingView;

    open spec fn view(&self) -> PendingView {
        match self {
            Pending::Write { raw, config, change, to } => PendingView::Write {
                raw: raw@,
                change: *change,
                to: *to,
            },
            Pending::Reload { to } => PendingView::Reload { to: *to },
        }
    }
}

/// All the daemon's mutable state. Touched only by the core loop.
#[derive(Debug)]
pub struct Core {
    pub config_path: String,
    pub raw: RawConfig,
    pub config: Config,
    /// `Some` when the config at startup is invalid: the daemon refuses to arm and
    /// refuses to write the file.
    pub config_error: Option<String>,
    pub armed: bool,
    pub devices: DeviceTracker,
    pub subscribers: Vec<Subscriber>,
    pub sensor_ok: bool,
    pub events_lost: bool,
    /// A sensor-gap kill has been dispatched. Cleared on any config swap.
    pub gap_kill_dispatched: bool,
    /// The running config differs from what is on disk because a reload was
    /// rejected.
    pub config_stale: bool,
    /// What is wrong with the config on disk, if a reload found it unreadable or
    /// invalid.
    pub disk_error: Option<String>,
    /// `armed_at_boot` is set but arming has not yet succeeded: retried when the
    /// sensor next starts.
    pub boot_arm_pending: bool,
    /// The config read or write that is under way.
    pub pending: Option<Pending>,
    /// The runtime opt-in to header destruction. Never persisted.
    pub luks_destroy_engaged: bool,
    /// The last events broadcast, oldest first.
    pub backlog: Vec<StreamEvent>,
}

/// What a [`Core`] holds.
pub struct CoreView {
    pub config_path: Seq<char>,
    pub raw: RawConfigView,
    pub config: ConfigView,
    pub config_error: Option<Seq<char>>,
    pub armed: bool,
    pub devices: TrackerView,
    pub subscribers: Seq<Subscriber>,
    pub sensor_ok: bool,
    pub events_lost: bool,
    pub gap_kill_dispatched: bool,
    pub config_stale: bool,
    pub disk_error: Option<Seq<char>>,
    pub boot_arm_pending: bool,
    pub pending: Option<PendingView>,
    pub engaged: bool,
    pub backlog: Seq<StreamEventView>,
}

impl View for Core {
    type V = CoreView;

    open spec fn view(&self) -> CoreView {
        CoreView {
            config_path: self.config_path@,
            raw: self.raw@,
            config: self.config@,
            config_error: text::opt_view(self.config_error),
            armed: self.armed,
            devices: self.devices@,
            subscribers: self.subscribers@,
            sensor_ok: self.sensor_ok,
            events_lost: self.events_lost,
            gap_kill_dispatched: self.gap_kill_dispatched,
            config_stale: self.config_stale,
            disk_error: text::opt_view(self.disk_error),
            boot_arm_pending: self.boot_arm_pending,
            pending: text::opt_view(self.pending),
            engaged: self.luks_destroy_engaged,
            backlog: text::views(self.backlog@),
        }
    }
}

impl CoreView {
    /// What holds of the core at all times: the running config is what a valid raw config
    /// resolves to, a config being written is valid, destruction is engaged only with an
    /// acknowledged target, and the lists stay within their limits.
    pub open spec fn wf(self) -> bool {
        &&& config::config_errors(self.raw).len() == 0
        &&& self.config == config::resolved(self.raw)
        &&& match self.pending {
            Some(PendingView::Write { raw, .. }) => config::config_errors(raw).len() == 0,
            _ => true,
        }
        &&& self.engaged ==> self.config.luks_destroy is Some
        &&& self.backlog.len() <= BACKLOG_LIMIT
        &&& self.subscribers.len() <= MAX_SUBSCRIBERS
        &&& forall|i: int|
            0 <= i < self.subscribers.len() ==> (
            #[trigger] self.subscribers[i]).consecutive_misses < MAX_MISSES
    }
}

impl Core {
    /// [`CoreView::wf`], and the config kept beside a pending write is the one it resolves to.
    pub open spec fn wf(&self) -> bool {
        &&& self@.wf()
        &&& match self.pending {
            Some(Pending::Write { raw, config, .. }) => config@ == config::resolved(raw@),
            _ => true,
        }
    }
}

/// One message on the core thread's single inbox.
#[derive(Debug)]
pub enum Msg {
    /// The sensor opened its socket and is now watching (sent on every start).
    SensorStarted,
    /// A normalized device add/remove.
    Sensor(SensorEvent),
    /// The sensor lost events (buffer overflow or an unparseable datagram).
    SensorLost,
    /// The sensor thread exited unexpectedly and the supervisor is respawning it.
    SensorRestarting,
    /// The sensor could not be kept running. The daemon exits for a restart.
    SensorEnded,
    /// A command from `peer`; the answer goes to `to`.
    Command { cmd: Command, peer: PeerCred, to: u64 },
    /// An event subscription from `peer` for `subscriber`; the answer goes to `to`.
    Subscribe { peer: PeerCred, subscriber: u64, to: u64 },
    /// The config writer finished persisting a change.
    ConfigWritten(Result<(), String>),
    /// The config writer finished re-reading the file for a reload.
    ConfigReloaded(Result<RawConfig, String>),
    /// The config writer is gone.
    WriterGone,
    /// A termination signal was received.
    Shutdown,
}

/// What a [`Msg`] holds.
pub enum MsgView {
    SensorStarted,
    Sensor(SensorEventView),
    SensorLost,
    SensorRestarting,
    SensorEnded,
    Command { cmd: CommandView, peer: PeerCred, to: u64 },
    Subscribe { peer: PeerCred, subscriber: u64, to: u64 },
    ConfigWritten(Result<(), Seq<char>>),
    ConfigReloaded(Result<RawConfigView, Seq<char>>),
    WriterGone,
    Shutdown,
}

impl View for Msg {
    type V = MsgView;

    open spec fn view(&self) -> MsgView {
        match self {
            Msg::SensorStarted => MsgView::SensorStarted,
            Msg::Sensor(e) => MsgView::Sensor(e@),
            Msg::SensorLost => MsgView::SensorLost,
            Msg::SensorRestarting => MsgView::SensorRestarting,
            Msg::SensorEnded => MsgView::SensorEnded,
            Msg::Command { cmd, peer, to } => MsgView::Command { cmd: cmd@, peer: *peer, to: *to },
            Msg::Subscribe { peer, subscriber, to } => MsgView::Subscribe {
                peer: *peer,
                subscriber: *subscriber,
                to: *to,
            },
            Msg::ConfigWritten(Ok(_)) => MsgView::ConfigWritten(Ok(())),
            Msg::ConfigWritten(Err(e)) => MsgView::ConfigWritten(Err(e@)),
            Msg::ConfigReloaded(Ok(raw)) => MsgView::ConfigReloaded(Ok(raw@)),
            Msg::ConfigReloaded(Err(e)) => MsgView::ConfigReloaded(Err(e@)),
            Msg::WriterGone => MsgView::WriterGone,
            Msg::Shutdown => MsgView::Shutdown,
        }
    }
}

/// Something the core wants done, in order.
#[derive(Debug)]
pub enum Effect {
    /// Hand this to every responder, now.
    Dispatch(Action),
    /// Send this to every subscriber, lossily.
    Publish(StreamEvent),
    /// Send this to the request `to`.
    Answer { to: u64, reply: Reply },
    /// Send these past events to a new subscriber, before any live one.
    Replay { subscriber: u64, events: Vec<StreamEvent> },
    /// Write this config to disk, and report back.
    Persist(RawConfig),
    /// Read the config file again, and report back.
    Reload,
    /// Write this to the log.
    Log(LogLine),
}

/// What an [`Effect`] holds.
pub enum EffectView {
    Dispatch(Action),
    Publish(StreamEventView),
    Answer { to: u64, reply: ReplyView },
    Replay { subscriber: u64, events: Seq<StreamEventView> },
    Persist(RawConfigView),
    Reload,
    Log(LogLineView),
}

impl View for Effect {
    type V = EffectView;

    open spec fn view(&self) -> EffectView {
        match self {
            Effect::Dispatch(a) => EffectView::Dispatch(*a),
            Effect::Publish(e) => EffectView::Publish(e@),
            Effect::Answer { to, reply } => EffectView::Answer { to: *to, reply: reply@ },
            Effect::Replay { subscriber, events } => EffectView::Replay {
                subscriber: *subscriber,
                events: text::views(events@),
            },
            Effect::Persist(raw) => EffectView::Persist(raw@),
            Effect::Reload => EffectView::Reload,
            Effect::Log(line) => EffectView::Log(line@),
        }
    }
}

/// How one delivery to a subscriber went.
#[derive(Debug, Clone, Copy, PartialEq, Eq, Structural)]
pub enum Delivery {
    /// The subscriber's queue took the event.
    Sent,
    /// The queue is full: the event is skipped.
    Full,
    /// The subscriber is gone.
    Disconnected,
}

/// Whether the core loop goes on.
#[derive(Debug, Clone, PartialEq, Eq)]
pub enum Flow {
    Continue,
    /// A termination signal: stop cleanly, exit zero.
    Shutdown,
    /// An unrecoverable condition: exit non-zero for a supervisor restart.
    Failed(String),
}

/// What a [`Flow`] holds.
pub enum FlowView {
    Continue,
    Shutdown,
    Failed(Seq<char>),
}

impl View for Flow {
    type V = FlowView;

    open spec fn view(&self) -> FlowView {
        match self {
            Flow::Continue => FlowView::Continue,
            Flow::Shutdown => FlowView::Shutdown,
            Flow::Failed(reason) => FlowView::Failed(reason@),
        }
    }
}

/// What is said of the core is said of its fields.
pub proof fn the_core_is_taken_for_what_it_is(c: &Core)
    ensures
        c@.armed == c.armed,
        c@.sensor_ok == c.sensor_ok,
        c@.events_lost == c.events_lost,
        c@.gap_kill_dispatched == c.gap_kill_dispatched,
        c@.config_stale == c.config_stale,
        c@.boot_arm_pending == c.boot_arm_pending,
        c@.engaged == c.luks_destroy_engaged,
        c@.subscribers == c.subscribers@,
        c@.config == c.config@,
        c@.raw == c.raw@,
        c@.devices.table == c.devices.table@,
        c@.devices.connected == text::views(c.devices.connected@),
        c@.backlog == text::views(c.backlog@),
        c@.config_path == c.config_path@,
        c@.config_error == text::opt_view(c.config_error),
        c@.disk_error == text::opt_view(c.disk_error),
        c@.pending is None <==> c.pending is None,
        c.pending matches Some(Pending::Write { raw, change, to, .. }) ==> c@.pending == Some(
            PendingView::Write { raw: raw@, change, to },
        ),
        c.pending matches Some(Pending::Reload { to }) ==> c@.pending == Some(
            PendingView::Reload { to },
        ),
{
}

/// What is said of a message and of an effect is said of what they are.
pub proof fn messages_and_effects_are_taken_for_what_they_are(m: &Msg, e: &Effect)
    ensures
        m is SensorStarted <==> m@ is SensorStarted,
        m is SensorLost <==> m@ is SensorLost,
        m is SensorRestarting <==> m@ is SensorRestarting,
        m is SensorEnded <==> m@ is SensorEnded,
        m is Shutdown <==> m@ is Shutdown,
        m is WriterGone <==> m@ is WriterGone,
        m matches Msg::Sensor(event) ==> m@ == MsgView::Sensor(event@),
        m matches Msg::Command { cmd, peer, to } ==> m@ == (MsgView::Command {
            cmd: cmd@,
            peer: *peer,
            to: *to,
        }),
        m matches Msg::Subscribe { peer, subscriber, to } ==> m@ == (MsgView::Subscribe {
            peer: *peer,
            subscriber: *subscriber,
            to: *to,
        }),
        m matches Msg::ConfigWritten(r) ==> (m@ matches MsgView::ConfigWritten(v) && (r is Ok
            <==> v is Ok)),
        m matches Msg::ConfigReloaded(r) ==> (m@ matches MsgView::ConfigReloaded(v) && (r is Ok
            <==> v is Ok)),
        e matches Effect::Dispatch(a) ==> e@ == EffectView::Dispatch(*a),
        e matches Effect::Publish(x) ==> (e@ matches EffectView::Publish(v) && v.at == x.at@
            && v.event == x.event@),
        e matches Effect::Answer { to, reply } ==> e@ == (EffectView::Answer {
            to: *to,
            reply: reply@,
        }),
        e matches Effect::Replay { subscriber, events } ==> e@ == (EffectView::Replay {
            subscriber: *subscriber,
            events: text::views(events@),
        }),
        e matches Effect::Persist(raw) ==> e@ == EffectView::Persist(raw@),
        e is Reload <==> e@ is Reload,
        e matches Effect::Log(line) ==> (e@ matches EffectView::Log(v) && v.level == line.level
            && v.message == line.message@ && v.fields == text::views(line.fields@)),
{
}

} // verus!
