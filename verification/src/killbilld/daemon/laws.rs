//! What the core promises, whatever reaches it.

use crate::killbilld::config;
use crate::killbilld::config::{
    ConfigView, RawConfigView, RawWhitelistEntryView, SensorGapAction,
};
use crate::killbilld::control;
use crate::killbilld::control::PeerCred;
use crate::killbilld::daemon::journal;
use crate::killbilld::daemon::state::{
    Change, CoreView, Delivery, EffectView, MsgView, PendingView, Subscriber,
    MAX_MISSES,
};
use crate::killbilld::daemon::step;
use crate::killbilld::daemon::step::Step;
use crate::killbilld::policy::Decision;
use crate::killbilld::responder;
use crate::killbilld::responder::{HostProbeView, LogFieldView, LogLineView, ResponderView};
use crate::proto::action::{Action, KillReason};
use crate::proto::protocol::{
    CommandView, ConfigChangeView, EventView, OnSensorGap, ReplyView, StreamEventView,
    WhitelistEntryView,
};
use crate::proto::sensor_event;
use crate::proto::sensor_event::{EventKind, SensorEventView, UsbId};
use crate::text;
use vstd::prelude::*;

verus! {

/// What publishing does to everything but the backlog: nothing.
proof fn publish_keeps(s: Step, at: Seq<char>, event: EventView)
    ensures
        ({
            let t = s.publish(at, event);
            &&& t.core == (CoreView { backlog: t.core.backlog, ..s.core })
            &&& t.fx == s.fx.push(EffectView::Publish(StreamEventView { at, event }))
        }),
{
    reveal(Step::publish);
}

/// Whether `t` goes on from `s` with effects none of which is a kill.
pub open spec fn kills_nothing(s: Step, t: Step) -> bool {
    &&& s.fx.len() <= t.fx.len()
    &&& forall|i: int| 0 <= i < s.fx.len() ==> #[trigger] t.fx[i] == s.fx[i]
    &&& forall|i: int| s.fx.len() <= i < t.fx.len() ==> !((#[trigger] t.fx[i]) is Dispatch)
}

/// Whether `t` goes on from `s` with this kill, if there is one, before anything else, and with
/// no other.
pub open spec fn kills_first(s: Step, kill: Option<Action>, t: Step) -> bool {
    match kill {
        Some(action) => kills_nothing(s.with(EffectView::Dispatch(action)), t),
        None => kills_nothing(s, t),
    }
}

/// Publishing what would be a kill changes the list of past events, and dispatches nothing.
pub proof fn publishing_reasons_changes_little(s: Step, reasons: Seq<KillReason>, at: Seq<char>)
    ensures
        ({
            let t = step::publish_reasons(s, reasons, at);
            &&& t.core == (CoreView { backlog: t.core.backlog, ..s.core })
            &&& kills_nothing(s, t)
        }),
{
    publish_reasons_keeps(s, reasons, at);
}

proof fn publish_reasons_keeps(s: Step, reasons: Seq<KillReason>, at: Seq<char>)
    ensures
        ({
            let t = step::publish_reasons(s, reasons, at);
            &&& t.core == (CoreView { backlog: t.core.backlog, ..s.core })
            &&& kills_nothing(s, t)
        }),
    decreases reasons.len(),
{
    if reasons.len() > 0 {
        publish_reasons_keeps(s, reasons.drop_last(), at);
        publish_keeps(
            step::publish_reasons(s, reasons.drop_last(), at),
            at,
            EventView::WouldKill(reasons.last()),
        );
    }
}

/// What everything but a config swap, a gap, an arm and a disarm leaves alone, and that it kills
/// nothing.
spec fn calm(s: Step, t: Step) -> bool {
    &&& t.core.armed == s.core.armed
    &&& t.core.events_lost == s.core.events_lost
    &&& t.core.gap_kill_dispatched == s.core.gap_kill_dispatched
    &&& t.core.config == s.core.config
    &&& kills_nothing(s, t)
}

/// What a command comes to: an answer, as the last thing that is done about it, or a job for the
/// writer.
pub open spec fn answered_or_under_way(s: Step, t: Step, to: u64) -> bool {
    ends_in_answer(t, to) && waits(t.core) == waits(s.core) || waits(s.core) is None && waits(
        t.core,
    ) == Some(to) && t.fx.len() > 0 && (t.fx.last() is Persist || t.fx.last() is Reload)
}

proof fn arm_keeps(s: Step, peer: PeerCred, host: HostProbeView, at: Seq<char>)
    ensures
        ({
            let t = step::arm(s, peer, host, at);
            &&& t.core == (CoreView {
                armed: s.core.armed || step::arm_refusal(s.core, host) is None,
                backlog: t.core.backlog,
                ..s.core
            })
            &&& kills_nothing(s, t)
        }),
{
    publish_keeps(
        Step { core: CoreView { armed: true, ..s.core }, ..s }.log(
            journal::armed(peer, s.core.config),
        ),
        at,
        EventView::Armed,
    );
}

proof fn disarm_keeps(s: Step, peer: PeerCred, at: Seq<char>)
    ensures
        ({
            let t = step::disarm(s, peer, at);
            &&& t.core == (CoreView { armed: false, backlog: t.core.backlog, ..s.core })
            &&& kills_nothing(s, t)
        }),
{
    publish_keeps(
        Step { core: CoreView { armed: false, ..s.core }, ..s }.log(journal::disarmed(peer)),
        at,
        EventView::Disarmed,
    );
}

proof fn change_keeps(s: Step, raw: RawConfigView, change: Change, to: u64, host: HostProbeView)
    ensures
        calm(s, step::begin_apply(s, raw, change, to, host)),
        s.core.pending is None ==> answered_or_under_way(
            s,
            step::begin_apply(s, raw, change, to, host),
            to,
        ),
        calm(s, step::change_config(s, raw, change, to, host)),
        answered_or_under_way(s, step::change_config(s, raw, change, to, host), to),
{
}

proof fn removal_keeps(s: Step, id: UsbId, to: u64, host: HostProbeView)
    ensures
        calm(s, step::whitelist_remove(s, id, to, host)),
        answered_or_under_way(s, step::whitelist_remove(s, id, to, host), to),
{
    change_keeps(s, step::without_entry(s.core.raw, id), Change::WhitelistRemove, to, host);
}

proof fn dry_run_keeps(s: Step, to: u64, at: Seq<char>)
    ensures
        calm(s, step::dry_run(s, to, at)),
        answered_or_under_way(s, step::dry_run(s, to, at), to),
{
    let devices = s.core.devices.connected;
    publish_reasons_keeps(s, step::dry_run_reasons(devices, s.core.config, devices.len()), at);
}

proof fn answer_keeps(s: Step, t: Step, to: u64, reply: ReplyView)
    requires
        calm(s, t),
        waits(t.core) == waits(s.core),
    ensures
        calm(s, t.answer(to, reply)),
        answered_or_under_way(s, t.answer(to, reply), to),
{
}

proof fn toggle_keeps(s: Step, engaged: bool, to: u64)
    ensures
        calm(s, step::set_engaged(s, engaged, to)),
        answered_or_under_way(s, step::set_engaged(s, engaged, to), to),
{
}

proof fn reload_keeps(s: Step, to: u64)
    ensures
        calm(s, step::reload(s, to)),
        answered_or_under_way(s, step::reload(s, to), to),
{
}

/// A command keeps the core armed unless it is a disarm, never arms it past a gap, never
/// clears the gap, and never kills.
#[verifier::rlimit(40)]
proof fn command_keeps(
    s: Step,
    cmd: CommandView,
    peer: PeerCred,
    to: u64,
    host: HostProbeView,
    at: Seq<char>,
)
    ensures
        ({
            let t = step::command(s, cmd, peer, to, host, at);
            &&& s.core.armed && !(cmd is Disarm && peer.uid == 0) ==> t.core.armed
            &&& t.core.events_lost == s.core.events_lost
            &&& s.core.events_lost && !s.core.armed ==> !t.core.armed
            &&& t.core.gap_kill_dispatched == s.core.gap_kill_dispatched
            &&& t.core.config == s.core.config
            &&& kills_nothing(s, t)
            &&& answered_or_under_way(s, t, to)
        }),
{
    reveal(step::command);
    if !control::is_authorized(cmd, peer) {
        assert(calm(s, s.log(journal::denied(peer, step::command_name(cmd)))));
    }
    match cmd {
        CommandView::Arm => arm_keeps(s, peer, host, at),
        CommandView::Disarm => disarm_keeps(s, peer, at),
        CommandView::RunDryRun => dry_run_keeps(s, to, at),
        CommandView::WhitelistAdd(entry) => change_keeps(
            s,
            step::with_entry(s.core.raw, entry),
            Change::WhitelistAdd,
            to,
            host,
        ),
        CommandView::WhitelistRemove(id) => removal_keeps(s, id, to, host),
        CommandView::ConfigSet(change) => change_keeps(
            s,
            step::with_change(s.core.raw, change),
            Change::ConfigSet,
            to,
            host,
        ),
        CommandView::SetLuksDestroyEngaged(engaged) => toggle_keeps(s, engaged, to),
        CommandView::ReloadConfig => reload_keeps(s, to),
        CommandView::GetStatus => answer_keeps(s, s, to, ReplyView::Status(step::status(s.core))),
        CommandView::ListDevices => answer_keeps(
            s,
            s,
            to,
            ReplyView::Devices(step::device_list(s.core)),
        ),
        CommandView::WhitelistList => answer_keeps(
            s,
            s,
            to,
            ReplyView::Whitelist(step::whitelist_entries(s.core.config)),
        ),
        CommandView::GetConfig => answer_keeps(
            s,
            s,
            to,
            ReplyView::Config(step::config_payload(s.core)),
        ),
        CommandView::Subscribe => {},
    }
}

/// Only a disarm command from root disarms: no sensor message, signal, reload, failed write
/// or other command ever does.
pub proof fn only_disarm_disarms(s: Step, msg: MsgView, host: HostProbeView, at: Seq<char>)
    requires
        s.core.armed,
        !(msg matches MsgView::Command { cmd, peer, .. } && cmd is Disarm && peer.uid == 0),
    ensures
        step::handled(s, msg, host, at).core.armed,
{
    keeps(s, msg, host, at);
}

/// Nothing fires while disarmed: no message handled by a disarmed core dispatches a kill.
pub proof fn a_disarmed_core_never_kills(s: Step, msg: MsgView, host: HostProbeView, at: Seq<char>)
    requires
        !s.core.armed,
    ensures
        kills_nothing(s, step::handled(s, msg, host, at)),
{
    keeps(s, msg, host, at);
}

/// A gap does not heal: once events were lost, no message clears the flag, and none arms the
/// core.
pub proof fn a_gap_is_sticky(s: Step, msg: MsgView, host: HostProbeView, at: Seq<char>)
    requires
        s.core.events_lost,
    ensures
        step::handled(s, msg, host, at).core.events_lost,
        !s.core.armed ==> !step::handled(s, msg, host, at).core.armed,
{
    keeps(s, msg, host, at);
}

/// The kill comes first: whatever the message, the kill that it calls for is the first thing
/// done about it, and nothing else that is done is a kill. Where it calls for none, none is
/// dispatched. The same holds of a message that was still queued when the daemon began to stop.
pub proof fn the_kill_comes_first(s: Step, msg: MsgView, host: HostProbeView, at: Seq<char>)
    ensures
        kills_first(s, step::kill_of(s.core, msg), step::handled(s, msg, host, at)),
        kills_first(s, step::kill_of(s.core, msg), step::drained_one(s, msg, at)),
{
    keeps(s, msg, host, at);
}

/// What a gap does, of whatever kind (lost events, a sensor restart, the end of the sensor): the
/// power action is dispatched, before anything else, exactly where config says that a gap kills,
/// the core is armed, and no gap has killed since the last config swap. An earlier gap never
/// swallows the kill: the sticky flag plays no part in it. Destruction is never asked for. Then
/// the next gap of any kind dispatches nothing, and the armed state stays.
pub proof fn a_gap_kills_where_it_should(
    s: Step,
    gap: MsgView,
    next: MsgView,
    host: HostProbeView,
    at: Seq<char>,
)
    requires
        gap is SensorLost || gap is SensorRestarting || gap is SensorEnded,
        next is SensorLost || next is SensorRestarting || next is SensorEnded,
    ensures
        ({
            let t = step::handled(s, gap, host, at);
            let due = s.core.config.on_sensor_gap == SensorGapAction::Kill && s.core.armed
                && !s.core.gap_kill_dispatched;
            &&& kills_first(
                s,
                if due {
                    Some(
                        Action {
                            reason: KillReason::SensorGap,
                            power: s.core.config.power_action,
                            luks_destroy: false,
                            dry_run: s.core.config.dry_run,
                        },
                    )
                } else {
                    None
                },
                t,
            )
            &&& t.core.gap_kill_dispatched == (s.core.gap_kill_dispatched || due)
            &&& t.core.events_lost
            &&& t.core.armed == s.core.armed
            &&& t.core.config == s.core.config
            &&& kills_nothing(t, step::handled(t, next, host, at))
        }),
{
    keeps(s, gap, host, at);
    keeps(step::handled(s, gap, host, at), next, host, at);
}

/// What one gap comes to, whatever else there is: the power action for the gap, exactly where
/// config says that a gap kills, the core is armed and no gap kill is spent; whether events were
/// lost before plays no part. The gap kill is then spent, nothing else changes, and another gap
/// right after does nothing.
pub proof fn a_gap_kill_is_spent_once(s: Step)
    ensures
        ({
            let due = !s.core.gap_kill_dispatched && s.core.config.on_sensor_gap
                == SensorGapAction::Kill && s.core.armed;
            let t = step::gap_kill(s);
            &&& kills_first(
                s,
                if due {
                    Some(
                        Action {
                            reason: KillReason::SensorGap,
                            power: s.core.config.power_action,
                            luks_destroy: false,
                            dry_run: s.core.config.dry_run,
                        },
                    )
                } else {
                    None
                },
                t,
            )
            &&& t.core == (CoreView {
                gap_kill_dispatched: s.core.gap_kill_dispatched || due,
                ..s.core
            })
            &&& step::gap_kill(t) == t
        }),
{
}

/// The gap kill stays spent until the config is swapped: no other message enables it again, and
/// a swap does.
pub proof fn a_gap_kills_once_per_config(
    s: Step,
    msg: MsgView,
    host: HostProbeView,
    at: Seq<char>,
    raw: RawConfigView,
    label: Seq<char>,
)
    ensures
        s.core.gap_kill_dispatched && !(msg is ConfigWritten || msg is ConfigReloaded)
            ==> step::handled(s, msg, host, at).core.gap_kill_dispatched,
        s.core.armed && config::resolved(raw).on_sensor_gap == SensorGapAction::Kill
            ==> step::gap_kills(step::swap(s, raw, label).core),
{
    keeps(s, msg, host, at);
}

/// A message, with what the host could do and the time when it was handled.
pub struct Occasion {
    pub msg: MsgView,
    pub host: HostProbeView,
    pub at: Seq<char>,
}

/// What a run of messages does, one after the other.
pub open spec fn run(s: Step, occasions: Seq<Occasion>) -> Step
    decreases occasions.len(),
{
    if occasions.len() == 0 {
        s
    } else {
        let o = occasions.last();
        step::handled(run(s, occasions.drop_last()), o.msg, o.host, o.at)
    }
}

/// How many gap kills there are among some effects.
pub open spec fn gap_kills_in(fx: Seq<EffectView>) -> nat
    decreases fx.len(),
{
    if fx.len() == 0 {
        0
    } else {
        gap_kills_in(fx.drop_last()) + (match fx.last() {
            EffectView::Dispatch(action) => if action.reason == KillReason::SensorGap {
                1nat
            } else {
                0nat
            },
            _ => 0nat,
        })
    }
}

/// Effects that are no kills add no gap kill.
proof fn quiet_effects_add_none(fx: Seq<EffectView>, longer: Seq<EffectView>)
    requires
        fx.len() <= longer.len(),
        forall|i: int| 0 <= i < fx.len() ==> #[trigger] longer[i] == fx[i],
        forall|i: int| fx.len() <= i < longer.len() ==> !((#[trigger] longer[i]) is Dispatch),
    ensures
        gap_kills_in(longer) == gap_kills_in(fx),
    decreases longer.len(),
{
    if longer.len() > fx.len() {
        assert(!(longer[longer.len() - 1] is Dispatch));
        quiet_effects_add_none(fx, longer.drop_last());
    } else {
        assert(longer =~= fx);
    }
}

/// Between two config swaps at most one gap kill is dispatched, however many gaps there are and
/// whatever else happens: in a run of messages without a word from the config writer, there is
/// one if the gap kill was left at the start and is spent at the end, and else none.
pub proof fn at_most_one_gap_kill_between_swaps(s: Step, occasions: Seq<Occasion>)
    requires
        forall|i: int|
            0 <= i < occasions.len() ==> !((#[trigger] occasions[i]).msg is ConfigWritten) && !(
            occasions[i].msg is ConfigReloaded),
    ensures
        ({
            let t = run(s, occasions);
            &&& s.core.gap_kill_dispatched ==> t.core.gap_kill_dispatched
            &&& gap_kills_in(t.fx) == gap_kills_in(s.fx) + (if t.core.gap_kill_dispatched
                && !s.core.gap_kill_dispatched {
                1nat
            } else {
                0nat
            })
        }),
    decreases occasions.len(),
{
    if occasions.len() > 0 {
        let o = occasions.last();
        let before = occasions.drop_last();
        assert forall|i: int| 0 <= i < before.len() implies !((#[trigger] before[i]).msg is
            ConfigWritten) && !(before[i].msg is ConfigReloaded) by {
            assert(before[i] == occasions[i]);
        }
        at_most_one_gap_kill_between_swaps(s, before);
        let m = run(s, before);
        let t = step::handled(m, o.msg, o.host, o.at);
        keeps(m, o.msg, o.host, o.at);
        match step::kill_of(m.core, o.msg) {
            Some(action) => {
                let killed = m.with(EffectView::Dispatch(action));
                quiet_effects_add_none(killed.fx, t.fx);
                assert(killed.fx.drop_last() =~= m.fx);
            },
            None => quiet_effects_add_none(m.fx, t.fx),
        }
    }
}

proof fn event_keeps(s: Step, event: SensorEventView, at: Seq<char>)
    ensures
        ({
            let t = step::sensor_event(s, event, at);
            &&& t.core == (CoreView {
                devices: t.core.devices,
                backlog: t.core.backlog,
                ..s.core
            })
            &&& kills_first(s, step::event_kill(s.core, event), t)
        }),
{
    reveal(step::sensor_event);
    reveal(Step::publish);
}

/// Every kind of gap leaves its mark, and leaves the armed state and the config as they are.
pub proof fn a_gap_leaves_its_mark(s: Step, gap: MsgView, at: Seq<char>)
    requires
        gap is SensorLost || gap is SensorRestarting || gap is SensorEnded,
    ensures
        step::drained_one(s, gap, at).core.events_lost,
        step::drained_one(s, gap, at).core.armed == s.core.armed,
        step::drained_one(s, gap, at).core.config == s.core.config,
{
    gap_keeps(s, gap, at);
}

proof fn gap_keeps(s: Step, gap: MsgView, at: Seq<char>)
    requires
        gap is SensorLost || gap is SensorRestarting || gap is SensorEnded,
    ensures
        ({
            let t = step::drained_one(s, gap, at);
            &&& t.core.armed == s.core.armed
            &&& t.core.events_lost
            &&& t.core.config == s.core.config
            &&& t.core.gap_kill_dispatched == (s.core.gap_kill_dispatched || step::gap_kills(
                s.core,
            ))
            &&& kills_first(s, step::kill_of(s.core, gap), t)
        }),
{
    reveal(Step::publish);
    match gap {
        MsgView::SensorLost => {
            reveal(step::sensor_lost);
        },
        MsgView::SensorRestarting => {
            reveal(step::sensor_restarting);
        },
        _ => {
            reveal(step::sensor_ended);
        },
    }
}

proof fn start_keeps(s: Step, host: HostProbeView, at: Seq<char>)
    ensures
        ({
            let t = step::sensor_started(s, host, at);
            &&& s.core.armed ==> t.core.armed
            &&& t.core.events_lost == s.core.events_lost
            &&& s.core.events_lost && !s.core.armed ==> !t.core.armed
            &&& t.core.gap_kill_dispatched == s.core.gap_kill_dispatched
            &&& kills_nothing(s, t)
        }),
{
    reveal(step::sensor_started);
    arm_keeps(
        Step { core: CoreView { sensor_ok: true, ..s.core }, ..s }.log(journal::watching()),
        step::the_system(),
        host,
        at,
    );
}

proof fn swap_keeps(s: Step, raw: RawConfigView, label: Seq<char>)
    ensures
        step::swap(s, raw, label).core == step::swapped(s.core, raw),
        kills_nothing(s, step::swap(s, raw, label)),
{
}

proof fn writer_keeps(
    s: Step,
    result: Result<(), Seq<char>>,
    loaded: Result<RawConfigView, Seq<char>>,
    host: HostProbeView,
    at: Seq<char>,
)
    ensures
        ({
            let t = step::config_written(s, result, at);
            &&& t.core.armed == s.core.armed
            &&& t.core.events_lost == s.core.events_lost
            &&& kills_nothing(s, t)
        }),
        ({
            let t = step::config_reloaded(s, loaded, host, at);
            &&& t.core.armed == s.core.armed
            &&& t.core.events_lost == s.core.events_lost
            &&& kills_nothing(s, t)
        }),
{
    reveal(step::config_written);
    reveal(step::config_reloaded);
    reveal(Step::publish);
    let free = Step { core: CoreView { pending: None, ..s.core }, ..s };
    match s.core.pending {
        Some(PendingView::Write { raw, change, .. }) => {
            swap_keeps(free, raw, change.label());
        },
        _ => {},
    }
    match loaded {
        Ok(raw) => {
            swap_keeps(free, raw, "reload"@);
        },
        _ => {},
    }
}

proof fn keeps(s: Step, msg: MsgView, host: HostProbeView, at: Seq<char>)
    ensures
        ({
            let t = step::handled(s, msg, host, at);
            &&& s.core.armed && !(msg matches MsgView::Command { cmd, peer, .. } && cmd is Disarm
                && peer.uid == 0) ==> t.core.armed
            &&& s.core.events_lost ==> t.core.events_lost
            &&& s.core.events_lost && !s.core.armed ==> !t.core.armed
            &&& !(msg is ConfigWritten || msg is ConfigReloaded) ==> t.core.gap_kill_dispatched == (
            s.core.gap_kill_dispatched || (step::kill_of(s.core, msg) matches Some(action)
                && action.reason == KillReason::SensorGap))
            &&& kills_first(s, step::kill_of(s.core, msg), t)
            &&& msg is SensorLost || msg is SensorRestarting || msg is SensorEnded ==> {
                &&& t.core.armed == s.core.armed
                &&& t.core.events_lost
                &&& t.core.config == s.core.config
                &&& t.core.gap_kill_dispatched == (s.core.gap_kill_dispatched || step::gap_kills(
                    s.core,
                ))
            }
        }),
{
    match msg {
        MsgView::Command { cmd, peer, to } => command_keeps(s, cmd, peer, to, host, at),
        MsgView::SensorStarted => start_keeps(s, host, at),
        MsgView::Sensor(event) => event_keeps(s, event, at),
        MsgView::SensorLost | MsgView::SensorRestarting | MsgView::SensorEnded => gap_keeps(
            s,
            msg,
            at,
        ),
        MsgView::Subscribe { .. } => {
            reveal(step::subscribe);
        },
        MsgView::ConfigWritten(result) => writer_keeps(s, result, Err(Seq::empty()), host, at),
        MsgView::ConfigReloaded(loaded) => writer_keeps(s, Ok(()), loaded, host, at),
        _ => {},
    }
}

/// A real change that policy acts on is answered by an armed core with that action, first of
/// all.
pub proof fn an_unauthorized_change_kills_first(s: Step, event: SensorEventView, at: Seq<char>)
    requires
        s.core.armed,
        !step::is_synthetic(event),
    ensures
        step::event_decision(s.core, event) matches Decision::Act(action) ==> kills_first(
            s,
            Some(action),
            step::sensor_event(s, event, at),
        ),
{
    event_keeps(s, event, at);
}

/// Unplugging any device from an armed core kills, synthesized by the kernel or not.
pub proof fn unplugging_while_armed_kills(s: Step, event: SensorEventView, at: Seq<char>)
    requires
        s.core.armed,
        event.kind == EventKind::Removed,
    ensures
        step::sensor_event(s, event, at).fx.len() > s.fx.len(),
        step::sensor_event(s, event, at).fx[s.fx.len() as int] is Dispatch,
{
    reveal(step::sensor_event);
    reveal(Step::publish);
}

/// A synthetic addition is recorded like any other, and never kills.
pub proof fn a_synthetic_addition_is_recorded_only(s: Step, event: SensorEventView, at: Seq<char>)
    requires
        step::is_synthetic(event),
    ensures
        step::sensor_event(s, event, at).core.devices == s.core.devices.added(event.identity),
        forall|i: int|
            s.fx.len() <= i < step::sensor_event(s, event, at).fx.len() ==> !((
            #[trigger] step::sensor_event(s, event, at).fx[i]) is Dispatch),
{
    reveal(step::sensor_event);
    reveal(Step::publish);
}

/// The core arms only on a valid config, a watching sensor without gaps, and responders that
/// can act.
pub proof fn arming_fails_closed(s: Step, peer: PeerCred, host: HostProbeView, at: Seq<char>)
    requires
        !s.core.armed,
    ensures
        step::arm(s, peer, host, at).core.armed ==> s.core.config_error is None && s.core.sensor_ok
            && !s.core.events_lost && step::preflight_failures(s.core.config, host).len() == 0,
        step::arm(s, peer, host, at).core.armed <==> step::arm_result(s.core, host) is None,
{
    arm_keeps(s, peer, host, at);
}

/// Arming and disarming are logged with the peer that asked: an arm, a refused arm, a disarm and
/// a disarm that changes nothing each leave one line that names the peer's uid and pid.
#[verifier::rlimit(40)]
pub proof fn arm_and_disarm_are_logged_with_the_peer(
    s: Step,
    peer: PeerCred,
    to: u64,
    host: HostProbeView,
    at: Seq<char>,
)
    requires
        peer.uid == 0,
    ensures
        !s.core.armed ==> step::command(s, CommandView::Arm, peer, to, host, at).fx[s.fx.len() as int]
            == EffectView::Log(
            match step::arm_refusal(s.core, host) {
                None => journal::armed(peer, s.core.config),
                Some(reason) => journal::arm_refused(peer, reason),
            },
        ),
        step::command(s, CommandView::Disarm, peer, to, host, at).fx[s.fx.len() as int]
            == EffectView::Log(
            if s.core.armed {
                journal::disarmed(peer)
            } else {
                journal::disarmed_already(peer)
            },
        ),
        names_peer(journal::armed(peer, s.core.config), peer),
        forall|reason: Seq<char>| names_peer(#[trigger] journal::arm_refused(peer, reason), peer),
        names_peer(journal::disarmed(peer), peer),
        names_peer(journal::disarmed_already(peer), peer),
{
    reveal(step::command);
    reveal(Step::publish);
    reveal(journal::armed);
    reveal(journal::arm_refused);
    reveal(journal::disarmed);
    reveal(journal::disarmed_already);
}

/// Whether a log line names the peer that asked.
pub open spec fn names_peer(line: LogLineView, peer: PeerCred) -> bool {
    &&& line.fields.len() >= 2
    &&& line.fields[0] == (LogFieldView { name: "peer_uid"@, value: text::decimal(peer.uid as nat) })
    &&& line.fields[1] == (LogFieldView { name: "peer_pid"@, value: text::signed(peer.pid as int) })
}

/// The decision is logged as carefully as the event: every device event ends in one line that
/// says what was decided, and a kill is logged as such, with its reason.
pub proof fn every_decision_is_logged(s: Step, event: SensorEventView, at: Seq<char>)
    ensures
        ({
            let t = step::sensor_event(s, event, at);
            &&& t.fx.len() > s.fx.len()
            &&& t.fx.last() == EffectView::Log(step::event_line(s.core, event))
        }),
        step::event_kill(s.core, event) matches Some(action) ==> step::event_line(s.core, event)
            == journal::dispatched(action, event.raw.dom().contains("SYNTH_UUID"@)),
{
    reveal(step::sensor_event);
    reveal(Step::publish);
}

/// A config change leaves a line, however it ends: one that is turned down says so before it is
/// answered, one that was written or could not be written says which, and so does a reload.
pub proof fn a_config_change_is_logged(
    s: Step,
    raw: RawConfigView,
    change: Change,
    to: u64,
    host: HostProbeView,
    result: Result<(), Seq<char>>,
    loaded: Result<RawConfigView, Seq<char>>,
    at: Seq<char>,
)
    ensures
        ({
            let t = step::begin_apply(s, raw, change, to, host);
            ends_in_answer(t, to) ==> t.fx[s.fx.len() as int] is Log
        }),
        s.core.pending matches Some(PendingView::Write { change: c, .. }) ==> step::config_written(
            s,
            result,
            at,
        ).fx[s.fx.len() as int] == EffectView::Log(
            match result {
                Ok(_) => journal::updated(c.label()),
                Err(e) => journal::not_persisted(c.label(), e),
            },
        ),
        s.core.pending matches Some(PendingView::Reload { .. }) ==> step::config_reloaded(
            s,
            loaded,
            host,
            at,
        ).fx[s.fx.len() as int] is Log,
{
    reveal(step::config_written);
    reveal(step::config_reloaded);
    reveal(Step::publish);
}

/// A denied command is logged with the peer that sent it and answered, and nothing else happens.
pub proof fn a_denied_command_changes_nothing(
    s: Step,
    cmd: CommandView,
    peer: PeerCred,
    to: u64,
    host: HostProbeView,
    at: Seq<char>,
)
    requires
        !control::is_authorized(cmd, peer),
    ensures
        ({
            let t = step::command(s, cmd, peer, to, host, at);
            &&& t.core == s.core
            &&& t.fx.len() == s.fx.len() + 2
            &&& t.fx[s.fx.len() as int] == EffectView::Log(
                journal::denied(peer, step::command_name(cmd)),
            )
            &&& names_peer(journal::denied(peer, step::command_name(cmd)), peer)
            &&& t.fx.last() matches EffectView::Answer { to: a, reply: ReplyView::Error(_) } && a
                == to
        }),
{
    reveal(step::command);
    reveal(journal::denied);
}

/// The read-only queries change nothing.
pub proof fn queries_change_nothing(
    s: Step,
    cmd: CommandView,
    peer: PeerCred,
    to: u64,
    host: HostProbeView,
    at: Seq<char>,
)
    requires
        cmd.read_only(),
    ensures
        step::command(s, cmd, peer, to, host, at).core == s.core,
{
    reveal(step::command);
}

/// Whether the last effect is an answer to `to`.
pub open spec fn ends_in_answer(s: Step, to: u64) -> bool {
    s.fx.len() > 0 && (s.fx.last() matches EffectView::Answer { to: a, .. } && a == to)
}

/// The request that the config read or write under way was asked for by.
pub open spec fn waits(c: CoreView) -> Option<u64> {
    match c.pending {
        Some(PendingView::Write { to, .. }) => Some(to),
        Some(PendingView::Reload { to }) => Some(to),
        None => None,
    }
}

/// No client waits for nothing: a command is answered at once, as the last thing that is done
/// about it, or it is the one request that the writer works on.
pub proof fn a_command_is_answered_or_under_way(
    s: Step,
    cmd: CommandView,
    peer: PeerCred,
    to: u64,
    host: HostProbeView,
    at: Seq<char>,
)
    ensures
        answered_or_under_way(s, step::command(s, cmd, peer, to, host, at), to),
{
    command_keeps(s, cmd, peer, to, host, at);
}

/// What the writer works on is answered when it reports back, or when it is gone, and the next
/// change can begin.
pub proof fn the_writer_answers_its_request(
    s: Step,
    result: Result<(), Seq<char>>,
    loaded: Result<RawConfigView, Seq<char>>,
    host: HostProbeView,
    at: Seq<char>,
    to: u64,
)
    requires
        waits(s.core) == Some(to),
    ensures
        s.core.pending->0 is Write ==> ends_in_answer(step::config_written(s, result, at), to)
            && step::config_written(s, result, at).core.pending is None,
        s.core.pending->0 is Reload ==> ends_in_answer(
            step::config_reloaded(s, loaded, host, at),
            to,
        ) && step::config_reloaded(s, loaded, host, at).core.pending is None,
        ends_in_answer(step::writer_gone(s), to) && step::writer_gone(s).core.pending is None,
{
    reveal(step::config_written);
    reveal(step::config_reloaded);
    reveal(Step::publish);
}

/// A change that would make the config invalid touches neither the file nor the running state:
/// it is answered with an error, and at most one line is logged.
pub proof fn an_invalid_change_touches_nothing(
    s: Step,
    raw: RawConfigView,
    change: Change,
    to: u64,
    host: HostProbeView,
)
    requires
        config::config_errors(raw).len() > 0,
    ensures
        ({
            let t = step::change_config(s, raw, change, to, host);
            &&& t.core == s.core
            &&& s.fx.len() < t.fx.len() <= s.fx.len() + 2
            &&& t.fx.len() == s.fx.len() + 2 ==> t.fx[s.fx.len() as int] is Log
            &&& t.fx.last() matches EffectView::Answer { to: a, reply: ReplyView::Error(_) } && a
                == to
        }),
{
}

/// A rejected reload keeps the running config and the armed state, marks the config stale,
/// logs that, and tells every client the reason that the caller is told.
pub proof fn a_rejected_reload_keeps_the_running_config(
    s: Step,
    loaded: Result<RawConfigView, Seq<char>>,
    host: HostProbeView,
    at: Seq<char>,
    to: u64,
)
    requires
        s.core.pending == Some(PendingView::Reload { to }),
        loaded matches Ok(raw) ==> config::config_errors(raw).len() > 0,
    ensures
        ({
            let t = step::config_reloaded(s, loaded, host, at);
            &&& t.core.raw == s.core.raw
            &&& t.core.config == s.core.config
            &&& t.core.armed == s.core.armed
            &&& t.core.config_error == s.core.config_error
            &&& t.core.config_stale
            &&& t.core.pending is None
            &&& t.fx.len() == s.fx.len() + 3
            &&& t.fx[s.fx.len() as int] is Log
            &&& match (t.fx[s.fx.len() as int + 1], t.fx[s.fx.len() as int + 2]) {
                (
                    EffectView::Publish(e),
                    EffectView::Answer { to: a, reply: ReplyView::Error(reason) },
                ) => e.event == EventView::ReloadFailed(reason) && a == to,
                _ => false,
            }
        }),
{
    reveal(step::config_reloaded);
    reveal(Step::publish);
}

/// A good reload clears the stale mark and takes effect.
pub proof fn a_good_reload_takes_effect(
    s: Step,
    raw: RawConfigView,
    host: HostProbeView,
    at: Seq<char>,
    to: u64,
)
    requires
        s.core.pending == Some(PendingView::Reload { to }),
        config::config_errors(raw).len() == 0,
        s.core.armed ==> step::preflight_failures(config::resolved(raw), host).len() == 0,
    ensures
        ({
            let t = step::config_reloaded(s, Ok(raw), host, at);
            &&& t.core.raw == raw
            &&& t.core.config == config::resolved(raw)
            &&& t.core.config_error is None
            &&& !t.core.config_stale
            &&& t.core.armed == s.core.armed
            &&& t.fx.last() == (EffectView::Answer { to, reply: ReplyView::Done })
        }),
{
    reveal(step::config_reloaded);
    reveal(Step::publish);
}

/// A signal skips no decision: a queued sensor message does the same while stopping as before.
pub proof fn a_signal_skips_no_decision(s: Step, msg: MsgView, host: HostProbeView, at: Seq<char>)
    requires
        msg is Sensor || msg is SensorLost || msg is SensorRestarting || msg is SensorEnded,
    ensures
        step::drained_one(s, msg, at) == step::handled(s, msg, host, at),
{
}

/// Destruction starts disengaged, and a config swap keeps it engaged only for the same target.
pub proof fn destruction_never_carries_over(
    c: CoreView,
    raw: RawConfigView,
    path: Seq<char>,
    file: Result<RawConfigView, Seq<char>>,
)
    ensures
        !step::loaded(path, file).engaged,
        !step::loaded(path, file).armed,
        step::swapped(c, raw).engaged ==> c.engaged && config::resolved(raw).luks_destroy
            == c.config.luks_destroy,
{
}

/// The destruction toggle takes an acknowledged target: without one it is refused, whichever way
/// it is turned, and nothing changes; with one it is set as asked. So it is never left engaged by
/// a refusal.
pub proof fn the_toggle_takes_an_acknowledged_target(s: Step, engaged: bool, to: u64)
    requires
        s.core.wf(),
    ensures
        ({
            let t = step::set_engaged(s, engaged, to);
            &&& t.fx.len() == s.fx.len() + 1
            &&& s.core.config.luks_destroy is None ==> t.core == s.core && !t.core.engaged && (
            t.fx.last() matches EffectView::Answer { to: a, reply: ReplyView::Error(_) } && a == to)
            &&& s.core.config.luks_destroy is Some ==> t.core == (CoreView { engaged, ..s.core })
                && t.fx.last() == (EffectView::Answer { to, reply: ReplyView::Done })
        }),
{
}

proof fn obstacles_ignore_the_sensor(
    responders: Seq<ResponderView>,
    host: HostProbeView,
    other: HostProbeView,
)
    requires
        other == (HostProbeView { sensor_error: other.sensor_error, ..host }),
    ensures
        responder::obstacles(responders, host) == responder::obstacles(responders, other),
    decreases responders.len(),
{
    if responders.len() > 0 {
        obstacles_ignore_the_sensor(responders.drop_last(), host, other);
    }
}

/// The host matters only where it is asked about: of any other message, what is done does not
/// depend on it, and whether the sensor opens matters to an arm alone.
#[verifier::rlimit(40)]
pub proof fn the_host_matters_only_when_asked(
    s: Step,
    msg: MsgView,
    host: HostProbeView,
    other: HostProbeView,
    at: Seq<char>,
)
    ensures
        !step::asks_host(s.core, msg) ==> step::handled(s, msg, host, at) == step::handled(
            s,
            msg,
            other,
            at,
        ),
        !step::asks_sensor(s.core, msg) && other == (HostProbeView {
            sensor_error: other.sensor_error,
            ..host
        }) ==> step::handled(s, msg, host, at) == step::handled(s, msg, other, at),
{
    reveal(step::command);
    reveal(step::sensor_started);
    reveal(step::config_reloaded);
    if other == (HostProbeView { sensor_error: other.sensor_error, ..host }) {
        assert forall|cfg: ConfigView| #[trigger] step::preflight_failures(cfg, host)
            == step::preflight_failures(cfg, other) by {
            obstacles_ignore_the_sensor(responder::responders_of(cfg), host, other);
        }
    }
}

/// A new subscriber's queue takes the whole backlog.
pub proof fn the_backlog_fits_a_queue(c: CoreView)
    requires
        c.wf(),
    ensures
        c.backlog.len() <= control::SUBSCRIBER_QUEUE,
{
}

/// A subscriber after its queue was full for `n` events in a row; `None` once it is dropped.
pub open spec fn after_misses(sub: Subscriber, n: nat) -> Option<Subscriber>
    decreases n,
{
    if n == 0 {
        Some(sub)
    } else {
        match after_misses(sub, (n - 1) as nat) {
            Some(s) => step::after_delivery(s, Delivery::Full),
            None => None,
        }
    }
}

/// A subscriber that takes an event is kept, its misses forgotten; one whose queue stays full
/// is kept for as long as it has missed fewer than [`MAX_MISSES`] events in a row, and dropped
/// with that one; one that is gone is dropped at once.
pub proof fn only_dead_subscribers_are_dropped(sub: Subscriber, n: nat)
    ensures
        step::after_delivery(sub, Delivery::Sent) == Some(
            Subscriber { consecutive_misses: 0, ..sub },
        ),
        sub.consecutive_misses == 0 ==> after_misses(sub, n) == (if n < MAX_MISSES {
            Some(Subscriber { consecutive_misses: n as u32, ..sub })
        } else {
            None
        }),
        step::after_delivery(sub, Delivery::Disconnected) is None,
    decreases n,
{
    if n > 0 {
        only_dead_subscribers_are_dropped(sub, (n - 1) as nat);
    }
}

/// Adding an id replaces its entry, however it was written before: to a valid config any entry
/// can be added whose count is not zero, and in the config that takes effect it is the only one
/// with its id, with its label and its count, or a count of one if it gave none.
#[verifier::rlimit(40)]
pub proof fn an_added_entry_is_listed(raw: RawConfigView, entry: WhitelistEntryView)
    requires
        config::config_errors(raw).len() == 0,
        entry.max_count != Some(0u32),
    ensures
        config::config_errors(step::with_entry(raw, entry)).len() == 0,
        ({
            let listed = step::whitelist_entries(config::resolved(step::with_entry(raw, entry)));
            &&& listed.len() > 0
            &&& listed.last() == (WhitelistEntryView {
                max_count: Some(
                    match entry.max_count {
                        Some(m) => m,
                        None => 1,
                    },
                ),
                ..entry
            })
            &&& forall|i: int|
                0 <= i < listed.len() - 1 ==> (#[trigger] listed[i]).id != entry.id
        }),
{
    reveal(config::config_errors);
    reveal(config::resolved);
    let keep = step::is_for_another(entry.id);
    let rest = raw.whitelist.filter(keep);
    let written = step::with_entry(raw, entry);
    sensor_event::usb_id_round_trip(entry.id);
    config::leaving_out_keeps_a_list_valid(raw.whitelist, keep);
    let rules = config::scanned(rest).rules;
    if config::has_rule(rules, entry.id) {
        config::a_rule_has_an_entry(rest, rest.len(), entry.id);
        let i = choose|i: int|
            0 <= i < rest.len() && sensor_event::usb_id_of((#[trigger] rest[i]).id) == Some(
                entry.id,
            );
        raw.whitelist.lemma_filter_pred(keep, i);
    }
    config::a_new_entry_keeps_a_list_valid(rest, written.whitelist.last());
    assert(written.whitelist == rest.push(written.whitelist.last()));
    let listed = step::whitelist_entries(config::resolved(written));
    assert(config::resolved(written).whitelist == config::scanned(written.whitelist).rules);
    assert forall|i: int| 0 <= i < listed.len() - 1 implies (#[trigger] listed[i]).id
        != entry.id by {
        assert(listed[i].id == rules[i].id);
    }
}

/// Removing an id leaves no entry for it, however it was written; and adding an entry and
/// removing its id again gives back the config without that id, which is the config itself
/// where the id was not listed.
pub proof fn removing_undoes_adding(raw: RawConfigView, entry: WhitelistEntryView)
    ensures
        !step::has_entry(step::without_entry(raw, entry.id), entry.id),
        step::without_entry(step::with_entry(raw, entry), entry.id) == step::without_entry(
            raw,
            entry.id,
        ),
        !step::has_entry(raw, entry.id) ==> step::without_entry(raw, entry.id) == raw,
{
    let keep = step::is_for_another(entry.id);
    let rest = raw.whitelist.filter(keep);
    assert forall|i: int| 0 <= i < rest.len() implies keep(#[trigger] rest[i]) by {
        raw.whitelist.lemma_filter_pred(keep, i);
    }
    filter_keeps_all(rest, keep);
    sensor_event::usb_id_round_trip(entry.id);
    let longer = step::with_entry(raw, entry).whitelist;
    assert(longer.drop_last() =~= rest);
    assert(longer.filter(keep) == rest) by {
        reveal(Seq::filter);
    }
    if !step::has_entry(raw, entry.id) {
        filter_keeps_all(raw.whitelist, keep);
    }
}

proof fn filter_keeps_all(s: Seq<RawWhitelistEntryView>, keep: spec_fn(
    RawWhitelistEntryView,
) -> bool)
    requires
        forall|i: int| 0 <= i < s.len() ==> keep(#[trigger] s[i]),
    ensures
        s.filter(keep) == s,
    decreases s.len(),
{
    reveal(Seq::filter);
    if s.len() > 0 {
        filter_keeps_all(s.drop_last(), keep);
        assert(s.drop_last().push(s.last()) =~= s);
    }
}

/// What a config change set is what the config then says, and nothing else changes.
pub proof fn a_config_change_is_read_back(raw: RawConfigView, change: ConfigChangeView)
    ensures
        ({
            let before = config::resolved(raw);
            let after = config::resolved(step::with_change(raw, change));
            match change {
                ConfigChangeView::DryRun(b) => after == (config::ConfigView {
                    dry_run: b,
                    ..before
                }),
                ConfigChangeView::PowerAction(p) => after == (config::ConfigView {
                    power_action: p,
                    ..before
                }),
                ConfigChangeView::ArmedAtBoot(b) => after == (config::ConfigView {
                    armed_at_boot: b,
                    ..before
                }),
                ConfigChangeView::Sensors(v) => after == (config::ConfigView {
                    sensors: config::sensor_names(v),
                    ..before
                }),
                ConfigChangeView::OnSensorGap(g) => after == (config::ConfigView {
                    on_sensor_gap: match g {
                        OnSensorGap::Warn => SensorGapAction::Warn,
                        OnSensorGap::Kill => SensorGapAction::Kill,
                    },
                    ..before
                }),
            }
        }),
{
    reveal(config::resolved);
    reveal_strlit("poweroff");
    reveal_strlit("halt");
    reveal_strlit("none");
    reveal_strlit("warn");
    reveal_strlit("kill");
    assert("poweroff"@.len() == 8 && "halt"@.len() == 4 && "none"@.len() == 4);
    assert("halt"@[0] != "none"@[0]);
    assert("warn"@[0] != "kill"@[0]);
}

} // verus!
