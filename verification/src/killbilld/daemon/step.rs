//! What each message does to the core: the state after it, and the effects in order.

use crate::killbilld::config;
use crate::killbilld::config::{
    ConfigView, RawConfigView, RawWhitelistEntryView, SensorGapAction,
};
use crate::killbilld::control;
use crate::killbilld::control::PeerCred;
use crate::killbilld::daemon::journal;
use crate::killbilld::daemon::state::{
    Change, CoreView, Delivery, EffectView, FlowView, MsgView, PendingView, Subscriber,
    BACKLOG_LIMIT, MAX_MISSES, MAX_SUBSCRIBERS,
};
use crate::killbilld::daemon::tracker::TrackerView;
use crate::killbilld::device_table;
use crate::killbilld::policy;
use crate::killbilld::policy::Decision;
use crate::killbilld::responder;
use crate::killbilld::responder::{HostProbeView, LogLineView, NotReadyView};
use crate::proto::action::{Action, KillReason};
use crate::proto::protocol::{
    CommandView, ConfigChangeView, ConfigPayloadView, DeviceInfoView, EventView,
    LuksDestroyInfoView, OnSensorGap, ReplyView, StatusView, StreamEventView, WhitelistEntryView,
};
use crate::proto::sensor_event;
use crate::proto::sensor_event::{
    DeviceIdentityView, EventKind, SensorEventView, SensorSource, UsbId,
};
use crate::text;
use vstd::prelude::*;

verus! {

/// The core, and the effects it has asked for so far.
pub struct Step {
    pub core: CoreView,
    pub fx: Seq<EffectView>,
}

impl Step {
    /// One more effect.
    pub open spec fn with(self, e: EffectView) -> Step {
        Step { fx: self.fx.push(e), ..self }
    }

    /// An answer to a request.
    pub open spec fn answer(self, to: u64, reply: ReplyView) -> Step {
        self.with(EffectView::Answer { to, reply })
    }

    /// A line for the log.
    pub open spec fn log(self, line: LogLineView) -> Step {
        self.with(EffectView::Log(line))
    }

    /// An event for every subscriber, which also joins the backlog; the backlog forgets its
    /// oldest entry beyond the limit.
    #[verifier::opaque]
    pub open spec fn publish(self, at: Seq<char>, event: EventView) -> Step {
        let stamped = StreamEventView { at, event };
        let longer = self.core.backlog.push(stamped);
        Step {
            core: CoreView {
                backlog: if longer.len() > BACKLOG_LIMIT {
                    longer.skip(1)
                } else {
                    longer
                },
                ..self.core
            },
            fx: self.fx.push(EffectView::Publish(stamped)),
        }
    }
}

/// The failures of a preflight in one line.
pub open spec fn joined(failures: Seq<NotReadyView>) -> Seq<char>
    decreases failures.len(),
{
    if failures.len() == 0 {
        Seq::empty()
    } else if failures.len() == 1 {
        failures[0].text()
    } else {
        joined(failures.drop_last()) + "; "@ + failures.last().text()
    }
}

/// What kept the responders of a config from acting on this host.
pub open spec fn preflight_failures(cfg: ConfigView, host: HostProbeView) -> Seq<NotReadyView> {
    responder::obstacles(responder::responders_of(cfg), host)
}

/// Why the core does not arm, the first reason of several.
pub open spec fn arm_refusal(c: CoreView, host: HostProbeView) -> Option<Seq<char>> {
    if c.config_error is Some {
        Some("refusing to arm — the configuration is invalid:\n"@ + c.config_error->0)
    } else if !c.sensor_ok {
        Some(
            "refusing to arm — the USB sensor is not running, so device changes would go unseen (invariant 7)"@,
        )
    } else if c.events_lost {
        Some(
            "refusing to arm — the USB sensor has lost events and can no longer account for the device set; restart killbilld"@,
        )
    } else if c.config.sensors.len() > 0 && host.sensor_error is Some {
        Some("refusing to arm — sensor "@ + "usb-netlink"@ + ": "@ + host.sensor_error->0)
    } else if preflight_failures(c.config, host).len() > 0 {
        Some("refusing to arm — "@ + joined(preflight_failures(c.config, host)))
    } else {
        None
    }
}

/// Arming: nothing if already armed, nothing if refused, else armed, logged with the peer that
/// asked for it, and announced.
pub open spec fn arm(s: Step, peer: PeerCred, host: HostProbeView, at: Seq<char>) -> Step {
    if s.core.armed || arm_refusal(s.core, host) is Some {
        s
    } else {
        Step { core: CoreView { armed: true, ..s.core }, ..s }.log(
            journal::armed(peer, s.core.config),
        ).publish(at, EventView::Armed)
    }
}

/// The answer to an arm request.
pub open spec fn arm_result(c: CoreView, host: HostProbeView) -> Option<Seq<char>> {
    if c.armed {
        None
    } else {
        arm_refusal(c, host)
    }
}

/// The daemon itself, as the one who asks for the arm at boot.
pub open spec fn the_system() -> PeerCred {
    PeerCred { uid: 0, pid: 0, gid: 0 }
}

/// Arming at boot: the wish is kept until it succeeds.
pub open spec fn boot_arm(s: Step, host: HostProbeView, at: Seq<char>) -> Step {
    let t = arm(s, the_system(), host, at);
    match arm_result(s.core, host) {
        None => Step { core: CoreView { boot_arm_pending: false, ..t.core }, ..t },
        Some(reason) => t.log(journal::boot_arm_failed(reason)),
    }
}

/// Disarming: logged with the peer that asked for it, and announced if it changes anything.
pub open spec fn disarm(s: Step, peer: PeerCred, at: Seq<char>) -> Step {
    if s.core.armed {
        Step { core: CoreView { armed: false, ..s.core }, ..s }.log(
            journal::disarmed(peer),
        ).publish(at, EventView::Disarmed)
    } else {
        s.log(journal::disarmed_already(peer))
    }
}

/// The sensor is watching: a pending boot arm is tried.
#[verifier::opaque]
pub open spec fn sensor_started(s: Step, host: HostProbeView, at: Seq<char>) -> Step {
    let t = Step { core: CoreView { sensor_ok: true, ..s.core }, ..s }.log(journal::watching());
    if t.core.boot_arm_pending && !t.core.armed {
        boot_arm(t, host, at)
    } else {
        t
    }
}

/// What clients are told of a device.
pub open spec fn device_info(cfg: ConfigView, identity: DeviceIdentityView) -> DeviceInfoView {
    DeviceInfoView {
        source: SensorSource::Usb,
        id: identity.usb_id,
        serial: identity.serial,
        label: identity.label,
        whitelisted: match identity.usb_id {
            Some(id) => policy::allowance(cfg.whitelist, id) is Some,
            None => false,
        },
    }
}

/// Whether an event only re-announces a device that is already there: an addition that the
/// kernel synthesized.
pub open spec fn is_synthetic(event: SensorEventView) -> bool {
    event.kind == EventKind::Added && event.raw.dom().contains("SYNTH_UUID"@)
}

/// The decision on an event, against the devices before it.
pub open spec fn event_decision(c: CoreView, event: SensorEventView) -> Decision {
    policy::decision(event.kind, event.identity.usb_id, c.config, c.devices.table, c.engaged)
}

/// The kill that an event calls for: only when armed, and never for a synthetic addition.
pub open spec fn event_kill(c: CoreView, event: SensorEventView) -> Option<Action> {
    match event_decision(c, event) {
        Decision::Act(action) => if c.armed && !is_synthetic(event) {
            Some(action)
        } else {
            None
        },
        Decision::Ignore => None,
    }
}

/// What the log says of an event, and of what was done about it.
pub open spec fn event_line(c: CoreView, event: SensorEventView) -> LogLineView {
    match event_decision(c, event) {
        Decision::Ignore => journal::allowed(event.kind, event.identity.usb_id),
        Decision::Act(action) => if event_kill(c, event) is Some {
            journal::dispatched(action, event.raw.dom().contains("SYNTH_UUID"@))
        } else if is_synthetic(event) {
            journal::announced_again(action)
        } else {
            journal::not_armed(action)
        },
    }
}

/// A device event: the kill first, then the books, the subscribers and the log.
#[verifier::opaque]
pub open spec fn sensor_event(s: Step, event: SensorEventView, at: Seq<char>) -> Step {
    let t = match event_kill(s.core, event) {
        Some(action) => s.with(EffectView::Dispatch(action)),
        None => s,
    };
    let info = device_info(t.core.config, event.identity);
    match event.kind {
        EventKind::Added => Step {
            core: CoreView { devices: t.core.devices.added(event.identity), ..t.core },
            ..t
        }.publish(at, EventView::DeviceAdded(info)).log(event_line(s.core, event)),
        EventKind::Removed => Step {
            core: CoreView { devices: t.core.devices.removed(event.identity), ..t.core },
            ..t
        }.publish(at, EventView::DeviceRemoved(info)).log(event_line(s.core, event)),
    }
}

/// The kill for a sensor gap: the power action, and never destruction.
pub open spec fn gap_action(cfg: ConfigView) -> Action {
    Action {
        reason: KillReason::SensorGap,
        power: cfg.power_action,
        luks_destroy: false,
        dry_run: cfg.dry_run,
    }
}

/// Whether a gap is a kill now: config says so, the core is armed, and no gap kill was
/// dispatched since the last config swap.
pub open spec fn gap_kills(c: CoreView) -> bool {
    c.config.on_sensor_gap == SensorGapAction::Kill && c.armed && !c.gap_kill_dispatched
}

/// The gap kill, if one is due.
pub open spec fn gap_kill(s: Step) -> Step {
    if gap_kills(s.core) {
        Step { core: CoreView { gap_kill_dispatched: true, ..s.core }, ..s }.with(
            EffectView::Dispatch(gap_action(s.core.config)),
        ).log(journal::gap_dispatched(s.core.config))
    } else {
        s
    }
}

/// What the log says of a gap beside the kill: one line where config only warns of gaps, another
/// where it would have killed if armed.
pub open spec fn gap_logged(s: Step, warned: LogLineView, disarmed: LogLineView) -> Step {
    match s.core.config.on_sensor_gap {
        SensorGapAction::Warn => s.log(warned),
        SensorGapAction::Kill => if s.core.armed {
            s
        } else {
            s.log(disarmed)
        },
    }
}

/// Lost events: the kill first; the flag and the announcement once.
#[verifier::opaque]
pub open spec fn sensor_lost(s: Step, at: Seq<char>) -> Step {
    let t = gap_kill(s);
    if t.core.events_lost {
        t
    } else {
        gap_logged(
            Step { core: CoreView { events_lost: true, ..t.core }, ..t }.publish(
                at,
                EventView::EventsLost,
            ),
            journal::lost_warned(),
            journal::lost_disarmed(),
        )
    }
}

/// A sensor restart: a gap, and the end of a pending boot arm.
#[verifier::opaque]
pub open spec fn sensor_restarting(s: Step, at: Seq<char>) -> Step {
    let t = gap_kill(Step { core: CoreView { sensor_ok: false, ..s.core }, ..s });
    let first_gap = !t.core.events_lost;
    let u = if t.core.boot_arm_pending {
        t.log(journal::boot_arm_cleared())
    } else {
        t
    };
    let v = Step {
        core: CoreView { events_lost: true, boot_arm_pending: false, ..u.core },
        ..u
    }.publish(at, EventView::SensorStopped);
    let w = if first_gap {
        v.publish(at, EventView::EventsLost)
    } else {
        v
    };
    gap_logged(w, journal::stopped_warned(), journal::stopped_disarmed())
}

/// The end of the sensor: a gap too.
#[verifier::opaque]
pub open spec fn sensor_ended(s: Step, at: Seq<char>) -> Step {
    let t = gap_kill(Step { core: CoreView { sensor_ok: false, ..s.core }, ..s });
    let u = if t.core.events_lost {
        t
    } else {
        Step { core: CoreView { events_lost: true, ..t.core }, ..t }.publish(
            at,
            EventView::EventsLost,
        )
    };
    u.publish(at, EventView::SensorStopped).log(journal::ended())
}

/// The kill that a message calls for: that of a device event, or that of a gap.
pub open spec fn kill_of(c: CoreView, msg: MsgView) -> Option<Action> {
    match msg {
        MsgView::Sensor(event) => event_kill(c, event),
        MsgView::SensorLost | MsgView::SensorRestarting | MsgView::SensorEnded => if gap_kills(c) {
            Some(gap_action(c.config))
        } else {
            None
        },
        _ => None,
    }
}

/// The name of a command in messages.
pub open spec fn command_name(cmd: CommandView) -> Seq<char> {
    match cmd {
        CommandView::GetStatus => "status"@,
        CommandView::ListDevices => "list-devices"@,
        CommandView::Arm => "arm"@,
        CommandView::Disarm => "disarm"@,
        CommandView::WhitelistAdd(_) => "whitelist-add"@,
        CommandView::WhitelistRemove(_) => "whitelist-remove"@,
        CommandView::WhitelistList => "whitelist-list"@,
        CommandView::RunDryRun => "dry-run"@,
        CommandView::ReloadConfig => "reload"@,
        CommandView::GetConfig => "config-show"@,
        CommandView::ConfigSet(_) => "config-set"@,
        CommandView::SetLuksDestroyEngaged(_) => "luks-engage"@,
        CommandView::Subscribe => "subscribe"@,
    }
}

/// The snapshot that answers a status request.
pub open spec fn status(c: CoreView) -> StatusView {
    StatusView {
        armed: c.armed,
        dry_run: c.config.dry_run,
        power_action: c.config.power_action,
        whitelist_len: c.config.whitelist.len() as usize,
        device_count: c.devices.connected.len() as usize,
        config_error: c.config_error,
        sensor_ok: c.sensor_ok,
        events_lost: c.events_lost,
        config_stale: c.config_stale,
    }
}

/// The devices as clients see them.
pub open spec fn device_list(c: CoreView) -> Seq<DeviceInfoView> {
    c.devices.connected.map_values(|d: DeviceIdentityView| device_info(c.config, d))
}

/// The whitelist as clients see it.
pub open spec fn whitelist_entries(cfg: ConfigView) -> Seq<WhitelistEntryView> {
    cfg.whitelist.map_values(
        |w: config::WhitelistRuleView|
            WhitelistEntryView { id: w.id, label: w.label, max_count: Some(w.max_count) },
    )
}

/// The wire word for what a gap does.
pub open spec fn gap_word(g: SensorGapAction) -> OnSensorGap {
    match g {
        SensorGapAction::Warn => OnSensorGap::Warn,
        SensorGapAction::Kill => OnSensorGap::Kill,
    }
}

/// The config as clients see it.
pub open spec fn config_payload(c: CoreView) -> ConfigPayloadView {
    ConfigPayloadView {
        armed_at_boot: c.config.armed_at_boot,
        sensors: c.raw.sensors,
        dry_run: c.config.dry_run,
        power_action: c.config.power_action,
        on_sensor_gap: gap_word(c.config.on_sensor_gap),
        luks_destroy: match c.config.luks_destroy {
            Some(target) => Some(
                LuksDestroyInfoView {
                    acknowledged: true,
                    target_header: target,
                    engaged: c.engaged,
                },
            ),
            None => None,
        },
        validation_error: if c.config_error is Some {
            c.config_error
        } else {
            c.disk_error
        },
    }
}

/// The ids of the devices that have one.
pub open spec fn ids_of(devices: Seq<DeviceIdentityView>) -> Seq<UsbId>
    decreases devices.len(),
{
    if devices.len() == 0 {
        Seq::empty()
    } else {
        match devices.last().usb_id {
            Some(id) => ids_of(devices.drop_last()).push(id),
            None => ids_of(devices.drop_last()),
        }
    }
}

/// Why the `i`-th device would be a kill if it were plugged in beside the others.
pub open spec fn would_kill(devices: Seq<DeviceIdentityView>, cfg: ConfigView, i: int) -> Option<
    KillReason,
> {
    policy::kill_reason(
        EventKind::Added,
        devices[i].usb_id,
        cfg.whitelist,
        device_table::all_inserted(ids_of(devices.remove(i))),
    )
}

/// The kill reasons among the first `n` devices.
pub open spec fn dry_run_reasons(devices: Seq<DeviceIdentityView>, cfg: ConfigView, n: nat) -> Seq<
    KillReason,
>
    decreases n,
{
    if n == 0 {
        Seq::empty()
    } else {
        let before = dry_run_reasons(devices, cfg, (n - 1) as nat);
        match would_kill(devices, cfg, n - 1) {
            Some(reason) => before.push(reason),
            None => before,
        }
    }
}

/// One event for each kill that would be.
pub open spec fn publish_reasons(s: Step, reasons: Seq<KillReason>, at: Seq<char>) -> Step
    decreases reasons.len(),
{
    if reasons.len() == 0 {
        s
    } else {
        publish_reasons(s, reasons.drop_last(), at).publish(
            at,
            EventView::WouldKill(reasons.last()),
        )
    }
}

/// A dry run: the reasons are published and answered; nothing else changes.
pub open spec fn dry_run(s: Step, to: u64, at: Seq<char>) -> Step {
    let devices = s.core.devices.connected;
    let reasons = dry_run_reasons(devices, s.core.config, devices.len());
    publish_reasons(s, reasons, at).log(journal::dry_run_done(reasons.len())).answer(to, ReplyView::DryRun(reasons))
}

/// Why a config change is refused before it is looked at.
pub open spec fn change_refusal(c: CoreView, change: Change) -> Option<Seq<char>> {
    if c.config_error is Some {
        Some(
            "refusing to "@ + change.label()
                + ": the running configuration is invalid. Fix "@ + c.config_path
                + " on disk and run `reload` first.\n"@ + c.config_error->0,
        )
    } else if c.pending is Some {
        Some("a configuration change is already being written; retry shortly"@)
    } else {
        None
    }
}

/// Whether a whitelist entry is for another id than this one, however it is written.
pub open spec fn is_for_another(id: UsbId) -> spec_fn(RawWhitelistEntryView) -> bool {
    |w: RawWhitelistEntryView| sensor_event::usb_id_of(w.id) != Some(id)
}

/// A config without the whitelist entries for this id.
pub open spec fn without_entry(raw: RawConfigView, id: UsbId) -> RawConfigView {
    RawConfigView { whitelist: raw.whitelist.filter(is_for_another(id)), ..raw }
}

/// A config with this whitelist entry, in place of one with the same id.
pub open spec fn with_entry(raw: RawConfigView, entry: WhitelistEntryView) -> RawConfigView {
    let rest = without_entry(raw, entry.id);
    RawConfigView {
        whitelist: rest.whitelist.push(
            RawWhitelistEntryView {
                id: entry.id.text(),
                label: entry.label,
                max_count: entry.max_count,
            },
        ),
        ..rest
    }
}

/// Whether the config has a whitelist entry for this id.
pub open spec fn has_entry(raw: RawConfigView, id: UsbId) -> bool {
    exists|i: int|
        0 <= i < raw.whitelist.len() && sensor_event::usb_id_of((#[trigger] raw.whitelist[i]).id)
            == Some(id)
}

/// A config with one field changed.
pub open spec fn with_change(raw: RawConfigView, change: ConfigChangeView) -> RawConfigView {
    match change {
        ConfigChangeView::DryRun(b) => RawConfigView { dry_run: b, ..raw },
        ConfigChangeView::PowerAction(p) => RawConfigView { power_action: Some(p.word()), ..raw },
        ConfigChangeView::ArmedAtBoot(b) => RawConfigView { armed_at_boot: b, ..raw },
        ConfigChangeView::Sensors(v) => RawConfigView { sensors: v, ..raw },
        ConfigChangeView::OnSensorGap(g) => RawConfigView { on_sensor_gap: Some(g.word()), ..raw },
    }
}

/// A changed config: refused if it is invalid, or if it would leave an armed core with a
/// responder that cannot act; else handed to the writer.
pub open spec fn begin_apply(
    s: Step,
    raw: RawConfigView,
    change: Change,
    to: u64,
    host: HostProbeView,
) -> Step {
    let errors = config::config_errors(raw);
    let failures = preflight_failures(config::resolved(raw), host);
    if errors.len() > 0 {
        s.log(journal::change_invalid(change.label(), config::report_text(errors))).answer(
            to,
            ReplyView::Error(change.label() + " rejected:\n"@ + config::report_text(errors)),
        )
    } else if s.core.armed && failures.len() > 0 {
        s.log(journal::change_unready(change.label(), joined(failures))).answer(
            to,
            ReplyView::Error(
                change.label()
                    + " rejected — while armed, a responder would no longer be able to act: "@
                    + joined(failures),
            ),
        )
    } else {
        Step {
            core: CoreView { pending: Some(PendingView::Write { raw, change, to }), ..s.core },
            ..s
        }.with(EffectView::Persist(raw))
    }
}

/// A config change that a client asked for: refused, or applied to the running config.
pub open spec fn change_config(
    s: Step,
    raw: RawConfigView,
    change: Change,
    to: u64,
    host: HostProbeView,
) -> Step {
    match change_refusal(s.core, change) {
        Some(reason) => s.answer(to, ReplyView::Error(reason)),
        None => begin_apply(s, raw, change, to, host),
    }
}

/// The removal of a whitelist entry, which must be there.
pub open spec fn whitelist_remove(s: Step, id: UsbId, to: u64, host: HostProbeView) -> Step {
    match change_refusal(s.core, Change::WhitelistRemove) {
        Some(reason) => s.answer(to, ReplyView::Error(reason)),
        None => if has_entry(s.core.raw, id) {
            begin_apply(s, without_entry(s.core.raw, id), Change::WhitelistRemove, to, host)
        } else {
            s.answer(to, ReplyView::Error("no whitelist entry for "@ + id.text()))
        },
    }
}

/// A reload request: handed to the writer, one at a time.
pub open spec fn reload(s: Step, to: u64) -> Step {
    if s.core.pending is Some {
        s.answer(
            to,
            ReplyView::Error("a configuration change is already being processed; retry"@),
        )
    } else {
        Step {
            core: CoreView { pending: Some(PendingView::Reload { to }), ..s.core },
            ..s
        }.with(EffectView::Reload)
    }
}

/// The destruction toggle: it takes an acknowledged target, whichever way it is turned.
pub open spec fn set_engaged(s: Step, engaged: bool, to: u64) -> Step {
    if s.core.config.luks_destroy is None {
        s.answer(
            to,
            ReplyView::Error(
                "refusing to engage or disengage LUKS header destruction: the running configuration has no acknowledged [response.luks_destroy]"@,
            ),
        )
    } else {
        Step { core: CoreView { engaged, ..s.core }, ..s }.answer(to, ReplyView::Done)
    }
}

/// A command from a client. A privileged command from a peer that is not root changes nothing.
#[verifier::opaque]
pub open spec fn command(
    s: Step,
    cmd: CommandView,
    peer: PeerCred,
    to: u64,
    host: HostProbeView,
    at: Seq<char>,
) -> Step {
    if !control::is_authorized(cmd, peer) {
        s.log(journal::denied(peer, command_name(cmd))).answer(
            to,
            ReplyView::Error(
                "permission denied: "@ + command_name(cmd) + " requires uid 0 (peer uid "@
                    + text::decimal(peer.uid as nat) + ")"@,
            ),
        )
    } else {
        match cmd {
            CommandView::GetStatus => s.answer(to, ReplyView::Status(status(s.core))),
            CommandView::ListDevices => s.answer(to, ReplyView::Devices(device_list(s.core))),
            CommandView::WhitelistList => s.answer(
                to,
                ReplyView::Whitelist(whitelist_entries(s.core.config)),
            ),
            CommandView::Arm => match arm_result(s.core, host) {
                None => arm(s, peer, host, at).answer(to, ReplyView::Done),
                Some(reason) => arm(s, peer, host, at).log(
                    journal::arm_refused(peer, reason),
                ).answer(to, ReplyView::Error(reason)),
            },
            CommandView::Disarm => disarm(s, peer, at).answer(to, ReplyView::Done),
            CommandView::RunDryRun => dry_run(s, to, at),
            CommandView::WhitelistAdd(entry) => change_config(
                s,
                with_entry(s.core.raw, entry),
                Change::WhitelistAdd,
                to,
                host,
            ),
            CommandView::WhitelistRemove(id) => whitelist_remove(s, id, to, host),
            CommandView::ReloadConfig => reload(s, to),
            CommandView::GetConfig => s.answer(to, ReplyView::Config(config_payload(s.core))),
            CommandView::ConfigSet(change) => change_config(
                s,
                with_change(s.core.raw, change),
                Change::ConfigSet,
                to,
                host,
            ),
            CommandView::SetLuksDestroyEngaged(engaged) => set_engaged(s, engaged, to),
            CommandView::Subscribe => s.answer(
                to,
                ReplyView::Error(
                    "Subscribe is a streaming command handled by the connection layer"@,
                ),
            ),
        }
    }
}

/// A subscription: for root only, up to the limit, and the backlog before live events.
#[verifier::opaque]
pub open spec fn subscribe(s: Step, peer: PeerCred, subscriber: u64, to: u64) -> Step {
    if peer.uid != 0 {
        s.log(journal::subscription_denied(peer)).answer(
            to,
            ReplyView::Error(
                "permission denied: the event stream requires uid 0 (peer uid "@ + text::decimal(
                    peer.uid as nat,
                ) + ")"@,
            ),
        )
    } else if s.core.subscribers.len() >= MAX_SUBSCRIBERS {
        s.log(journal::subscribers_full()).answer(
            to,
            ReplyView::Error("too many event subscribers; try again shortly"@),
        )
    } else {
        Step {
            core: CoreView {
                subscribers: s.core.subscribers.push(
                    Subscriber { token: subscriber, consecutive_misses: 0 },
                ),
                ..s.core
            },
            ..s
        }.answer(to, ReplyView::Done).with(
            EffectView::Replay { subscriber, events: s.core.backlog },
        )
    }
}

/// A validated config takes over: the gap kill is enabled again, errors are forgotten, and the
/// destruction toggle survives only if its target does.
pub open spec fn swapped(c: CoreView, raw: RawConfigView) -> CoreView {
    let cfg = config::resolved(raw);
    CoreView {
        raw,
        config: cfg,
        config_error: None,
        config_stale: false,
        disk_error: None,
        gap_kill_dispatched: false,
        engaged: c.engaged && cfg.luks_destroy == c.config.luks_destroy,
        ..c
    }
}

/// A validated config takes over, and the log says so, and says if that weakens or alters what
/// an armed daemon does.
pub open spec fn swap(s: Step, raw: RawConfigView, label: Seq<char>) -> Step {
    let cfg = config::resolved(raw);
    let t = Step { core: swapped(s.core, raw), ..s }.log(journal::updated(label));
    let u = if s.core.armed && cfg.dry_run && !s.core.config.dry_run {
        t.log(journal::dry_run_set(label))
    } else {
        t
    };
    if s.core.armed && cfg.power_action != s.core.config.power_action {
        u.log(journal::power_changed(label, s.core.config.power_action, cfg.power_action))
    } else {
        u
    }
}

/// The writer is done with a change: it takes effect, or it is reported as failed.
#[verifier::opaque]
pub open spec fn config_written(s: Step, result: Result<(), Seq<char>>, at: Seq<char>) -> Step {
    match s.core.pending {
        Some(PendingView::Write { raw, change, to }) => {
            let free = CoreView { pending: None, ..s.core };
            match result {
                Ok(_) => swap(Step { core: free, ..s }, raw, change.label()).publish(
                    at,
                    change.event(),
                ).answer(to, ReplyView::Done),
                Err(e) => Step { core: free, ..s }.log(
                    journal::not_persisted(change.label(), e),
                ).answer(
                    to,
                    ReplyView::Error(
                        change.label() + ": could not write the config file: "@ + e,
                    ),
                ),
            }
        },
        _ => s,
    }
}

/// A reload was rejected: the running config stays, and everyone is told.
pub open spec fn reload_failed(
    s: Step,
    to: u64,
    line: LogLineView,
    reason: Seq<char>,
    disk_error: Option<Seq<char>>,
    at: Seq<char>,
) -> Step {
    Step { core: CoreView { config_stale: true, disk_error, ..s.core }, ..s }.log(line).publish(
        at,
        EventView::ReloadFailed(reason),
    ).answer(to, ReplyView::Error(reason))
}

/// The writer has read the file again: it takes effect, or the reload is rejected.
#[verifier::opaque]
pub open spec fn config_reloaded(
    s: Step,
    loaded: Result<RawConfigView, Seq<char>>,
    host: HostProbeView,
    at: Seq<char>,
) -> Step {
    match s.core.pending {
        Some(PendingView::Reload { to }) => {
            let t = Step { core: CoreView { pending: None, ..s.core }, ..s };
            match loaded {
                Err(e) => reload_failed(
                    t,
                    to,
                    journal::reload_unreadable(e),
                    "reload failed — the config file could not be read: "@ + e,
                    Some(e),
                    at,
                ),
                Ok(raw) => {
                    let errors = config::config_errors(raw);
                    let failures = preflight_failures(config::resolved(raw), host);
                    if errors.len() > 0 {
                        reload_failed(
                            t,
                            to,
                            journal::reload_invalid(config::report_text(errors)),
                            "reload failed — the config on disk is invalid; keeping the running config and armed state (invariant 2):\n"@
                                + config::report_text(errors),
                            Some(config::report_text(errors)),
                            at,
                        )
                    } else if t.core.armed && failures.len() > 0 {
                        reload_failed(
                            t,
                            to,
                            journal::reload_unready(joined(failures)),
                            "reload rejected — while armed, a responder would no longer be able to act: "@
                                + joined(failures),
                            None,
                            at,
                        )
                    } else {
                        swap(t, raw, "reload"@).publish(at, EventView::ConfigChanged).answer(
                            to,
                            ReplyView::Done,
                        )
                    }
                },
            }
        },
        _ => s,
    }
}

/// The writer is gone: the request it had is answered.
pub open spec fn writer_gone(s: Step) -> Step {
    let t = Step { core: CoreView { pending: None, ..s.core }, ..s };
    match s.core.pending {
        Some(PendingView::Write { to, .. }) => t.answer(
            to,
            ReplyView::Error("daemon is shutting down"@),
        ),
        Some(PendingView::Reload { to }) => t.answer(
            to,
            ReplyView::Error("daemon is shutting down"@),
        ),
        None => s,
    }
}

/// What a message does.
pub open spec fn handled(s: Step, msg: MsgView, host: HostProbeView, at: Seq<char>) -> Step {
    match msg {
        MsgView::SensorStarted => sensor_started(s, host, at),
        MsgView::Sensor(event) => sensor_event(s, event, at),
        MsgView::SensorLost => sensor_lost(s, at),
        MsgView::SensorRestarting => sensor_restarting(s, at),
        MsgView::SensorEnded => sensor_ended(s, at),
        MsgView::Command { cmd, peer, to } => command(s, cmd, peer, to, host, at),
        MsgView::Subscribe { peer, subscriber, to } => subscribe(s, peer, subscriber, to),
        MsgView::ConfigWritten(result) => config_written(s, result, at),
        MsgView::ConfigReloaded(loaded) => config_reloaded(s, loaded, host, at),
        MsgView::WriterGone => writer_gone(s),
        MsgView::Shutdown => s,
    }
}

/// Whether handling a message asks whether the sensor can be opened: only an arm does.
pub open spec fn asks_sensor(c: CoreView, msg: MsgView) -> bool {
    match msg {
        MsgView::SensorStarted => c.boot_arm_pending && !c.armed,
        MsgView::Command { cmd, peer, .. } => cmd is Arm && peer.uid == 0 && !c.armed,
        _ => false,
    }
}

/// Whether handling a message asks what the host can do: an arm does, and a config change while
/// armed.
pub open spec fn asks_host(c: CoreView, msg: MsgView) -> bool {
    ||| asks_sensor(c, msg)
    ||| c.armed && match msg {
        MsgView::Command { cmd, peer, .. } => peer.uid == 0 && (cmd is WhitelistAdd
            || cmd is WhitelistRemove || cmd is ConfigSet),
        MsgView::ConfigReloaded(_) => true,
        _ => false,
    }
}

/// Whether the loop goes on after a message.
pub open spec fn flow(msg: MsgView) -> FlowView {
    match msg {
        MsgView::SensorEnded => FlowView::Failed("the USB sensor could not be kept running"@),
        MsgView::Shutdown => FlowView::Shutdown,
        _ => FlowView::Continue,
    }
}

/// What a queued message does when the daemon is stopping: whatever can fire a kill still
/// counts, everything else is dropped.
pub open spec fn drained_one(s: Step, msg: MsgView, at: Seq<char>) -> Step {
    match msg {
        MsgView::Sensor(event) => sensor_event(s, event, at),
        MsgView::SensorLost => sensor_lost(s, at),
        MsgView::SensorRestarting => sensor_restarting(s, at),
        MsgView::SensorEnded => sensor_ended(s, at),
        _ => s,
    }
}

/// What the queued messages do when the daemon is stopping.
pub open spec fn drained(s: Step, queue: Seq<MsgView>, at: Seq<char>) -> Step
    decreases queue.len(),
{
    if queue.len() == 0 {
        s
    } else {
        drained_one(drained(s, queue.drop_last(), at), queue.last(), at)
    }
}

/// How many device events are queued.
pub open spec fn device_events(queue: Seq<MsgView>) -> nat
    decreases queue.len(),
{
    if queue.len() == 0 {
        0
    } else {
        device_events(queue.drop_last()) + (if queue.last() is Sensor {
            1nat
        } else {
            0nat
        })
    }
}

/// A subscriber after one delivery; `None` if it is dropped.
pub open spec fn after_delivery(sub: Subscriber, outcome: Delivery) -> Option<Subscriber> {
    match outcome {
        Delivery::Sent => Some(Subscriber { consecutive_misses: 0, ..sub }),
        Delivery::Full => if sub.consecutive_misses + 1 >= MAX_MISSES {
            None
        } else {
            Some(
                Subscriber {
                    consecutive_misses: (sub.consecutive_misses + 1) as u32,
                    ..sub
                },
            )
        },
        Delivery::Disconnected => None,
    }
}

/// The first `n` subscribers after one delivery each.
pub open spec fn after_deliveries(
    subs: Seq<Subscriber>,
    outcomes: Seq<Delivery>,
    n: nat,
) -> Seq<Subscriber>
    decreases n,
{
    if n == 0 {
        Seq::empty()
    } else {
        let before = after_deliveries(subs, outcomes, (n - 1) as nat);
        match after_delivery(subs[n - 1], outcomes[n - 1]) {
            Some(sub) => before.push(sub),
            None => before,
        }
    }
}

/// The core as it starts: disarmed, trusting no sensor yet. A file that cannot be used leaves
/// the daemon on the empty config, with the reason.
pub open spec fn loaded(path: Seq<char>, file: Result<RawConfigView, Seq<char>>) -> CoreView {
    let (raw, error) = match file {
        Ok(raw) => if config::config_errors(raw).len() == 0 {
            (raw, None)
        } else {
            (config::default_raw(), Some(config::report_text(config::config_errors(raw))))
        },
        Err(e) => (config::default_raw(), Some(e)),
    };
    CoreView {
        config_path: path,
        raw,
        config: config::resolved(raw),
        config_error: error,
        armed: false,
        devices: TrackerView { table: Map::empty(), connected: Seq::empty() },
        subscribers: Seq::empty(),
        sensor_ok: false,
        events_lost: false,
        gap_kill_dispatched: false,
        config_stale: false,
        disk_error: None,
        boot_arm_pending: false,
        pending: None,
        engaged: false,
        backlog: Seq::empty(),
    }
}

/// What the log says of the config that the daemon starts on.
pub open spec fn startup_line(c: CoreView) -> LogLineView {
    match c.config_error {
        Some(e) => journal::config_invalid(e),
        None => journal::config_loaded(c.config),
    }
}

} // verus!
