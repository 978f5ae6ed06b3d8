//! What clients are told, in terms of what was plugged in, asked for and configured.

use crate::killbilld::config;
use crate::killbilld::config::{ConfigView, RawConfigView, SensorGapAction, WhitelistRuleView};
use crate::killbilld::control::PeerCred;
use crate::killbilld::daemon::journal;
use crate::killbilld::daemon::laws;
use crate::killbilld::daemon::startup;
use crate::killbilld::daemon::state::{
    Change, CoreView, Delivery, EffectView, MsgView, PendingView, Subscriber,
};
use crate::killbilld::daemon::step;
use crate::killbilld::daemon::step::Step;
use crate::killbilld::daemon::tracker;
use crate::killbilld::device_table;
use crate::killbilld::policy;
use crate::killbilld::responder;
use crate::killbilld::responder::{HostProbeView, LogLevel, NotReadyView};
use crate::proto::action::KillReason;
use crate::proto::protocol::{
    CommandView, EventView, OnSensorGap, ReplyView, StreamEventView,
};
use crate::proto::sensor_event::{DeviceIdentityView, EventKind, SensorEventView, UsbId};
use crate::text;
use vstd::prelude::*;

verus! {

/// How many of some devices have this id.
pub open spec fn copies(devices: Seq<DeviceIdentityView>, id: UsbId) -> nat {
    devices.filter(|d: DeviceIdentityView| d.usb_id == Some(id)).len()
}

/// Whether the `r`-th rule is the one for an id: the first that has it.
pub open spec fn is_rule_for(rules: Seq<WhitelistRuleView>, r: int, id: UsbId) -> bool {
    &&& 0 <= r < rules.len()
    &&& rules[r].id == id
    &&& forall|j: int| 0 <= j < r ==> (#[trigger] rules[j]).id != id
}

proof fn ids_are_counted(devices: Seq<DeviceIdentityView>, id: UsbId)
    ensures
        step::ids_of(devices).filter(|k: UsbId| k == id).len() == copies(devices, id),
    decreases devices.len(),
{
    reveal(Seq::filter);
    if devices.len() > 0 {
        let rest = devices.drop_last();
        ids_are_counted(rest, id);
        if let Some(k) = devices.last().usb_id {
            let ids = step::ids_of(rest);
            assert(ids.push(k).drop_last() =~= ids);
        }
    }
}

proof fn a_table_of_ids_counts_them(ids: Seq<UsbId>, id: UsbId)
    requires
        ids.len() <= u32::MAX,
    ensures
        policy::held(device_table::all_inserted(ids), id) == ids.filter(
            |k: UsbId| k == id,
        ).len(),
        ids.filter(|k: UsbId| k == id).len() <= ids.len(),
    decreases ids.len(),
{
    reveal(Seq::filter);
    if ids.len() > 0 {
        a_table_of_ids_counts_them(ids.drop_last(), id);
        a_table_of_ids_counts_them(ids.drop_last(), ids.last());
    }
}

proof fn ids_are_no_more_than_devices(devices: Seq<DeviceIdentityView>)
    ensures
        step::ids_of(devices).len() <= devices.len(),
    decreases devices.len(),
{
    if devices.len() > 0 {
        ids_are_no_more_than_devices(devices.drop_last());
    }
}

proof fn one_less_without_it(devices: Seq<DeviceIdentityView>, i: int, id: UsbId)
    requires
        0 <= i < devices.len(),
        devices[i].usb_id == Some(id),
    ensures
        copies(devices, id) == copies(devices.remove(i), id) + 1,
{
    let same = |d: DeviceIdentityView| d.usb_id == Some(id);
    let before = devices.take(i);
    let after = devices.skip(i + 1);
    let it = seq![devices[i]];
    assert(devices =~= before + it + after);
    assert(devices.remove(i) =~= before + after);
    Seq::filter_distributes_over_add(before + it, after, same);
    Seq::filter_distributes_over_add(before, it, same);
    Seq::filter_distributes_over_add(before, after, same);
    assert(it.filter(same).len() == 1) by {
        reveal(Seq::filter);
        assert(it.drop_last() =~= Seq::empty());
        assert(it.drop_last().filter(same).len() == 0);
    }
}

/// What a dry run says of a connected device, by the whole list: nothing where a rule has its id
/// and no more copies of it are connected than the rule allows; that it is unidentified where it
/// has no id; that it is unknown where no rule has its id; and else how many copies are connected,
/// itself among them once, against how many may be.
pub proof fn a_dry_run_counts_each_device_once(
    devices: Seq<DeviceIdentityView>,
    cfg: ConfigView,
    i: int,
)
    requires
        0 <= i < devices.len() <= u32::MAX,
    ensures
        match step::would_kill(devices, cfg, i) {
            None => devices[i].usb_id matches Some(id) && exists|r: int| #[trigger]
                is_rule_for(cfg.whitelist, r, id) && copies(devices, id)
                    <= cfg.whitelist[r].max_count,
            Some(KillReason::UnidentifiedDevice) => devices[i].usb_id is None,
            Some(KillReason::UnknownDevice { id }) => devices[i].usb_id == Some(id) && forall|
                r: int,
            |
                0 <= r < cfg.whitelist.len() ==> (#[trigger] cfg.whitelist[r]).id != id,
            Some(KillReason::CountExceeded { id, max, seen }) => {
                &&& devices[i].usb_id == Some(id)
                &&& exists|r: int| #[trigger]
                    is_rule_for(cfg.whitelist, r, id) && max == cfg.whitelist[r].max_count
                &&& seen == copies(devices, id)
                &&& seen > max
            },
            Some(_) => false,
        },
{
    if let Some(id) = devices[i].usb_id {
        let rest = devices.remove(i);
        let table = device_table::all_inserted(step::ids_of(rest));
        one_less_without_it(devices, i, id);
        ids_are_counted(rest, id);
        ids_are_no_more_than_devices(rest);
        a_table_of_ids_counts_them(step::ids_of(rest), id);
        assert(rest.len() < u32::MAX);
        assert(policy::held(table, id) == copies(rest, id));
        assert(device_table::count_of(table, id) == copies(rest, id));
        assert(copies(devices, id) == copies(rest, id) + 1);
        a_first_rule_decides(cfg.whitelist, id);
        if let Some(max) = policy::allowance(cfg.whitelist, id) {
            let r = choose|r: int| #[trigger]
                is_rule_for(cfg.whitelist, r, id) && max == cfg.whitelist[r].max_count;
            assert(is_rule_for(cfg.whitelist, r, id) && max == cfg.whitelist[r].max_count);
            assert(step::would_kill(devices, cfg, i) == (if copies(devices, id) > max {
                Some(
                    KillReason::CountExceeded { id, max, seen: copies(devices, id) as u32 },
                )
            } else {
                None
            }));
        } else {
            assert(step::would_kill(devices, cfg, i) == Some(KillReason::UnknownDevice { id }));
        }
    }
}

proof fn a_first_rule_decides(rules: Seq<WhitelistRuleView>, id: UsbId)
    ensures
        policy::allowance(rules, id) matches Some(max) ==> exists|r: int| #[trigger]
            is_rule_for(rules, r, id) && max == rules[r].max_count,
        policy::allowance(rules, id) is None ==> forall|r: int|
            0 <= r < rules.len() ==> (#[trigger] rules[r]).id != id,
    decreases rules.len(),
{
    if rules.len() > 0 {
        let rest = rules.skip(1);
        a_first_rule_decides(rest, id);
        if rules[0].id == id {
            assert(is_rule_for(rules, 0, id));
        } else if policy::allowance(rules, id) is Some {
            let r = choose|r: int| #[trigger]
                is_rule_for(rest, r, id) && policy::allowance(rest, id)->0 == rest[r].max_count;
            assert forall|j: int| 0 <= j < r + 1 implies (#[trigger] rules[j]).id != id by {
                if j > 0 {
                    assert(rest[j - 1].id != id);
                }
            }
            assert(is_rule_for(rules, r + 1, id));
        } else {
            assert forall|r: int| 0 <= r < rules.len() implies (#[trigger] rules[r]).id != id by {
                if r > 0 {
                    assert(rest[r - 1].id != id);
                }
            }
        }
    }
}

/// A dry run goes through the connected devices in order and gives the reason of each that has
/// one: one device more gives its reason more, or nothing.
proof fn reasons_follow_the_list(devices: Seq<DeviceIdentityView>, cfg: ConfigView, n: nat)
    requires
        n <= devices.len(),
    ensures
        step::dry_run_reasons(devices, cfg, n) == Seq::new(
            n,
            |i: int| step::would_kill(devices, cfg, i),
        ).filter_map(|r: Option<KillReason>| r),
    decreases n,
{
    let f = |r: Option<KillReason>| r;
    let all = Seq::new(n, |i: int| step::would_kill(devices, cfg, i));
    if n == 0 {
        assert(all =~= Seq::empty());
        reveal(Seq::filter_map);
    } else {
        reasons_follow_the_list(devices, cfg, (n - 1) as nat);
        let before = Seq::new((n - 1) as nat, |i: int| step::would_kill(devices, cfg, i));
        assert(all.drop_last() =~= before);
        assert(all.last() == step::would_kill(devices, cfg, n - 1));
        reveal(Seq::filter_map);
    }
}

/// What a dry run answers, by the connected devices alone: the reasons of those that have one, in
/// the order in which they are listed; so it gives no reason exactly where every device has a
/// listed id with no more copies connected than its rule allows. Each reason is also told to every
/// subscriber, nothing is dispatched, and nothing but the list of past events changes.
pub proof fn a_dry_run_finds_what_would_kill(
    s: Step,
    peer: PeerCred,
    to: u64,
    host: HostProbeView,
    at: Seq<char>,
)
    requires
        peer.uid == 0,
        s.core.devices.connected.len() <= u32::MAX,
    ensures
        ({
            let devices = s.core.devices.connected;
            let rules = s.core.config.whitelist;
            let t = step::command(s, CommandView::RunDryRun, peer, to, host, at);
            &&& t.fx.last() matches EffectView::Answer { to: a, reply: ReplyView::DryRun(reasons) }
                && a == to && {
                &&& reasons == Seq::new(
                    devices.len(),
                    |i: int| step::would_kill(devices, s.core.config, i),
                ).filter_map(|r: Option<KillReason>| r)
                &&& reasons.len() == 0 <==> forall|i: int|
                    0 <= i < devices.len() ==> is_in_order(devices, rules, #[trigger] devices[i])
                &&& t.fx.len() == s.fx.len() + reasons.len() + 2
                &&& forall|k: int|
                    0 <= k < reasons.len() ==> #[trigger] t.fx[s.fx.len() + k]
                        == EffectView::Publish(
                        StreamEventView { at, event: EventView::WouldKill(reasons[k]) },
                    )
            }
            &&& t.core == (CoreView { backlog: t.core.backlog, ..s.core })
        }),
{
    reveal(step::command);
    let devices = s.core.devices.connected;
    let cfg = s.core.config;
    let reasons = step::dry_run_reasons(devices, cfg, devices.len());
    reasons_follow_the_list(devices, cfg, devices.len());
    hits_and_misses(devices, cfg, devices.len());
    assert forall|i: int| 0 <= i < devices.len() implies (is_in_order(
        devices,
        cfg.whitelist,
        #[trigger] devices[i],
    ) <==> step::would_kill(devices, cfg, i) is None) by {
        a_dry_run_counts_each_device_once(devices, cfg, i);
        if let Some(id) = devices[i].usb_id {
            if is_in_order(devices, cfg.whitelist, devices[i]) {
                let r = choose|r: int| #[trigger]
                    is_rule_for(cfg.whitelist, r, id) && copies(devices, id)
                        <= cfg.whitelist[r].max_count;
                assert(cfg.whitelist[r].id == id);
                if let Some(KillReason::CountExceeded { id: k, max, seen }) = step::would_kill(
                    devices,
                    cfg,
                    i,
                ) {
                    let q = choose|q: int| #[trigger]
                        is_rule_for(cfg.whitelist, q, id) && max == cfg.whitelist[q].max_count;
                    if q < r {
                        assert(cfg.whitelist[q].id != id);
                    } else if r < q {
                        assert(cfg.whitelist[r].id != id);
                    }
                }
            }
        }
    }
    reasons_are_published_in_order(s, reasons, at);
}

/// Whether a device is as the whitelist wants it: its id is listed, and there are no more copies of
/// it among the devices than its rule allows.
pub open spec fn is_in_order(
    devices: Seq<DeviceIdentityView>,
    rules: Seq<WhitelistRuleView>,
    d: DeviceIdentityView,
) -> bool {
    d.usb_id matches Some(id) && exists|r: int| #[trigger]
        is_rule_for(rules, r, id) && copies(devices, id) <= rules[r].max_count
}

proof fn hits_and_misses(devices: Seq<DeviceIdentityView>, cfg: ConfigView, n: nat)
    requires
        n <= devices.len(),
    ensures
        step::dry_run_reasons(devices, cfg, n).len() == 0 <==> forall|i: int|
            0 <= i < n ==> #[trigger] step::would_kill(devices, cfg, i) is None,
    decreases n,
{
    if n > 0 {
        hits_and_misses(devices, cfg, (n - 1) as nat);
    }
}

proof fn reasons_are_published_in_order(s: Step, reasons: Seq<KillReason>, at: Seq<char>)
    ensures
        ({
            let t = step::publish_reasons(s, reasons, at);
            &&& t.core == (CoreView { backlog: t.core.backlog, ..s.core })
            &&& t.fx.len() == s.fx.len() + reasons.len()
            &&& forall|k: int|
                0 <= k < reasons.len() ==> #[trigger] t.fx[s.fx.len() + k] == EffectView::Publish(
                    StreamEventView { at, event: EventView::WouldKill(reasons[k]) },
                )
        }),
    decreases reasons.len(),
{
    if reasons.len() > 0 {
        let before = step::publish_reasons(s, reasons.drop_last(), at);
        reasons_are_published_in_order(s, reasons.drop_last(), at);
        reveal(Step::publish);
        let t = step::publish_reasons(s, reasons, at);
        assert forall|k: int| 0 <= k < reasons.len() implies #[trigger] t.fx[s.fx.len() + k]
            == EffectView::Publish(
            StreamEventView { at, event: EventView::WouldKill(reasons[k]) },
        ) by {
            if k < reasons.len() - 1 {
                assert(before.fx[s.fx.len() + k] == EffectView::Publish(
                    StreamEventView { at, event: EventView::WouldKill(reasons.drop_last()[k]) },
                ));
            }
        }
    }
}

/// What clients are told of a device is what was read of it, and that it is whitelisted exactly
/// where a rule has its id.
pub proof fn a_device_is_told_as_it_is(cfg: ConfigView, identity: DeviceIdentityView)
    ensures
        ({
            let d = step::device_info(cfg, identity);
            &&& d.id == identity.usb_id
            &&& d.serial == identity.serial
            &&& d.label == identity.label
            &&& d.whitelisted <==> (identity.usb_id matches Some(id) && exists|r: int|
                0 <= r < cfg.whitelist.len() && (#[trigger] cfg.whitelist[r]).id == id)
        }),
{
    if let Some(id) = identity.usb_id {
        a_first_rule_decides(cfg.whitelist, id);
        if policy::allowance(cfg.whitelist, id) is Some {
            let r = choose|r: int| #[trigger]
                is_rule_for(cfg.whitelist, r, id) && policy::allowance(cfg.whitelist, id)->0
                    == cfg.whitelist[r].max_count;
            assert(cfg.whitelist[r].id == id);
        }
    }
}

/// The device list has every connected device once, in order, each told as it is; and the list of
/// the whitelist has every rule once, in order, with its label and count.
pub proof fn lists_are_complete_and_in_order(c: CoreView, i: int)
    ensures
        step::device_list(c).len() == c.devices.connected.len(),
        0 <= i < c.devices.connected.len() ==> step::device_list(c)[i].id
            == c.devices.connected[i].usb_id && step::device_list(c)[i].serial
            == c.devices.connected[i].serial && step::device_list(c)[i].label
            == c.devices.connected[i].label,
        step::whitelist_entries(c.config).len() == c.config.whitelist.len(),
        0 <= i < c.config.whitelist.len() ==> step::whitelist_entries(c.config)[i].id
            == c.config.whitelist[i].id && step::whitelist_entries(c.config)[i].label
            == c.config.whitelist[i].label && step::whitelist_entries(c.config)[i].max_count
            == Some(c.config.whitelist[i].max_count),
{
}

/// The list of connected devices follows what is plugged in and taken out: a device that is
/// plugged in joins it at the end, and nothing else about it changes; one that is taken out leaves
/// it at the first place that has its id and serial, and where none does the list stays.
pub proof fn the_device_list_follows_the_events(s: Step, event: SensorEventView, at: Seq<char>)
    ensures
        ({
            let before = s.core.devices.connected;
            let after = step::sensor_event(s, event, at).core.devices.connected;
            &&& event.kind == EventKind::Added ==> after == before.push(event.identity)
            &&& event.kind == EventKind::Removed ==> {
                ||| after == before && forall|i: int|
                    0 <= i < before.len() ==> (#[trigger] before[i]).usb_id
                        != event.identity.usb_id || before[i].serial != event.identity.serial
                ||| exists|i: int|
                    #![trigger before[i]]
                    0 <= i < before.len() && before[i].usb_id == event.identity.usb_id
                        && before[i].serial == event.identity.serial && after == before.remove(i)
                        && forall|j: int|
                        0 <= j < i ==> (#[trigger] before[j]).usb_id != event.identity.usb_id
                            || before[j].serial != event.identity.serial
            }
        }),
{
    reveal(step::sensor_event);
    reveal(Step::publish);
    tracker::one_device_leaves(s.core.devices.connected, event.identity);
}

/// The counts that decisions go by follow what is plugged in and taken out: one more of that id,
/// or one less, and every other id as before.
pub proof fn the_counts_follow_the_events(
    s: Step,
    event: SensorEventView,
    at: Seq<char>,
    other: UsbId,
)
    ensures
        ({
            let before = s.core.devices.table;
            let after = step::sensor_event(s, event, at).core.devices.table;
            &&& event.identity.usb_id != Some(other) ==> policy::held(after, other)
                == policy::held(before, other)
            &&& event.identity.usb_id matches Some(id) ==> {
                let had = policy::held(before, id);
                let has = policy::held(after, id);
                &&& event.kind == EventKind::Added && had < u32::MAX ==> (has == had + 1)
                &&& event.kind == EventKind::Removed && had > 0 ==> (has == had - 1)
                &&& event.kind == EventKind::Removed && had == 0 ==> (has == 0)
            }
        }),
{
    reveal(step::sensor_event);
    reveal(Step::publish);
}

/// Every device event is told to the subscribers as what it is.
pub proof fn a_device_event_is_told(s: Step, event: SensorEventView, at: Seq<char>)
    ensures
        ({
            let t = step::sensor_event(s, event, at);
            let k = t.fx.len() - 2;
            &&& k >= s.fx.len()
            &&& t.fx[k] matches EffectView::Publish(e) && e.at == at && (match e.event {
                EventView::DeviceAdded(d) => event.kind == EventKind::Added && d.id
                    == event.identity.usb_id && d.serial == event.identity.serial,
                EventView::DeviceRemoved(d) => event.kind == EventKind::Removed && d.id
                    == event.identity.usb_id && d.serial == event.identity.serial,
                _ => false,
            })
        }),
{
    reveal(step::sensor_event);
    reveal(Step::publish);
}

/// The status tells what has happened: after a message from the sensor, whether it watches, whether
/// events were lost, and how many devices are connected.
pub proof fn the_status_tells_what_the_sensor_said(
    s: Step,
    event: SensorEventView,
    host: HostProbeView,
    at: Seq<char>,
)
    requires
        s.core.devices.connected.len() < usize::MAX,
    ensures
        step::status(step::sensor_started(s, host, at).core).sensor_ok,
        !step::status(step::sensor_restarting(s, at).core).sensor_ok,
        step::status(step::sensor_restarting(s, at).core).events_lost,
        !step::status(step::sensor_ended(s, at).core).sensor_ok,
        step::status(step::sensor_ended(s, at).core).events_lost,
        step::status(step::sensor_lost(s, at).core).events_lost,
        event.kind == EventKind::Added ==> step::status(
            step::sensor_event(s, event, at).core,
        ).device_count == s.core.devices.connected.len() + 1,
{
    a_started_sensor_watches(s, host, at);
    a_stopped_sensor_does_not(s, at);
    the_device_list_follows_the_events(s, event, at);
    laws::a_gap_leaves_its_mark(s, MsgView::SensorLost, at);
    laws::a_gap_leaves_its_mark(s, MsgView::SensorRestarting, at);
    laws::a_gap_leaves_its_mark(s, MsgView::SensorEnded, at);
}

proof fn a_started_sensor_watches(s: Step, host: HostProbeView, at: Seq<char>)
    ensures
        step::sensor_started(s, host, at).core.sensor_ok,
{
    reveal(step::sensor_started);
    reveal(Step::publish);
}

proof fn a_stopped_sensor_does_not(s: Step, at: Seq<char>)
    ensures
        !step::sensor_restarting(s, at).core.sensor_ok,
        !step::sensor_ended(s, at).core.sensor_ok,
{
    reveal(step::sensor_restarting);
    reveal(step::sensor_ended);
    reveal(Step::publish);
}

/// The status tells what the core holds: the armed state, what runs, what went wrong, and how many
/// devices and rules there are; and after a disarm it says disarmed.
pub proof fn the_status_tells_what_the_core_holds(
    s: Step,
    peer: PeerCred,
    to: u64,
    host: HostProbeView,
    at: Seq<char>,
)
    requires
        peer.uid == 0,
        s.core.devices.connected.len() <= usize::MAX,
        s.core.config.whitelist.len() <= usize::MAX,
    ensures
        !step::status(step::command(s, CommandView::Disarm, peer, to, host, at).core).armed,
        step::status(s.core).armed == s.core.armed,
        step::status(s.core).events_lost == s.core.events_lost,
        step::status(s.core).sensor_ok == s.core.sensor_ok,
        step::status(s.core).whitelist_len == s.core.config.whitelist.len(),
        step::status(s.core).device_count == s.core.devices.connected.len(),
        step::status(s.core).dry_run == s.core.config.dry_run,
        step::status(s.core).power_action == s.core.config.power_action,
        step::status(s.core).config_error == s.core.config_error,
        step::status(s.core).config_stale == s.core.config_stale,
{
    reveal(step::command);
    reveal(Step::publish);
}

/// The config that clients are shown is the one that runs: its settings, the destruction target
/// and whether it is engaged; and the error is that of the start, or else that of the file on
/// disk.
pub proof fn the_running_config_is_shown(c: CoreView)
    ensures
        ({
            let p = step::config_payload(c);
            &&& p.armed_at_boot == c.config.armed_at_boot
            &&& p.sensors == c.raw.sensors
            &&& p.dry_run == c.config.dry_run
            &&& p.power_action == c.config.power_action
            &&& p.on_sensor_gap == OnSensorGap::Kill <==> c.config.on_sensor_gap
                == SensorGapAction::Kill
            &&& p.luks_destroy is Some <==> c.config.luks_destroy is Some
            &&& p.luks_destroy matches Some(l) ==> Some(l.target_header) == c.config.luks_destroy
                && l.engaged == c.engaged && l.acknowledged
            &&& c.config_error is Some ==> p.validation_error == c.config_error
            &&& c.config_error is None ==> p.validation_error == c.disk_error
        }),
{
}

/// The core arms for root exactly where nothing stands in the way: a usable config, a sensor that
/// watches and has lost nothing, that can be opened if one is configured, and no responder that
/// could not act. An armed core stays armed, and a refusal says which of these it is for.
pub proof fn arming_takes_a_sound_daemon(
    s: Step,
    peer: PeerCred,
    to: u64,
    host: HostProbeView,
    at: Seq<char>,
)
    requires
        peer.uid == 0,
    ensures
        ({
            let t = step::command(s, CommandView::Arm, peer, to, host, at);
            let sound = s.core.config_error is None && s.core.sensor_ok && !s.core.events_lost && (
            s.core.config.sensors.len() == 0 || host.sensor_error is None)
                && responder::obstacles(
                responder::responders_of(s.core.config),
                host,
            ).len() == 0;
            &&& t.core.armed == (s.core.armed || sound)
            &&& t.fx.last() matches EffectView::Answer { to: a, reply } && a == to && (reply is Done
                <==> s.core.armed || sound)
            &&& t.fx.last() matches EffectView::Answer { reply: ReplyView::Error(why), .. } ==> {
                &&& s.core.config_error matches Some(e) ==> text::shows(why, e)
                &&& s.core.config_error is None && s.core.sensor_ok && !s.core.events_lost
                    && host.sensor_error is None ==> text::shows(
                    why,
                    step::joined(
                        responder::obstacles(responder::responders_of(s.core.config), host),
                    ),
                )
            }
        }),
{
    reveal(step::command);
    reveal(Step::publish);
    if let Some(e) = s.core.config_error {
        text::what_is_added_shows(
            "refusing to arm — the configuration is invalid:\n"@,
            e,
            Seq::empty(),
        );
    }
    text::what_is_added_shows(
        "refusing to arm — "@,
        step::joined(responder::obstacles(responder::responders_of(s.core.config), host)),
        Seq::empty(),
    );
}

/// What is published joins the list of past events at its end, with its time stamp; the list holds
/// the newest, in order, and no more than its limit.
pub proof fn past_events_are_the_newest(s: Step, at: Seq<char>, event: EventView)
    requires
        s.core.backlog.len() <= 200,
    ensures
        ({
            let after = s.publish(at, event).core.backlog;
            let all = s.core.backlog.push(StreamEventView { at, event });
            &&& after.len() == (if all.len() <= 200 {
                all.len() as int
            } else {
                200
            })
            &&& after == all.skip(all.len() - after.len())
        }),
{
    reveal(Step::publish);
    let all = s.core.backlog.push(StreamEventView { at, event });
    assert(all.skip(0) =~= all);
}

/// A subscription is for root, up to sixteen at once; a new subscriber is accepted first and then
/// sent every past event, oldest first, and it joins the others.
pub proof fn a_subscriber_is_sent_the_past(s: Step, peer: PeerCred, subscriber: u64, to: u64)
    ensures
        ({
            let t = step::subscribe(s, peer, subscriber, to);
            let taken = peer.uid == 0 && s.core.subscribers.len() < 16;
            &&& taken ==> {
                &&& t.core.subscribers.len() == s.core.subscribers.len() + 1
                &&& t.core.subscribers.last().token == subscriber
                &&& t.core.subscribers.last().consecutive_misses == 0
                &&& t.core.subscribers.drop_last() == s.core.subscribers
                &&& t.fx == s.fx.push(
                    (EffectView::Answer { to, reply: ReplyView::Done }),
                ).push((EffectView::Replay { subscriber, events: s.core.backlog }))
            }
            &&& !taken ==> t.core == s.core && (t.fx.last() matches EffectView::Answer {
                to: a,
                reply: ReplyView::Error(_),
            } && a == to)
        }),
{
    reveal(step::subscribe);
    let t = step::subscribe(s, peer, subscriber, to);
    if peer.uid == 0 && s.core.subscribers.len() < 16 {
        assert(t.core.subscribers.drop_last() =~= s.core.subscribers);
    }
}

/// After a delivery to each, the subscribers that are left are in the order they were in: those
/// that took the event with their misses forgotten, those whose queue was full with one miss more,
/// unless that made sixty-four in a row, and none that is gone.
pub proof fn subscribers_are_kept_in_order(
    subs: Seq<Subscriber>,
    outcomes: Seq<Delivery>,
    sub: Subscriber,
    outcome: Delivery,
)
    requires
        subs.len() == outcomes.len(),
        sub.consecutive_misses < 64,
    ensures
        ({
            let before = step::after_deliveries(subs, outcomes, subs.len());
            let after = step::after_deliveries(
                subs.push(sub),
                outcomes.push(outcome),
                subs.len() + 1,
            );
            match outcome {
                Delivery::Sent => after == before.push(
                    Subscriber { token: sub.token, consecutive_misses: 0 },
                ),
                Delivery::Full => if sub.consecutive_misses == 63 {
                    after == before
                } else {
                    after == before.push(
                        Subscriber {
                            token: sub.token,
                            consecutive_misses: (sub.consecutive_misses + 1) as u32,
                        },
                    )
                },
                Delivery::Disconnected => after == before,
            }
        }),
{
    deliveries_look_back(subs, outcomes, sub, outcome, subs.len());
}

proof fn deliveries_look_back(
    subs: Seq<Subscriber>,
    outcomes: Seq<Delivery>,
    sub: Subscriber,
    outcome: Delivery,
    n: nat,
)
    requires
        n <= subs.len(),
        subs.len() == outcomes.len(),
    ensures
        step::after_deliveries(subs.push(sub), outcomes.push(outcome), n)
            == step::after_deliveries(subs, outcomes, n),
    decreases n,
{
    if n > 0 {
        deliveries_look_back(subs, outcomes, sub, outcome, (n - 1) as nat);
    }
}

/// The daemon starts disarmed and blind: on a valid file it runs what the file says; on any other
/// it runs the config of an empty file, which lists no device, and keeps the reason, with which it
/// does not arm.
pub proof fn a_fresh_daemon_is_disarmed(
    path: Seq<char>,
    file: Result<RawConfigView, Seq<char>>,
    peer: PeerCred,
    to: u64,
    host: HostProbeView,
    at: Seq<char>,
)
    ensures
        ({
            let c = step::loaded(path, file);
            &&& !c.armed && !c.sensor_ok && !c.engaged && !c.events_lost && !c.config_stale
            &&& c.devices.connected.len() == 0 && c.subscribers.len() == 0 && c.backlog.len() == 0
            &&& c.pending is None && c.config_path == path
            &&& file matches Ok(raw) ==> (config::config_errors(raw).len() == 0 ==> c.raw == raw
                && c.config == config::resolved(raw) && c.config_error is None)
            &&& file matches Err(e) ==> c.config_error == Some(e)
            &&& file matches Ok(raw) ==> (config::config_errors(raw).len() > 0
                ==> c.config_error is Some)
            &&& c.config_error is Some ==> c.config.whitelist.len() == 0 && !step::command(
                Step { core: CoreView { sensor_ok: true, ..c }, fx: Seq::empty() },
                CommandView::Arm,
                peer,
                to,
                host,
                at,
            ).core.armed
        }),
{
    reveal(step::command);
    reveal(config::resolved);
    config::the_default_config_is_valid();
}

/// Arming at boot happens only where config asks for it, at once where the sensor watches and has
/// lost nothing, later where it does not watch yet, and never past a gap.
pub proof fn boot_arming_waits_for_the_sensor(s: Step, host: HostProbeView, at: Seq<char>)
    requires
        !s.core.armed,
        !s.core.boot_arm_pending,
    ensures
        ({
            let t = startup::after_settle(s, host, at);
            &&& !s.core.config.armed_at_boot || s.core.events_lost ==> !t.core.armed
                && !t.core.boot_arm_pending
            &&& !s.core.sensor_ok ==> !t.core.armed
            &&& s.core.config.armed_at_boot && !s.core.events_lost && !s.core.sensor_ok
                ==> t.core.boot_arm_pending
            &&& s.core.config.armed_at_boot && !s.core.events_lost && s.core.sensor_ok
                && s.core.config_error is None && host.sensor_error is None
                && responder::obstacles(
                responder::responders_of(s.core.config),
                host,
            ).len() == 0 ==> t.core.armed
        }),
{
    reveal(Step::publish);
}

/// A wish to arm at boot is granted when the sensor starts to watch, if nothing stands in the way,
/// and kept until then; without the wish, a sensor that starts arms nothing.
pub proof fn a_late_sensor_completes_the_boot_arm(s: Step, host: HostProbeView, at: Seq<char>)
    requires
        !s.core.armed,
    ensures
        ({
            let t = step::sensor_started(s, host, at);
            &&& !s.core.boot_arm_pending ==> !t.core.armed
            &&& s.core.boot_arm_pending ==> t.core.boot_arm_pending == !t.core.armed
            &&& s.core.boot_arm_pending && s.core.config_error is None && !s.core.events_lost
                && host.sensor_error is None && responder::obstacles(
                responder::responders_of(s.core.config),
                host,
            ).len() == 0 ==> t.core.armed
        }),
{
    reveal(step::sensor_started);
    reveal(Step::publish);
}

/// The subscribers are told of an arm exactly when it changes something.
pub proof fn an_arm_is_told(
    s: Step,
    peer: PeerCred,
    to: u64,
    host: HostProbeView,
    at: Seq<char>,
)
    requires
        peer.uid == 0,
    ensures
        ({
            let t = step::command(s, CommandView::Arm, peer, to, host, at);
            tells(s, t, at, EventView::Armed) <==> !s.core.armed && t.core.armed
        }),
{
    let t = step::command(s, CommandView::Arm, peer, to, host, at);
    assert(t == match step::arm_result(s.core, host) {
        None => step::arm(s, peer, host, at).answer(to, ReplyView::Done),
        Some(why) => step::arm(s, peer, host, at).log(journal::arm_refused(peer, why)).answer(
            to,
            ReplyView::Error(why),
        ),
    }) by {
        reveal(step::command);
    }
    reveal(Step::publish);
    let n = s.fx.len() as int;
    if !s.core.armed && t.core.armed {
        assert(t.fx[n + 1] == EffectView::Publish(
            StreamEventView { at, event: EventView::Armed },
        ));
    }
}

/// The subscribers are told of a disarm exactly when it changes something.
pub proof fn a_disarm_is_told(
    s: Step,
    peer: PeerCred,
    to: u64,
    host: HostProbeView,
    at: Seq<char>,
)
    requires
        peer.uid == 0,
    ensures
        tells(
            s,
            step::command(s, CommandView::Disarm, peer, to, host, at),
            at,
            EventView::Disarmed,
        ) <==> s.core.armed,
{
    let t = step::command(s, CommandView::Disarm, peer, to, host, at);
    assert(t == step::disarm(s, peer, at).answer(to, ReplyView::Done)) by {
        reveal(step::command);
    }
    reveal(Step::publish);
    let n = s.fx.len() as int;
    if s.core.armed {
        assert(t.fx[n + 1] == EffectView::Publish(
            StreamEventView { at, event: EventView::Disarmed },
        ));
    }
}

/// The subscribers are told of lost events the first time.
pub proof fn lost_events_are_told_once(s: Step, at: Seq<char>)
    ensures
        tells(s, step::sensor_lost(s, at), at, EventView::EventsLost) <==> !s.core.events_lost,
{
    reveal(step::sensor_lost);
    reveal(Step::publish);
    let n = s.fx.len() as int;
    let k = if step::gap_kills(s.core) {
        n + 2
    } else {
        n
    };
    if !s.core.events_lost {
        assert(step::sensor_lost(s, at).fx[k] == EffectView::Publish(
            StreamEventView { at, event: EventView::EventsLost },
        ));
    }
}

/// The subscribers are told of every stop of the sensor, for good or not, and that events were lost
/// if that is new.
pub proof fn a_stopped_sensor_is_told(s: Step, at: Seq<char>)
    ensures
        tells(s, step::sensor_restarting(s, at), at, EventView::SensorStopped),
        !s.core.events_lost ==> tells(
            s,
            step::sensor_restarting(s, at),
            at,
            EventView::EventsLost,
        ),
        tells(s, step::sensor_ended(s, at), at, EventView::SensorStopped),
        !s.core.events_lost ==> tells(s, step::sensor_ended(s, at), at, EventView::EventsLost),
{
    a_restart_is_told(s, at);
    an_end_is_told(s, at);
}

proof fn a_restart_is_told(s: Step, at: Seq<char>)
    ensures
        tells(s, step::sensor_restarting(s, at), at, EventView::SensorStopped),
        !s.core.events_lost ==> tells(
            s,
            step::sensor_restarting(s, at),
            at,
            EventView::EventsLost,
        ),
{
    reveal(step::sensor_restarting);
    reveal(Step::publish);
    let n = s.fx.len() as int;
    let k = if step::gap_kills(s.core) {
        n + 2
    } else {
        n
    };
    let j = if s.core.boot_arm_pending {
        k + 1
    } else {
        k
    };
    let t = step::sensor_restarting(s, at);
    assert(t.fx[j] == EffectView::Publish(
        StreamEventView { at, event: EventView::SensorStopped },
    ));
    if !s.core.events_lost {
        assert(t.fx[j + 1] == EffectView::Publish(
            StreamEventView { at, event: EventView::EventsLost },
        ));
    }
}

proof fn an_end_is_told(s: Step, at: Seq<char>)
    ensures
        tells(s, step::sensor_ended(s, at), at, EventView::SensorStopped),
        !s.core.events_lost ==> tells(s, step::sensor_ended(s, at), at, EventView::EventsLost),
{
    reveal(step::sensor_ended);
    reveal(Step::publish);
    let n = s.fx.len() as int;
    let k = if step::gap_kills(s.core) {
        n + 2
    } else {
        n
    };
    let t = step::sensor_ended(s, at);
    if s.core.events_lost {
        assert(t.fx[k] == EffectView::Publish(
            StreamEventView { at, event: EventView::SensorStopped },
        ));
    } else {
        assert(t.fx[k] == EffectView::Publish(
            StreamEventView { at, event: EventView::EventsLost },
        ));
        assert(t.fx[k + 1] == EffectView::Publish(
            StreamEventView { at, event: EventView::SensorStopped },
        ));
    }
}

/// Whether an event is told to the subscribers between one step and a later one.
pub open spec fn tells(s: Step, t: Step, at: Seq<char>, event: EventView) -> bool {
    exists|i: int|
        s.fx.len() <= i < t.fx.len() && #[trigger] t.fx[i] == EffectView::Publish(
            StreamEventView { at, event },
        )
}

/// Whoever is not root changes nothing: whatever command they send, the core stays as it is, nothing
/// is written, read again, published or dispatched, and the answer is an error, or one of the three
/// lists that anyone may see.
pub proof fn who_is_not_root_changes_nothing(
    s: Step,
    cmd: CommandView,
    peer: PeerCred,
    to: u64,
    host: HostProbeView,
    at: Seq<char>,
)
    requires
        peer.uid != 0,
    ensures
        ({
            let t = step::command(s, cmd, peer, to, host, at);
            &&& t.core == s.core
            &&& t.fx.last() matches EffectView::Answer { to: a, reply } && a == to && (reply is Error
                || reply is Status || reply is Devices || reply is Whitelist)
            &&& forall|i: int|
                s.fx.len() <= i < t.fx.len() - 1 ==> (#[trigger] t.fx[i]) is Log
        }),
{
    reveal(step::command);
}

/// What becomes of a config change that root asks for: it is refused where the daemon runs on no
/// config of its own, where another change is under way, where the change is not valid, and where it
/// would leave an armed daemon with a responder that cannot act; else exactly the changed config is
/// handed to the writer, and nothing takes effect yet.
pub proof fn a_change_is_written_before_it_counts(
    s: Step,
    raw: RawConfigView,
    change: Change,
    to: u64,
    host: HostProbeView,
)
    ensures
        ({
            let t = step::change_config(s, raw, change, to, host);
            let fine = s.core.config_error is None && s.core.pending is None
                && config::config_errors(raw).len() == 0 && (s.core.armed ==> responder::obstacles(
                responder::responders_of(config::resolved(raw)),
                host,
            ).len() == 0);
            &&& t.core == (CoreView { pending: t.core.pending, ..s.core })
            &&& fine ==> t.fx == s.fx.push(EffectView::Persist(raw)) && t.core.pending == Some(
                PendingView::Write { raw, change, to },
            )
            &&& !fine ==> t.core == s.core && (t.fx.last() matches EffectView::Answer {
                to: a,
                reply: ReplyView::Error(_),
            } && a == to)
        }),
{
}

/// What was written takes effect, is answered with success and is told to the subscribers; what could
/// not be written changes nothing, and the answer says why.
pub proof fn a_written_change_takes_effect(
    s: Step,
    raw: RawConfigView,
    change: Change,
    to: u64,
    result: Result<(), Seq<char>>,
    at: Seq<char>,
)
    requires
        s.core.pending == Some(PendingView::Write { raw, change, to }),
    ensures
        ({
            let t = step::config_written(s, result, at);
            &&& t.core.pending is None
            &&& t.core.armed == s.core.armed
            &&& result is Ok ==> {
                &&& t.core.raw == raw && t.core.config == config::resolved(raw)
                &&& t.core.config_error is None && !t.core.config_stale
                &&& t.fx.last() == (EffectView::Answer { to, reply: ReplyView::Done })
                &&& t.fx[t.fx.len() - 2] == EffectView::Publish(
                    StreamEventView {
                        at,
                        event: if change == Change::ConfigSet {
                            EventView::ConfigChanged
                        } else {
                            EventView::WhitelistChanged
                        },
                    },
                )
            }
            &&& result matches Err(why) ==> {
                &&& t.core.raw == s.core.raw && t.core.config == s.core.config
                &&& t.core.config_error == s.core.config_error
                &&& t.fx.last() matches EffectView::Answer { to: a, reply: ReplyView::Error(e) }
                    && a == to && text::shows(e, why)
            }
        }),
{
    reveal(step::config_written);
    reveal(Step::publish);
    if let Err(why) = result {
        text::what_is_added_shows(
            change.label() + ": could not write the config file: "@,
            why,
            Seq::empty(),
        );
    }
}

/// A reload that would leave an armed daemon with a responder that cannot act is rejected, and one
/// that another change is in the way of is refused; both leave what runs as it is.
pub proof fn a_reload_never_disarms_a_responder(
    s: Step,
    raw: RawConfigView,
    to: u64,
    host: HostProbeView,
    at: Seq<char>,
)
    ensures
        s.core.pending is Some ==> step::reload(s, to).core == s.core && (step::reload(
            s,
            to,
        ).fx.last() matches EffectView::Answer { reply: ReplyView::Error(_), .. }),
        s.core.pending is None ==> step::reload(s, to).fx.last() is Reload && step::reload(
            s,
            to,
        ).core.pending == Some(PendingView::Reload { to }),
        s.core.pending == Some(PendingView::Reload { to }) && s.core.armed && responder::obstacles(
            responder::responders_of(config::resolved(raw)),
            host,
        ).len() > 0 ==> {
            let t = step::config_reloaded(s, Ok(raw), host, at);
            &&& t.core.config == s.core.config && t.core.raw == s.core.raw && t.core.armed
            &&& t.core.config_stale && t.core.pending is None
            &&& t.fx.last() matches EffectView::Answer { to: a, reply: ReplyView::Error(_) } && a
                == to
        },
{
    reveal(step::config_reloaded);
    reveal(Step::publish);
}

/// A writer that is gone fails what it was working on, and nothing else.
pub proof fn a_dead_writer_fails_its_request(s: Step)
    ensures
        ({
            let t = step::writer_gone(s);
            &&& t.core == (CoreView { pending: None, ..s.core })
            &&& s.core.pending is None ==> t == s
            &&& s.core.pending is Some ==> (t.fx.last() matches EffectView::Answer {
                reply: ReplyView::Error(_),
                ..
            })
        }),
{
}

/// What ends the daemon: a signal, cleanly, and a sensor that cannot be kept running, with an error;
/// nothing else does.
pub proof fn only_a_signal_or_a_dead_sensor_ends_it(msg: MsgView)
    ensures
        step::flow(msg) is Shutdown <==> msg is Shutdown,
        step::flow(msg) is Failed <==> msg is SensorEnded,
        step::flow(msg) is Continue <==> !(msg is Shutdown) && !(msg is SensorEnded),
{
}

/// What was queued when the daemon began to stop is gone through in order: what the sensor says does
/// what it always does, everything else is dropped, and the device events are counted.
pub proof fn the_queue_is_gone_through_in_order(
    s: Step,
    queue: Seq<MsgView>,
    msg: MsgView,
    host: HostProbeView,
    at: Seq<char>,
)
    ensures
        step::drained(s, Seq::empty(), at) == s,
        step::drained(s, queue.push(msg), at) == (if msg is Sensor || msg is SensorLost
            || msg is SensorRestarting || msg is SensorEnded {
            step::handled(step::drained(s, queue, at), msg, host, at)
        } else {
            step::drained(s, queue, at)
        }),
        step::device_events(queue) == queue.filter(|m: MsgView| m is Sensor).len(),
    decreases queue.len(),
{
    assert(queue.push(msg).drop_last() =~= queue);
    reveal(Seq::filter);
    if queue.len() > 0 {
        the_queue_is_gone_through_in_order(s, queue.drop_last(), msg, host, at);
    }
}

/// What the log says when the daemon starts: that its config is invalid, as an error with the reason,
/// exactly where it is, and else what was loaded.
pub proof fn the_start_is_logged(c: CoreView)
    ensures
        c.config_error matches Some(e) ==> step::startup_line(c).level == LogLevel::Error
            && text::shows(step::startup_line(c).message, e),
        c.config_error is None ==> step::startup_line(c).level == LogLevel::Info
            && step::startup_line(c).message == "configuration loaded"@
            && step::startup_line(c).fields[0].value == text::decimal(c.config.whitelist.len()),
{
    reveal(journal::config_invalid);
    reveal(journal::config_loaded);
    if let Some(e) = c.config_error {
        text::what_is_added_shows(
            "configuration is INVALID — the daemon is running but WILL NOT ARM until it is fixed and reloaded (invariant 2):\n"@,
            e,
            Seq::empty(),
        );
    }
}

/// The failures of a preflight are told one after the other, none left out.
pub proof fn every_failure_is_told(failures: Seq<NotReadyView>, i: int)
    requires
        0 <= i < failures.len(),
    ensures
        text::shows(step::joined(failures), failures[i].reason),
        text::shows(step::joined(failures), text::debug_text(failures[i].responder)),
    decreases failures.len(),
{
    let last = failures.last();
    let name = text::debug_text(last.responder);
    let t0 = "responder "@ + name;
    let t1 = t0 + " is not ready: "@;
    text::what_is_added_shows("responder "@, name, Seq::empty());
    text::what_shows_stays(t0, name, " is not ready: "@);
    text::what_shows_stays(t1, name, last.reason);
    text::what_is_added_shows(t1, last.reason, Seq::empty());
    assert(last.text() == t1 + last.reason);
    if failures.len() > 1 {
        let rest = failures.drop_last();
        let front = step::joined(rest) + "; "@;
        if i < rest.len() {
            every_failure_is_told(rest, i);
            assert(rest[i] == failures[i]);
            let f = failures[i];
            text::what_shows_stays(step::joined(rest), f.reason, "; "@);
            text::what_shows_stays(front, f.reason, last.text());
            text::what_shows_stays(step::joined(rest), text::debug_text(f.responder), "; "@);
            text::what_shows_stays(front, text::debug_text(f.responder), last.text());
        } else {
            text::what_shows_stays(last.text(), last.reason, front);
            text::what_shows_stays(last.text(), name, front);
        }
    }
}

/// A table made from ids counts each of them as often as it is there.
pub proof fn a_table_counts_its_ids(ids: Seq<UsbId>, id: UsbId)
    requires
        ids.len() <= u32::MAX,
    ensures
        policy::held(device_table::all_inserted(ids), id) == ids.filter(
            |k: UsbId| k == id,
        ).len(),
{
    a_table_of_ids_counts_them(ids, id);
}

} // verus!
