//! The policy engine.
//!
//! One pure function: a sensor event, the config and the device table give a
//! [`Decision`]. Armed or disarmed is not its concern: the daemon decides on
//! every event, and dispatches to responders only when armed.
//!
//! | event | condition | decision |
//! |---|---|---|
//! | added | id not on whitelist | `Act(UnknownDevice)` |
//! | added | no readable id | `Act(UnidentifiedDevice)` |
//! | added | whitelisted, copies now > `max_count` | `Act(CountExceeded)` |
//! | added | whitelisted, within `max_count` | `Ignore` |
//! | removed | id is on the whitelist | `Act(WhitelistedDeviceRemoved)` |
//! | removed | anything else | `Act(DeviceRemoved)` |

use crate::killbilld::config::{Config, ConfigView, WhitelistRule, WhitelistRuleView};
use crate::killbilld::device_table;
use crate::killbilld::device_table::DeviceTable;
use crate::proto::action::{Action, KillReason};
use crate::proto::sensor_event::{EventKind, SensorEvent, UsbId};
use crate::text;
use vstd::prelude::*;

verus! {

/// The outcome of evaluating one event.
#[derive(Debug, Clone, Copy, PartialEq, Eq, Structural)]
pub enum Decision {
    /// The event is authorized or harmless. Do nothing.
    Ignore,
    /// The event is unauthorized. When armed, dispatch this to every responder.
    Act(Action),
}

/// How many copies of `id` the whitelist allows; `None` if it does not list the id.
pub open spec fn allowance(rules: Seq<WhitelistRuleView>, id: UsbId) -> Option<u32>
    decreases rules.len(),
{
    if rules.len() == 0 {
        None
    } else if rules[0].id == id {
        Some(rules[0].max_count)
    } else {
        allowance(rules.skip(1), id)
    }
}

/// Why a change is a kill, if it is one. `present` counts the devices before the change.
pub open spec fn kill_reason(
    kind: EventKind,
    usb_id: Option<UsbId>,
    rules: Seq<WhitelistRuleView>,
    present: Map<UsbId, u32>,
) -> Option<KillReason> {
    match (kind, usb_id) {
        (EventKind::Added, None) => Some(KillReason::UnidentifiedDevice),
        (EventKind::Added, Some(id)) => match allowance(rules, id) {
            None => Some(KillReason::UnknownDevice { id }),
            Some(max) => {
                let count = device_table::count_of(present, id);
                let seen = if count < u32::MAX {
                    (count + 1) as u32
                } else {
                    u32::MAX
                };
                if seen > max {
                    Some(KillReason::CountExceeded { id, max, seen })
                } else {
                    None
                }
            },
        },
        (EventKind::Removed, None) => Some(KillReason::DeviceRemoved { id: None }),
        (EventKind::Removed, Some(id)) => if allowance(rules, id) is Some {
            Some(KillReason::WhitelistedDeviceRemoved { id })
        } else {
            Some(KillReason::DeviceRemoved { id: Some(id) })
        },
    }
}

/// The action for a kill: config says what it does, and destruction takes both the config's
/// acknowledged section and the runtime toggle.
pub open spec fn action_for(cfg: ConfigView, reason: KillReason, engaged: bool) -> Action {
    Action {
        reason,
        power: cfg.power_action,
        luks_destroy: cfg.luks_destroy is Some && engaged,
        dry_run: cfg.dry_run,
    }
}

/// The decision on a change.
pub open spec fn decision(
    kind: EventKind,
    usb_id: Option<UsbId>,
    cfg: ConfigView,
    present: Map<UsbId, u32>,
    engaged: bool,
) -> Decision {
    match kill_reason(kind, usb_id, cfg.whitelist, present) {
        Some(reason) => Decision::Act(action_for(cfg, reason, engaged)),
        None => Decision::Ignore,
    }
}

/// How many copies of `id` the whitelist allows; `None` if it does not list the id.
pub fn allowed_count(rules: &Vec<WhitelistRule>, id: UsbId) -> (r: Option<u32>)
    ensures
        r == allowance(text::views(rules@), id),
{
    let ghost all = text::views(rules@);
    let mut i: usize = 0;
    assert(all.skip(0) == all);
    while i < rules.len()
        invariant
            i <= rules@.len(),
            all == text::views(rules@),
            allowance(all, id) == allowance(all.skip(i as int), id),
        decreases rules@.len() - i,
    {
        proof {
            assert(all.skip(i as int)[0] == rules@[i as int]@);
            assert(all.skip(i as int).skip(1) == all.skip(i + 1));
        }
        if rules[i].id == id {
            return Some(rules[i].max_count);
        }
        i += 1;
    }
    None
}

/// Build an `Act` decision, stamping it with the config's response settings.
fn act(cfg: &Config, reason: KillReason, luks_destroy_engaged: bool) -> (r: Decision)
    ensures
        r == Decision::Act(action_for(cfg@, reason, luks_destroy_engaged)),
{
    Decision::Act(
        Action {
            reason,
            power: cfg.power_action,
            luks_destroy: cfg.luks_destroy.is_some() && luks_destroy_engaged,
            dry_run: cfg.dry_run,
        },
    )
}

/// The decision on a change to the device set.
///
/// `table` must be the device table as it was **before** the change.
pub fn decide_change(
    kind: EventKind,
    usb_id: Option<UsbId>,
    cfg: &Config,
    table: &DeviceTable,
    luks_destroy_engaged: bool,
) -> (r: Decision)
    ensures
        r == decision(kind, usb_id, cfg@, table@, luks_destroy_engaged),
{
    match kind {
        EventKind::Added => decide_added(usb_id, cfg, table, luks_destroy_engaged),
        EventKind::Removed => decide_removed(usb_id, cfg, luks_destroy_engaged),
    }
}

/// Evaluate one sensor event against policy.
///
/// `table` must be the device table as it was **before** `event` is applied: the
/// daemon calls `decide` first, then updates the table.
///
/// `luks_destroy_engaged` is the runtime toggle, not config.
pub fn decide(
    event: &SensorEvent,
    cfg: &Config,
    table: &DeviceTable,
    luks_destroy_engaged: bool,
) -> (r: Decision)
    ensures
        r == decision(event.kind, event.identity.usb_id, cfg@, table@, luks_destroy_engaged),
{
    decide_change(event.kind, event.identity.usb_id, cfg, table, luks_destroy_engaged)
}

fn decide_added(
    usb_id: Option<UsbId>,
    cfg: &Config,
    table: &DeviceTable,
    luks_destroy_engaged: bool,
) -> (r: Decision)
    ensures
        r == decision(EventKind::Added, usb_id, cfg@, table@, luks_destroy_engaged),
{
    match usb_id {
        None => act(cfg, KillReason::UnidentifiedDevice, luks_destroy_engaged),
        Some(id) => match allowed_count(&cfg.whitelist, id) {
            None => act(cfg, KillReason::UnknownDevice { id }, luks_destroy_engaged),
            Some(max) => {
                let seen: u32 = table.count(id).saturating_add(1);
                if seen > max {
                    act(cfg, KillReason::CountExceeded { id, max, seen }, luks_destroy_engaged)
                } else {
                    Decision::Ignore
                }
            },
        },
    }
}

fn decide_removed(usb_id: Option<UsbId>, cfg: &Config, luks_destroy_engaged: bool) -> (r: Decision)
    ensures
        forall|present: Map<UsbId, u32>|
            r == #[trigger] decision(
                EventKind::Removed,
                usb_id,
                cfg@,
                present,
                luks_destroy_engaged,
            ),
{
    match usb_id {
        Some(id) => if allowed_count(&cfg.whitelist, id).is_some() {
            act(cfg, KillReason::WhitelistedDeviceRemoved { id }, luks_destroy_engaged)
        } else {
            act(cfg, KillReason::DeviceRemoved { id: Some(id) }, luks_destroy_engaged)
        },
        None => act(cfg, KillReason::DeviceRemoved { id: None }, luks_destroy_engaged),
    }
}

/// Removing any device acts, whatever the whitelist says.
pub proof fn every_removal_acts(
    usb_id: Option<UsbId>,
    cfg: ConfigView,
    present: Map<UsbId, u32>,
    engaged: bool,
)
    ensures
        decision(EventKind::Removed, usb_id, cfg, present, engaged) is Act,
{
}

/// An addition is ignored only for a whitelisted id with room left: a listed id whose count,
/// this device included, stays within the allowance.
pub proof fn only_whitelisted_additions_are_ignored(
    usb_id: Option<UsbId>,
    cfg: ConfigView,
    present: Map<UsbId, u32>,
    engaged: bool,
)
    ensures
        decision(EventKind::Added, usb_id, cfg, present, engaged) is Ignore <==> (usb_id matches Some(
            id,
        ) && allowance(cfg.whitelist, id) matches Some(max) && (device_table::count_of(present, id)
            < max || max == u32::MAX)),
{
}

/// Destruction takes both opt-ins: neither the config nor the runtime toggle is enough alone.
pub proof fn destruction_takes_both_opt_ins(
    kind: EventKind,
    usb_id: Option<UsbId>,
    cfg: ConfigView,
    present: Map<UsbId, u32>,
    engaged: bool,
)
    ensures
        decision(kind, usb_id, cfg, present, engaged) matches Decision::Act(a) ==> (a.luks_destroy
            <==> cfg.luks_destroy is Some && engaged),
{
}

/// Neither dry run, nor the power action, nor the destruction settings change whether an
/// event is a kill, or why.
pub proof fn response_settings_do_not_decide(
    kind: EventKind,
    usb_id: Option<UsbId>,
    a: ConfigView,
    b: ConfigView,
    present: Map<UsbId, u32>,
    engaged_a: bool,
    engaged_b: bool,
)
    requires
        a.whitelist == b.whitelist,
    ensures
        match (
            decision(kind, usb_id, a, present, engaged_a),
            decision(kind, usb_id, b, present, engaged_b),
        ) {
            (Decision::Act(x), Decision::Act(y)) => x.reason == y.reason,
            (Decision::Ignore, Decision::Ignore) => true,
            _ => false,
        },
{
}

/// The whitelist goes by whole ids: it allows an id exactly where one of its rules has the same
/// vendor and the same product, and it allows as many copies as the first such rule says.
pub proof fn a_rule_is_for_one_whole_id(rules: Seq<WhitelistRuleView>, id: UsbId)
    ensures
        allowance(rules, id) is Some <==> exists|i: int|
            0 <= i < rules.len() && (#[trigger] rules[i]).id.vendor == id.vendor
                && rules[i].id.product == id.product,
        forall|i: int|
            0 <= i < rules.len() && (#[trigger] rules[i]).id.vendor == id.vendor
                && rules[i].id.product == id.product && (forall|j: int|
                0 <= j < i ==> (#[trigger] rules[j]).id != id) ==> allowance(rules, id) == Some(
                rules[i].max_count,
            ),
    decreases rules.len(),
{
    if rules.len() > 0 {
        let rest = rules.skip(1);
        a_rule_is_for_one_whole_id(rest, id);
        assert forall|i: int| 1 <= i < rules.len() implies rest[i - 1] == #[trigger] rules[i] by {}
        if rules[0].id != id {
            if allowance(rules, id) is Some {
                let i = choose|i: int|
                    0 <= i < rest.len() && (#[trigger] rest[i]).id.vendor == id.vendor
                        && rest[i].id.product == id.product;
                assert(rules[i + 1].id == id);
            }
            assert forall|i: int|
                0 <= i < rules.len() && (#[trigger] rules[i]).id.vendor == id.vendor
                    && rules[i].id.product == id.product && (forall|j: int|
                    0 <= j < i ==> (#[trigger] rules[j]).id != id) implies allowance(rules, id)
                == Some(rules[i].max_count) by {
                assert(i >= 1);
                assert(rest[i - 1].id == id);
                assert forall|j: int| 0 <= j < i - 1 implies (#[trigger] rest[j]).id != id by {
                    assert(rules[j + 1].id != id);
                }
            }
        } else {
            assert(rules[0].id.vendor == id.vendor);
        }
    }
}

/// How many devices stand under an id in a table, none if the table does not have it.
pub open spec fn held(present: Map<UsbId, u32>, id: UsbId) -> int {
    if present.contains_key(id) {
        present[id] as int
    } else {
        0
    }
}

/// A stranger is a kill: a device is unknown where no rule has its id, and unidentified where its
/// id cannot be read, whatever else is plugged in.
pub proof fn a_stranger_is_a_kill(
    usb_id: Option<UsbId>,
    cfg: ConfigView,
    present: Map<UsbId, u32>,
    engaged: bool,
)
    ensures
        usb_id is None ==> (decision(EventKind::Added, usb_id, cfg, present, engaged) matches
            Decision::Act(a) && a.reason == KillReason::UnidentifiedDevice),
        usb_id matches Some(id) && (forall|i: int|
            0 <= i < cfg.whitelist.len() ==> (#[trigger] cfg.whitelist[i]).id != id) ==> (decision(
            EventKind::Added,
            usb_id,
            cfg,
            present,
            engaged,
        ) matches Decision::Act(a) && a.reason == KillReason::UnknownDevice { id: usb_id->0 }),
{
    if let Some(id) = usb_id {
        a_rule_is_for_one_whole_id(cfg.whitelist, id);
    }
}

/// A listed device is let in up to its count: where a rule has its id, and no earlier rule does,
/// one more copy is a kill exactly where the copies already there and this one exceed the rule's
/// count, and the kill says how many there are against how many may be.
pub proof fn a_listed_device_is_let_in_up_to_its_count(
    i: int,
    cfg: ConfigView,
    present: Map<UsbId, u32>,
    engaged: bool,
)
    requires
        0 <= i < cfg.whitelist.len(),
        forall|j: int|
            0 <= j < i ==> (#[trigger] cfg.whitelist[j]).id != cfg.whitelist[i].id,
        held(present, cfg.whitelist[i].id) < u32::MAX,
    ensures
        ({
            let id = cfg.whitelist[i].id;
            let max = cfg.whitelist[i].max_count;
            let now = held(present, id) + 1;
            match decision(EventKind::Added, Some(id), cfg, present, engaged) {
                Decision::Ignore => now <= max,
                Decision::Act(a) => now > max && a.reason == (KillReason::CountExceeded {
                    id,
                    max,
                    seen: now as u32,
                }),
            }
        }),
{
    a_rule_is_for_one_whole_id(cfg.whitelist, cfg.whitelist[i].id);
    assert(cfg.whitelist[i].id.vendor == cfg.whitelist[i].id.vendor);
}

/// An unplugged device is a kill that names it, and says whether it was a listed one.
pub proof fn an_unplugged_device_is_named(
    usb_id: Option<UsbId>,
    cfg: ConfigView,
    present: Map<UsbId, u32>,
    engaged: bool,
)
    ensures
        decision(EventKind::Removed, usb_id, cfg, present, engaged) matches Decision::Act(a) && (
        match a.reason {
            KillReason::WhitelistedDeviceRemoved { id } => usb_id == Some(id) && exists|i: int|
                0 <= i < cfg.whitelist.len() && (#[trigger] cfg.whitelist[i]).id == id,
            KillReason::DeviceRemoved { id } => id == usb_id && forall|i: int|
                0 <= i < cfg.whitelist.len() ==> Some((#[trigger] cfg.whitelist[i]).id) != usb_id,
            _ => false,
        }),
{
    if let Some(id) = usb_id {
        a_rule_is_for_one_whole_id(cfg.whitelist, id);
    }
}

/// A kill does what config says: its power action and its dry run are the config's, whatever set
/// it off.
pub proof fn a_kill_does_what_config_says(
    kind: EventKind,
    usb_id: Option<UsbId>,
    cfg: ConfigView,
    present: Map<UsbId, u32>,
    engaged: bool,
)
    ensures
        decision(kind, usb_id, cfg, present, engaged) matches Decision::Act(a) ==> a.power
            == cfg.power_action && a.dry_run == cfg.dry_run,
{
}

} // verus!
