//! What the command line does to the daemon, and what its output says.

use crate::killbillctl;
use crate::killbillctl::{StreamRead, StreamStep, Subcommand, SubcommandView};
use crate::killbilld::config;
use crate::killbilld::control::PeerCred;
use crate::killbilld::daemon::laws;
use crate::killbilld::daemon::state::EffectView;
use crate::killbilld::daemon::step;
use crate::killbilld::daemon::step::Step;
use crate::killbilld::responder::HostProbeView;
use crate::proto::action::{KillReason, PowerAction};
use crate::proto::debug;
use crate::proto::protocol;
use crate::proto::protocol::{
    CommandView, ConfigChange, ConfigPayloadView, DeviceInfo, DeviceInfoView, EventView, OnSensorGap, ReplyView,
    StatusPayload, WhitelistEntryView,
};
use crate::proto::sensor_event;
use crate::proto::sensor_event::UsbId;
use crate::text;
use vstd::prelude::*;

verus! {

/// The row of a device starts with `NEW` exactly where the device is not whitelisted, and with
/// `ok ` exactly where it is; then comes its id, and last its label and serial, made safe.
pub proof fn a_stranger_is_marked_new(d: &DeviceInfo)
    ensures
        ({
            let row = killbillctl::device_row(d@);
            &&& "NEW"@.is_prefix_of(row) <==> !d.whitelisted
            &&& "ok "@.is_prefix_of(row) <==> d.whitelisted
            &&& d.id matches Some(id) ==> text::shows_at(row, id.text(), 5)
            &&& d.id is None ==> text::shows_at(row, "????:????"@, 5)
            &&& d.label matches Some(l) ==> text::shows(
                row,
                "  "@ + protocol::sanitized(l@) + " "@,
            )
            &&& d.serial matches Some(n) ==> text::shows(
                row,
                " "@ + protocol::sanitized(n@) + "\n"@,
            )
        }),
{
    reveal_strlit("NEW");
    reveal_strlit("ok ");
    reveal_strlit("  ");
    let row = killbillctl::device_row(d@);
    let mark = if d.whitelisted {
        "ok "@
    } else {
        "NEW"@
    };
    let id = killbillctl::id_text(d.id);
    let label = killbillctl::safe_text(d@.label);
    let serial = killbillctl::safe_text(d@.serial);
    let a = mark + "  "@ + id;
    let b = a + "  "@ + label + " "@;
    assert(row == b + serial + "\n"@);
    assert(row.subrange(0, 3) =~= mark);
    assert("NEW"@[0] != "ok "@[0]);
    assert(row.subrange(5, (5 + id.len()) as int) =~= id);
    assert(text::shows_at(row, id, 5));
    assert(row.subrange(a.len() as int, b.len() as int) =~= "  "@ + label + " "@);
    assert(text::shows_at(row, "  "@ + label + " "@, a.len() as int));
    reveal_strlit(" ");
    assert(row.subrange(b.len() - 1, row.len() as int) =~= " "@ + serial + "\n"@);
    assert(text::shows_at(row, " "@ + serial + "\n"@, b.len() - 1));
}

/// A listing is made row by row, in order: that of two lists one after the other is the two
/// listings, and that of one device is its row.
pub proof fn devices_are_listed_in_order(a: Seq<DeviceInfoView>, b: Seq<DeviceInfoView>, d: DeviceInfoView)
    requires
        a.len() > 0,
        b.len() > 0,
    ensures
        killbillctl::devices_text(a + b) == killbillctl::devices_text(a)
            + killbillctl::devices_text(b),
        killbillctl::devices_text(seq![d]) == killbillctl::device_row(d),
{
    device_rows_add(a, b);
    assert(seq![d].drop_last() =~= Seq::empty());
    assert(killbillctl::device_rows(Seq::<DeviceInfoView>::empty()) == Seq::<char>::empty());
    assert(killbillctl::device_rows(seq![d]) =~= killbillctl::device_row(d));
}

proof fn device_rows_add(a: Seq<DeviceInfoView>, b: Seq<DeviceInfoView>)
    ensures
        killbillctl::device_rows(a + b) == killbillctl::device_rows(a) + killbillctl::device_rows(b),
    decreases b.len(),
{
    if b.len() == 0 {
        assert(a + b =~= a);
        assert(killbillctl::device_rows(a) + Seq::<char>::empty() =~= killbillctl::device_rows(a));
    } else {
        device_rows_add(a, b.drop_last());
        assert((a + b).drop_last() =~= a + b.drop_last());
        assert(killbillctl::device_rows(a) + (killbillctl::device_rows(b.drop_last())
            + killbillctl::device_row(b.last())) =~= killbillctl::device_rows(a)
            + killbillctl::device_rows(b.drop_last()) + killbillctl::device_row(b.last()));
    }
}

proof fn still(s: Seq<char>, part: Seq<char>, a: Seq<char>, b: Seq<char>)
    requires
        text::shows(s, part),
    ensures
        text::shows(s + a + b, part),
{
    text::what_shows_stays(s, part, a);
    text::what_shows_stays(s + a, part, b);
}

proof fn starts_still(s: Seq<char>, part: Seq<char>, a: Seq<char>, b: Seq<char>)
    requires
        text::shows_at(s, part, 0),
    ensures
        text::shows_at(s + a + b, part, 0),
{
    text::a_start_stays(s, part, a);
    text::a_start_stays(s + a, part, b);
}

/// The words for a flag.
pub open spec fn says(flag: bool) -> Seq<char> {
    if flag {
        "yes"@
    } else {
        "no"@
    }
}

/// What a status snapshot prints says of each thing what the snapshot does.
pub proof fn the_status_is_printed_as_it_is(s: &StatusPayload)
    ensures
        ({
            let t = killbillctl::status_text(s@);
            &&& text::shows_at(t, "armed:         "@ + says(s.armed), 0)
            &&& text::shows(t, "\ndry-run:       "@ + says(s.dry_run))
            &&& text::shows(
                t,
                "\npower action:  "@ + (match s.power_action {
                    PowerAction::PowerOff => "poweroff"@,
                    PowerAction::Halt => "halt"@,
                    PowerAction::NoAction => "none"@,
                }),
            )
            &&& text::shows(
                t,
                "\nsensor:        "@ + (if s.sensor_ok {
                    "ok"@
                } else {
                    "STOPPED"@
                }),
            )
            &&& s.events_lost ==> text::shows(
                t,
                "\n               EVENTS LOST — some device changes were missed; restart killbilld"@,
            )
            &&& text::shows(
                t,
                "\nwhitelist:     "@ + text::decimal(s.whitelist_len as nat),
            )
            &&& text::shows(
                t,
                " entries\ndevices seen:  "@ + text::decimal(s.device_count as nat),
            )
            &&& text::shows(
                t,
                "\nconfig:        "@ + (match s.config_error {
                    Some(e) => "INVALID — will not arm\n\n"@ + e@ + "\n"@,
                    None => if s.config_stale {
                        "STALE — a reload was rejected; the running config differs from the file on disk. Fix the file and run `killbillctl reload`.\n"@
                    } else {
                        "ok\n"@
                    },
                }),
            )
        }),
{
    let v = s@;
    let lost = if v.events_lost {
        "\n               EVENTS LOST — some device changes were missed; restart killbilld"@
    } else {
        Seq::empty()
    };
    let sensor = if v.sensor_ok {
        "ok"@
    } else {
        "STOPPED"@
    };
    let config = match v.config_error {
        Some(e) => "INVALID — will not arm\n\n"@ + e + "\n"@,
        None => if v.config_stale {
            "STALE — a reload was rejected; the running config differs from the file on disk. Fix the file and run `killbillctl reload`.\n"@
        } else {
            "ok\n"@
        },
    };
    let armed = killbillctl::yes_no_of(v.armed);
    let dry = killbillctl::yes_no_of(v.dry_run);
    let power = v.power_action.word();
    let listed = text::decimal(v.whitelist_len as nat);
    let seen = text::decimal(v.device_count as nat);
    let t0 = "armed:         "@ + armed;
    let t1 = t0 + "\ndry-run:       "@ + dry;
    let t2 = t1 + "\npower action:  "@ + power;
    let t3 = t2 + "\nsensor:        "@ + sensor;
    let t4 = t3 + lost + Seq::<char>::empty();
    let t5 = t4 + "\nwhitelist:     "@ + listed;
    let t6 = t5 + " entries\ndevices seen:  "@ + seen;
    let t7 = t6 + "\nconfig:        "@ + config;
    assert(t7 == killbillctl::status_text(v)) by {
        assert(t3 + lost + Seq::<char>::empty() =~= t3 + lost);
    }
    assert(t0.subrange(0, t0.len() as int) =~= t0);
    starts_still(t0, t0, "\ndry-run:       "@, dry);
    text::what_is_added_shows(t0, "\ndry-run:       "@, dry);
    still(t1, "\ndry-run:       "@ + dry, "\npower action:  "@, power);
    starts_still(t1, t0, "\npower action:  "@, power);
    text::what_is_added_shows(t1, "\npower action:  "@, power);
    still(t2, "\ndry-run:       "@ + dry, "\nsensor:        "@, sensor);
    still(t2, "\npower action:  "@ + power, "\nsensor:        "@, sensor);
    starts_still(t2, t0, "\nsensor:        "@, sensor);
    text::what_is_added_shows(t2, "\nsensor:        "@, sensor);
    still(t3, "\ndry-run:       "@ + dry, lost, Seq::empty());
    still(t3, "\npower action:  "@ + power, lost, Seq::empty());
    still(t3, "\nsensor:        "@ + sensor, lost, Seq::empty());
    starts_still(t3, t0, lost, Seq::empty());
    text::what_is_added_shows(t3, lost, Seq::empty());
    still(t4, "\ndry-run:       "@ + dry, "\nwhitelist:     "@, listed);
    still(t4, "\npower action:  "@ + power, "\nwhitelist:     "@, listed);
    still(t4, "\nsensor:        "@ + sensor, "\nwhitelist:     "@, listed);
    still(t4, lost + Seq::empty(), "\nwhitelist:     "@, listed);
    starts_still(t4, t0, "\nwhitelist:     "@, listed);
    text::what_is_added_shows(t4, "\nwhitelist:     "@, listed);
    still(t5, "\ndry-run:       "@ + dry, " entries\ndevices seen:  "@, seen);
    still(t5, "\npower action:  "@ + power, " entries\ndevices seen:  "@, seen);
    still(t5, "\nsensor:        "@ + sensor, " entries\ndevices seen:  "@, seen);
    still(t5, lost + Seq::empty(), " entries\ndevices seen:  "@, seen);
    still(t5, "\nwhitelist:     "@ + listed, " entries\ndevices seen:  "@, seen);
    starts_still(t5, t0, " entries\ndevices seen:  "@, seen);
    text::what_is_added_shows(t5, " entries\ndevices seen:  "@, seen);
    still(t6, "\ndry-run:       "@ + dry, "\nconfig:        "@, config);
    still(t6, "\npower action:  "@ + power, "\nconfig:        "@, config);
    still(t6, "\nsensor:        "@ + sensor, "\nconfig:        "@, config);
    still(t6, lost + Seq::empty(), "\nconfig:        "@, config);
    still(t6, "\nwhitelist:     "@ + listed, "\nconfig:        "@, config);
    still(t6, " entries\ndevices seen:  "@ + seen, "\nconfig:        "@, config);
    starts_still(t6, t0, "\nconfig:        "@, config);
    text::what_is_added_shows(t6, "\nconfig:        "@, config);
    assert(lost + Seq::<char>::empty() =~= lost);
}

/// The row of a whitelist entry says whether it is connected, then its id, how many copies may be
/// there, one if the entry does not say, and its label, made safe.
pub proof fn an_entry_is_marked_by_what_is_connected(e: WhitelistEntryView, connected: bool)
    ensures
        ({
            let row = killbillctl::entry_row(e, connected);
            &&& connected ==> text::shows_at(row, "connected  "@ + e.id.text(), 0)
            &&& !connected ==> text::shows_at(row, "absent     "@ + e.id.text(), 0)
            &&& e.max_count matches Some(n) ==> text::shows(
                row,
                "  max="@ + text::decimal(n as nat),
            )
            &&& e.max_count is None ==> text::shows(row, "  max="@ + text::decimal(1))
            &&& e.label matches Some(l) ==> text::shows(row, "  "@ + protocol::sanitized(l))
        }),
{
    let mark = if connected {
        "connected  "@
    } else {
        "absent     "@
    };
    let n = text::decimal(
        match e.max_count {
            Some(n) => n as nat,
            None => 1,
        },
    );
    let label = killbillctl::safe_text(e.label);
    let row = killbillctl::entry_row(e, connected);
    let t0 = mark + e.id.text();
    let t1 = t0 + "  max="@ + n;
    let t2 = t1 + "  "@ + label;
    assert(row == t2 + "\n"@);
    assert(row.subrange(0, t0.len() as int) =~= t0);
    text::what_is_added_shows(t0, "  max="@, n);
    let r1 = "  "@ + label + "\n"@;
    text::what_shows_stays(t1, "  max="@ + n, r1);
    assert(row =~= t1 + r1);
    text::what_is_added_shows(t1, "  "@, label);
    text::what_shows_stays(t2, "  "@ + label, "\n"@);
}

/// The whitelist is listed entry by entry, in order, and an entry counts as connected exactly
/// where one of the devices has its id.
pub proof fn the_whitelist_is_listed_in_order(
    a: Seq<WhitelistEntryView>,
    b: Seq<WhitelistEntryView>,
    e: WhitelistEntryView,
    devices: Seq<DeviceInfoView>,
)
    requires
        a.len() > 0,
        b.len() > 0,
    ensures
        ({
            let ids = killbillctl::connected_ids_of(devices);
            &&& killbillctl::whitelist_text(a + b, ids) == killbillctl::whitelist_text(a, ids)
                + killbillctl::whitelist_text(b, ids)
            &&& killbillctl::whitelist_text(seq![e], ids) == killbillctl::entry_row(
                e,
                exists|i: int| 0 <= i < devices.len() && (#[trigger] devices[i]).id == Some(e.id),
            )
        }),
{
    let ids = killbillctl::connected_ids_of(devices);
    entry_rows_add(a, b, ids);
    killbillctl::a_connected_id_has_a_device(devices, e.id);
    assert(seq![e].drop_last() =~= Seq::empty());
    assert(killbillctl::entry_rows(Seq::<WhitelistEntryView>::empty(), ids) == Seq::<char>::empty());
    assert(killbillctl::entry_rows(seq![e], ids) =~= killbillctl::entry_row(e, ids.contains(e.id)));
}

proof fn entry_rows_add(a: Seq<WhitelistEntryView>, b: Seq<WhitelistEntryView>, ids: Seq<UsbId>)
    ensures
        killbillctl::entry_rows(a + b, ids) == killbillctl::entry_rows(a, ids)
            + killbillctl::entry_rows(b, ids),
    decreases b.len(),
{
    if b.len() == 0 {
        assert(a + b =~= a);
        assert(killbillctl::entry_rows(a, ids) + Seq::<char>::empty() =~= killbillctl::entry_rows(
            a,
            ids,
        ));
    } else {
        entry_rows_add(a, b.drop_last(), ids);
        assert((a + b).drop_last() =~= a + b.drop_last());
        let last = killbillctl::entry_row(b.last(), ids.contains(b.last().id));
        assert(killbillctl::entry_rows(a, ids) + (killbillctl::entry_rows(b.drop_last(), ids)
            + last) =~= killbillctl::entry_rows(a, ids) + killbillctl::entry_rows(
            b.drop_last(),
            ids,
        ) + last);
    }
}

/// What the running config prints says of each setting what the config does: the destruction
/// target and whether it is engaged, and, where the file on disk is invalid, that it is and why.
pub proof fn the_config_is_printed_as_it_is(c: ConfigPayloadView)
    ensures
        ({
            let t = killbillctl::config_text(c);
            &&& text::shows_at(t, "armed_at_boot: "@ + says(c.armed_at_boot), 0)
            &&& c.sensors.len() == 1 ==> text::shows(t, "\nsensors:       "@ + c.sensors[0])
            &&& text::shows(t, "\ndry_run:       "@ + says(c.dry_run))
            &&& text::shows(
                t,
                "\npower_action:  "@ + (match c.power_action {
                    PowerAction::PowerOff => "poweroff"@,
                    PowerAction::Halt => "halt"@,
                    PowerAction::NoAction => "none"@,
                }),
            )
            &&& text::shows(
                t,
                "\non_sensor_gap: "@ + (match c.on_sensor_gap {
                    OnSensorGap::Warn => "warn"@,
                    OnSensorGap::Kill => "kill"@,
                }),
            )
            &&& c.luks_destroy is None ==> text::shows(t, "\nluks_destroy:  "@ + "not configured\n"@)
            &&& c.luks_destroy matches Some(l) ==> text::shows(
                t,
                "\nluks_destroy:  "@ + ("configured, target "@ + protocol::sanitized(
                    l.target_header,
                ) + "  (engaged: "@ + (if l.engaged {
                    "YES"@
                } else {
                    "no"@
                }) + ")\n"@),
            )
            &&& c.validation_error matches Some(e) ==> text::shows(
                t,
                "\nNOTE: the config file on disk is currently INVALID; the above is the last-good running configuration, not what's in the file:\n"@
                    + e + "\n"@,
            )
        }),
{
    let boot = killbillctl::yes_no_of(c.armed_at_boot);
    let sensors = debug::commas(c.sensors);
    let dry = killbillctl::yes_no_of(c.dry_run);
    let power = c.power_action.word();
    let gap = c.on_sensor_gap.word();
    let luks = match c.luks_destroy {
        Some(l) => "configured, target "@ + protocol::sanitized(l.target_header) + "  (engaged: "@ + (
        if l.engaged {
            "YES"@
        } else {
            "no"@
        }) + ")\n"@,
        None => "not configured\n"@,
    };
    let note = match c.validation_error {
        Some(e) => {
            "\nNOTE: the config file on disk is currently INVALID; the above is the last-good running configuration, not what's in the file:\n"@
                + e + "\n"@
        },
        None => Seq::empty(),
    };
    let t0 = "armed_at_boot: "@ + boot;
    let t1 = t0 + "\nsensors:       "@ + sensors;
    let t2 = t1 + "\ndry_run:       "@ + dry;
    let t3 = t2 + "\npower_action:  "@ + power;
    let t4 = t3 + "\non_sensor_gap: "@ + gap;
    let t5 = t4 + "\nluks_destroy:  "@ + luks;
    let t6 = t5 + note + Seq::<char>::empty();
    assert(t6 =~= t5 + note);
    assert(t6 == killbillctl::config_text(c));
    assert(t0.subrange(0, t0.len() as int) =~= t0);
    starts_still(t0, t0, "\nsensors:       "@, sensors);
    text::what_is_added_shows(t0, "\nsensors:       "@, sensors);
    still(t1, "\nsensors:       "@ + sensors, "\ndry_run:       "@, dry);
    starts_still(t1, t0, "\ndry_run:       "@, dry);
    text::what_is_added_shows(t1, "\ndry_run:       "@, dry);
    still(t2, "\nsensors:       "@ + sensors, "\npower_action:  "@, power);
    still(t2, "\ndry_run:       "@ + dry, "\npower_action:  "@, power);
    starts_still(t2, t0, "\npower_action:  "@, power);
    text::what_is_added_shows(t2, "\npower_action:  "@, power);
    still(t3, "\nsensors:       "@ + sensors, "\non_sensor_gap: "@, gap);
    still(t3, "\ndry_run:       "@ + dry, "\non_sensor_gap: "@, gap);
    still(t3, "\npower_action:  "@ + power, "\non_sensor_gap: "@, gap);
    starts_still(t3, t0, "\non_sensor_gap: "@, gap);
    text::what_is_added_shows(t3, "\non_sensor_gap: "@, gap);
    still(t4, "\nsensors:       "@ + sensors, "\nluks_destroy:  "@, luks);
    still(t4, "\ndry_run:       "@ + dry, "\nluks_destroy:  "@, luks);
    still(t4, "\npower_action:  "@ + power, "\nluks_destroy:  "@, luks);
    still(t4, "\non_sensor_gap: "@ + gap, "\nluks_destroy:  "@, luks);
    starts_still(t4, t0, "\nluks_destroy:  "@, luks);
    text::what_is_added_shows(t4, "\nluks_destroy:  "@, luks);
    still(t5, "\nsensors:       "@ + sensors, note, Seq::empty());
    still(t5, "\ndry_run:       "@ + dry, note, Seq::empty());
    still(t5, "\npower_action:  "@ + power, note, Seq::empty());
    still(t5, "\non_sensor_gap: "@ + gap, note, Seq::empty());
    still(t5, "\nluks_destroy:  "@ + luks, note, Seq::empty());
    starts_still(t5, t0, note, Seq::empty());
    text::what_is_added_shows(t5, note, Seq::empty());
    assert(note + Seq::<char>::empty() =~= note);
}

/// What a dry run prints: that nothing would be a kill, exactly where there is no reason; else how
/// many there are, and each of them, in order.
pub proof fn a_dry_run_is_printed_reason_by_reason(reasons: Seq<KillReason>, more: Seq<KillReason>)
    ensures
        reasons.len() == 0 ==> killbillctl::dry_run_text(reasons)
            == "dry run: nothing currently connected would trigger a kill\n"@,
        reasons.len() > 0 ==> text::shows_at(
            killbillctl::dry_run_text(reasons),
            "dry run: "@ + text::decimal(reasons.len()) + " device(s) would trigger a kill:\n"@,
            0,
        ) && text::shows(
            killbillctl::dry_run_text(reasons),
            "  - "@ + reasons.last().text() + "\n"@,
        ),
        killbillctl::reason_rows(reasons + more) == killbillctl::reason_rows(reasons)
            + killbillctl::reason_rows(more),
    decreases more.len(),
{
    if more.len() == 0 {
        assert(reasons + more =~= reasons);
        assert(killbillctl::reason_rows(reasons) + Seq::<char>::empty()
            =~= killbillctl::reason_rows(reasons));
    } else {
        a_dry_run_is_printed_reason_by_reason(reasons, more.drop_last());
        assert((reasons + more).drop_last() =~= reasons + more.drop_last());
        let last = "  - "@ + more.last().text() + "\n"@;
        assert(killbillctl::reason_rows(reasons) + (killbillctl::reason_rows(more.drop_last())
            + last) =~= killbillctl::reason_rows(reasons) + killbillctl::reason_rows(
            more.drop_last(),
        ) + last);
    }
    if reasons.len() > 0 {
        let head = "dry run: "@ + text::decimal(reasons.len())
            + " device(s) would trigger a kill:\n"@;
        let before = killbillctl::reason_rows(reasons.drop_last());
        let last = "  - "@ + reasons.last().text() + "\n"@;
        let t = killbillctl::dry_run_text(reasons);
        assert(head.subrange(0, head.len() as int) =~= head);
        text::a_start_stays(head, head, killbillctl::reason_rows(reasons));
        assert(t == head + killbillctl::reason_rows(reasons));
        assert(killbillctl::reason_rows(reasons) == before + last);
        text::what_is_added_shows(before, last, Seq::empty());
        text::what_shows_stays(before + last, last, head);
    }
}

/// What an event prints tells the events apart: additions from removals, arming from disarming,
/// and it names the device, the reason or the failure.
pub proof fn an_event_is_told_for_what_it_is(event: EventView)
    ensures
        ({
            let t = killbillctl::event_text(event);
            &&& event matches EventView::DeviceAdded(d) ==> t == "+ device "@ + (match d.id {
                Some(id) => id.text(),
                None => "????:????"@,
            })
            &&& event matches EventView::DeviceRemoved(d) ==> t == "- device "@ + (match d.id {
                Some(id) => id.text(),
                None => "????:????"@,
            })
            &&& event is Armed ==> t == "! armed"@
            &&& event is Disarmed ==> t == "! disarmed"@
            &&& event matches EventView::WouldKill(r) ==> text::shows(t, r.text())
            &&& event matches EventView::ReloadFailed(r) ==> text::shows(t, r)
            &&& event is EventsLost ==> text::shows_at(t, "!! USB events lost"@, 0)
            &&& event is SensorStopped ==> text::shows_at(t, "!! USB sensor stopped"@, 0)
            &&& event is WhitelistChanged ==> text::shows(t, "whitelist"@)
            &&& event is ConfigChanged ==> text::shows(t, "config"@)
        }),
{
    match event {
        EventView::WouldKill(r) => text::what_is_added_shows(
            "! would kill: "@,
            r.text(),
            Seq::empty(),
        ),
        EventView::ReloadFailed(r) => text::what_is_added_shows(
            "!! reload failed: "@,
            r,
            Seq::empty(),
        ),
        EventView::EventsLost => {
            reveal_strlit("!! USB events lost");
            reveal_strlit("!! USB events lost — some device changes were missed");
            let t = "!! USB events lost — some device changes were missed"@;
            assert(t.subrange(0, 18) =~= "!! USB events lost"@);
        },
        EventView::SensorStopped => {
            reveal_strlit("!! USB sensor stopped");
            reveal_strlit(
                "!! USB sensor stopped — daemon is respawning it, or exiting for a restart",
            );
            let t =
                "!! USB sensor stopped — daemon is respawning it, or exiting for a restart"@;
            assert(t.subrange(0, 21) =~= "!! USB sensor stopped"@);
        },
        EventView::WhitelistChanged => {
            reveal_strlit("whitelist");
            reveal_strlit("* whitelist changed");
            assert("* whitelist changed"@.subrange(2, 11) =~= "whitelist"@);
            assert(text::shows_at("* whitelist changed"@, "whitelist"@, 2));
        },
        EventView::ConfigChanged => {
            reveal_strlit("config");
            reveal_strlit("* config changed");
            assert("* config changed"@.subrange(2, 8) =~= "config"@);
            assert(text::shows_at("* config changed"@, "config"@, 2));
        },
        _ => {},
    }
}

/// What arming and disarming do to the daemon, from the command line to its state: handling what
/// `disarm` sends leaves it disarmed; handling what `arm` sends never disarms it, and arms it
/// wherever nothing stands in the way.
pub proof fn arm_arms_and_disarm_disarms(
    sub: &Subcommand,
    s: Step,
    peer: PeerCred,
    to: u64,
    host: HostProbeView,
    at: Seq<char>,
)
    requires
        peer.uid == 0,
        sub is Arm || sub is Disarm,
    ensures
        killbillctl::command_of(sub@) matches Ok(cmd) && {
            let t = step::command(s, cmd, peer, to, host, at);
            &&& sub is Disarm ==> !t.core.armed && t.fx.last() == (EffectView::Answer {
                to,
                reply: ReplyView::Done,
            })
            &&& sub is Arm && s.core.armed ==> t.core.armed
            &&& sub is Arm && s.core.config_error is None && s.core.sensor_ok
                && !s.core.events_lost && host.sensor_error is None && step::preflight_failures(
                s.core.config,
                host,
            ).len() == 0 ==> t.core.armed && t.fx.last() == (EffectView::Answer {
                to,
                reply: ReplyView::Done,
            })
        },
{
    reveal(step::command);
    reveal(Step::publish);
}

/// What the queries ask for is what they are answered with, and they leave the daemon as it was;
/// a dry run too changes nothing but the list of past events.
pub proof fn a_query_is_answered_in_kind(
    sub: &Subcommand,
    s: Step,
    peer: PeerCred,
    to: u64,
    host: HostProbeView,
    at: Seq<char>,
)
    requires
        peer.uid == 0,
        sub is Status || sub is Devices || sub is WhitelistList || sub is Test
            || sub is ConfigShow,
    ensures
        killbillctl::command_of(sub@) matches Ok(cmd) && {
            let t = step::command(s, cmd, peer, to, host, at);
            &&& t.fx.last() matches EffectView::Answer { to: a, reply } && a == to && {
                &&& sub is Status <==> reply is Status
                &&& sub is Devices <==> reply is Devices
                &&& sub is WhitelistList <==> reply is Whitelist
                &&& sub is Test <==> reply is DryRun
                &&& sub is ConfigShow <==> reply is Config
            }
            &&& t.core.armed == s.core.armed
            &&& t.core.config == s.core.config
            &&& t.core.devices == s.core.devices
        },
{
    reveal(step::command);
    if sub is Test {
        let devices = s.core.devices.connected;
        laws::publishing_reasons_changes_little(
            s,
            step::dry_run_reasons(devices, s.core.config, devices.len()),
            at,
        );
    }
}

/// What the changes ask for is what the writer is given: `reload` has the file read again;
/// `whitelist add` has the named id listed, with the label and the count that were given, and
/// `whitelist remove` has no entry left for the named id.
pub proof fn a_change_reaches_the_writer(
    sub: &Subcommand,
    s: Step,
    peer: PeerCred,
    to: u64,
    host: HostProbeView,
    at: Seq<char>,
)
    requires
        peer.uid == 0,
        s.core.pending is None,
        s.core.config_error is None,
        !s.core.armed,
    ensures
        sub is Reload ==> (killbillctl::command_of(sub@) matches Ok(cmd) && step::command(
            s,
            cmd,
            peer,
            to,
            host,
            at,
        ).fx.last() is Reload),
        sub matches Subcommand::WhitelistAdd { id, label, max_count } ==> {
            match sensor_event::usb_id_of(id@) {
                None => killbillctl::command_of(sub@) is Err,
                Some(k) => killbillctl::command_of(sub@) matches Ok(cmd) && (match step::command(
                    s,
                    cmd,
                    peer,
                    to,
                    host,
                    at,
                ).fx.last() {
                    EffectView::Persist(raw) => raw.whitelist.len() > 0 && raw.whitelist.last().id
                        == k.text() && raw.whitelist.last().label == text::opt_view(*label)
                        && raw.whitelist.last().max_count == *max_count,
                    EffectView::Answer { reply, .. } => reply is Error,
                    _ => false,
                }),
            }
        },
        sub matches Subcommand::WhitelistRemove { id } ==> {
            match sensor_event::usb_id_of(id@) {
                None => killbillctl::command_of(sub@) is Err,
                Some(k) => killbillctl::command_of(sub@) matches Ok(cmd) && (match step::command(
                    s,
                    cmd,
                    peer,
                    to,
                    host,
                    at,
                ).fx.last() {
                    EffectView::Persist(raw) => forall|i: int|
                        0 <= i < raw.whitelist.len() ==> sensor_event::usb_id_of(
                            (#[trigger] raw.whitelist[i]).id,
                        ) != Some(k),
                    EffectView::Answer { reply, .. } => reply is Error,
                    _ => false,
                }),
            }
        },
{
    reveal(step::command);
    if let Subcommand::WhitelistRemove { id } = sub {
        if let Some(k) = sensor_event::usb_id_of(id@) {
            let keep = step::is_for_another(k);
            let rest = s.core.raw.whitelist.filter(keep);
            assert forall|i: int| 0 <= i < rest.len() implies sensor_event::usb_id_of(
                (#[trigger] rest[i]).id,
            ) != Some(k) by {
                s.core.raw.whitelist.lemma_filter_pred(keep, i);
            }
        }
    }
}

/// A valid change asked for on the command line is written, not refused: `whitelist add` with a
/// count that is not zero always is, where the daemon runs on its own config.
pub proof fn a_valid_addition_is_written(
    sub: &Subcommand,
    s: Step,
    peer: PeerCred,
    to: u64,
    host: HostProbeView,
    at: Seq<char>,
)
    requires
        peer.uid == 0,
        s.core.pending is None,
        s.core.config_error is None,
        !s.core.armed,
        config::config_errors(s.core.raw).len() == 0,
        sub matches Subcommand::WhitelistAdd { id, label, max_count } && sensor_event::usb_id_of(
            id@,
        ) is Some && *max_count != Some(0u32),
    ensures
        killbillctl::command_of(sub@) matches Ok(cmd) && step::command(
            s,
            cmd,
            peer,
            to,
            host,
            at,
        ).fx.last() is Persist,
{
    reveal(step::command);
    if let Subcommand::WhitelistAdd { id, label, max_count } = sub {
        let entry = WhitelistEntryView {
            id: sensor_event::usb_id_of(id@)->0,
            label: text::opt_view(*label),
            max_count: *max_count,
        };
        laws::an_added_entry_is_listed(s.core.raw, entry);
    }
}

/// `luks engage` turns the toggle the way it says, where there is an acknowledged target.
pub proof fn luks_engage_turns_the_toggle(
    engaged: bool,
    s: Step,
    peer: PeerCred,
    to: u64,
    host: HostProbeView,
    at: Seq<char>,
)
    requires
        peer.uid == 0,
        s.core.config.luks_destroy is Some,
    ensures
        killbillctl::command_of(SubcommandView::LuksEngage(engaged)) matches Ok(cmd)
            && step::command(s, cmd, peer, to, host, at).core.engaged == engaged,
{
    reveal(step::command);
}

/// No two subcommands send the same command: whatever command was sent, it was one subcommand
/// that sent it, up to how an id is written.
pub proof fn a_command_tells_its_subcommand(a: &Subcommand, b: &Subcommand)
    requires
        killbillctl::command_of(a@) is Ok,
        killbillctl::command_of(a@) == killbillctl::command_of(b@),
    ensures
        a is Status <==> b is Status,
        a is Devices <==> b is Devices,
        a is Arm <==> b is Arm,
        a is Disarm <==> b is Disarm,
        a is Test <==> b is Test,
        a is Reload <==> b is Reload,
        a is WhitelistList <==> b is WhitelistList,
        a is ConfigShow <==> b is ConfigShow,
        match (a, b) {
            (
                Subcommand::WhitelistAdd { id, label, max_count },
                Subcommand::WhitelistAdd { id: id2, label: label2, max_count: max2 },
            ) => sensor_event::usb_id_of(id@) == sensor_event::usb_id_of(id2@) && text::opt_view(
                *label,
            ) == text::opt_view(*label2) && *max_count == *max2,
            (Subcommand::WhitelistAdd { .. }, _) => false,
            (
                Subcommand::WhitelistRemove { id },
                Subcommand::WhitelistRemove { id: id2 },
            ) => sensor_event::usb_id_of(id@) == sensor_event::usb_id_of(id2@),
            (Subcommand::WhitelistRemove { .. }, _) => false,
            (Subcommand::ConfigSet(c), Subcommand::ConfigSet(d)) => c@ == d@,
            (Subcommand::ConfigSet(_), _) => false,
            (Subcommand::LuksEngage(x), Subcommand::LuksEngage(y)) => x == y,
            (Subcommand::LuksEngage(_), _) => false,
            _ => true,
        },
{
}

/// The client understands what the daemon answers: whatever a subcommand's command is answered
/// with, an error is shown as that error, and anything else is shown as success.
pub proof fn the_daemons_answer_is_understood(
    sub: SubcommandView,
    s: Step,
    peer: PeerCred,
    to: u64,
    host: HostProbeView,
    at: Seq<char>,
    reply: ReplyView,
)
    requires
        !(sub is WhitelistList),
        killbillctl::command_of(sub) matches Ok(cmd) && step::command(
            s,
            cmd,
            peer,
            to,
            host,
            at,
        ).fx.last() == (EffectView::Answer { to, reply }),
    ensures
        match killbillctl::result_of(sub, reply, None) {
            Ok(_) => !(reply is Error),
            Err(e) => reply == ReplyView::Error(e),
        },
{
    reveal(step::command);
}

/// What success is reported as is what was asked for.
pub proof fn success_names_what_was_done(
    id: Seq<char>,
    label: Option<Seq<char>>,
    max_count: Option<u32>,
)
    ensures
        killbillctl::result_of(SubcommandView::Arm, ReplyView::Done, None) == Ok::<
            Seq<char>,
            Seq<char>,
        >("armed"@ + "\n"@),
        killbillctl::result_of(SubcommandView::Disarm, ReplyView::Done, None) == Ok::<
            Seq<char>,
            Seq<char>,
        >("disarmed"@ + "\n"@),
        killbillctl::result_of(SubcommandView::Reload, ReplyView::Done, None) == Ok::<
            Seq<char>,
            Seq<char>,
        >("config reloaded"@ + "\n"@),
        killbillctl::result_of(
            SubcommandView::WhitelistAdd { id, label, max_count },
            ReplyView::Done,
            None,
        ) == Ok::<Seq<char>, Seq<char>>("whitelist updated"@ + "\n"@),
        killbillctl::result_of(SubcommandView::WhitelistRemove { id }, ReplyView::Done, None)
            == Ok::<Seq<char>, Seq<char>>("whitelist updated"@ + "\n"@),
        killbillctl::result_of(SubcommandView::LuksEngage(true), ReplyView::Done, None) matches Ok(
            t,
        ) && text::shows_at(t, "LUKS header destruction ENGAGED"@, 0),
        killbillctl::result_of(SubcommandView::LuksEngage(false), ReplyView::Done, None) matches Ok(
            t,
        ) && text::shows_at(t, "LUKS header destruction disengaged"@, 0),
{
    reveal_strlit("LUKS header destruction ENGAGED");
    reveal_strlit("LUKS header destruction disengaged");
    reveal_strlit(
        "LUKS header destruction ENGAGED — recorded only: the v1 wipe is a stub, so a kill while armed will NOT touch the header (invariant 3)",
    );
    let on =
        "LUKS header destruction ENGAGED — recorded only: the v1 wipe is a stub, so a kill while armed will NOT touch the header (invariant 3)"@
        + "\n"@;
    let off = "LUKS header destruction disengaged"@ + "\n"@;
    assert(on.subrange(0, 31) =~= "LUKS header destruction ENGAGED"@);
    assert(off.subrange(0, 34) =~= "LUKS header destruction disengaged"@);
}

/// A line of the stream starts with the daemon's time stamp and ends with what happened.
pub proof fn a_stream_line_has_its_time_first(at: Seq<char>, event: EventView)
    ensures
        text::shows_at(killbillctl::stream_text(at, event), at, 0),
        text::shows(
            killbillctl::stream_text(at, event),
            killbillctl::event_text(event) + "\n"@,
        ),
        killbillctl::stream_text(at, event).len() == at.len() + killbillctl::event_text(event).len()
            + 3,
{
    reveal_strlit("  ");
    reveal_strlit("\n");
    let t = killbillctl::stream_text(at, event);
    assert(t.subrange(0, at.len() as int) =~= at);
    text::what_is_added_shows(at + "  "@, killbillctl::event_text(event), "\n"@);
}

/// The stream goes on with every frame; silence ends it where nobody follows it and is an error where
/// somebody does; and a daemon that closes it ends it.
pub proof fn silence_ends_an_unfollowed_stream(follow: bool, read: StreamRead)
    ensures
        killbillctl::next_on_stream(follow, read) == StreamStep::Print <==> read
            == StreamRead::Frame,
        killbillctl::next_on_stream(false, StreamRead::TimedOut) == StreamStep::Stop,
        killbillctl::next_on_stream(true, StreamRead::TimedOut) == StreamStep::Fail,
        killbillctl::next_on_stream(follow, StreamRead::Closed) == StreamStep::Stop,
        killbillctl::next_on_stream(follow, StreamRead::Failed) == StreamStep::Fail,
{
}

/// `config set` has the setting written as it was given, and nothing else changed.
pub proof fn config_set_writes_the_setting(
    sub: &Subcommand,
    s: Step,
    peer: PeerCred,
    to: u64,
    host: HostProbeView,
    at: Seq<char>,
)
    requires
        peer.uid == 0,
        sub is ConfigSet,
    ensures
        killbillctl::command_of(sub@) matches Ok(cmd) && (match step::command(
            s,
            cmd,
            peer,
            to,
            host,
            at,
        ).fx.last() {
            EffectView::Persist(raw) => sub matches Subcommand::ConfigSet(change) && {
                &&& raw.whitelist == s.core.raw.whitelist
                &&& raw.luks_destroy == s.core.raw.luks_destroy
                &&& raw.lock_screen_first == s.core.raw.lock_screen_first
                &&& change matches ConfigChange::DryRun(b) ==> raw.dry_run == b
                &&& !(change is DryRun) ==> raw.dry_run == s.core.raw.dry_run
                &&& change matches ConfigChange::ArmedAtBoot(b) ==> raw.armed_at_boot == b
                &&& !(change is ArmedAtBoot) ==> raw.armed_at_boot == s.core.raw.armed_at_boot
                &&& change matches ConfigChange::PowerAction(p) ==> config::resolved(
                    raw,
                ).power_action == p
                &&& !(change is PowerAction) ==> raw.power_action == s.core.raw.power_action
                &&& change matches ConfigChange::OnSensorGap(g) ==> (g == OnSensorGap::Kill
                    <==> config::resolved(raw).on_sensor_gap == config::SensorGapAction::Kill)
                &&& !(change is OnSensorGap) ==> raw.on_sensor_gap == s.core.raw.on_sensor_gap
                &&& change matches ConfigChange::Sensors(names) ==> raw.sensors == text::views(
                    names@,
                )
                &&& !(change is Sensors) ==> raw.sensors == s.core.raw.sensors
            },
            EffectView::Answer { reply, .. } => reply is Error,
            _ => false,
        }),
{
    reveal(step::command);
    if let Subcommand::ConfigSet(change) = sub {
        laws::a_config_change_is_read_back(s.core.raw, change@);
    }
}

/// The whitelist is shown with the devices that were asked for beside it, and only then.
pub proof fn the_whitelist_is_shown_with_the_devices(
    w: Seq<WhitelistEntryView>,
    d: Seq<DeviceInfoView>,
)
    ensures
        killbillctl::result_of(
            SubcommandView::WhitelistList,
            ReplyView::Whitelist(w),
            Some(ReplyView::Devices(d)),
        ) == Ok::<Seq<char>, Seq<char>>(
            killbillctl::whitelist_text(w, killbillctl::connected_ids_of(d)),
        ),
        killbillctl::result_of(
            SubcommandView::WhitelistList,
            ReplyView::Whitelist(w),
            None,
        ) is Err,
        killbillctl::also_asked(SubcommandView::WhitelistList) == Some(CommandView::ListDevices),
        killbillctl::also_asked(SubcommandView::Status) is None,
        w.len() == 0 ==> killbillctl::whitelist_text(w, killbillctl::connected_ids_of(d))
            == "(whitelist is empty — every device is unknown while armed)\n"@,
        d.len() == 0 ==> killbillctl::devices_text(d)
            == "(no devices tracked — the daemon sees devices from when it started)\n"@,
{
}

/// The whitelist is printed only with the devices it is held against: what the daemon has against
/// listing them is the command's own error, and any other answer is none.
pub proof fn a_whitelist_without_devices_fails(w: Seq<WhitelistEntryView>, also: ReplyView)
    ensures
        ({
            let r = killbillctl::result_of(
                SubcommandView::WhitelistList,
                ReplyView::Whitelist(w),
                Some(also),
            );
            &&& r is Ok <==> also is Devices
            &&& also matches ReplyView::Error(e) ==> r == Err::<Seq<char>, Seq<char>>(e)
        }),
{
}

} // verus!
