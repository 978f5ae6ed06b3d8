//! Which configs are valid, and what a valid one stands for, in terms of what is written.

use crate::killbilld::config;
use crate::killbilld::config::{
    Config, ConfigErrorView, RawConfig, RawConfigView, RawLuksDestroyView, RawWhitelistEntryView,
    SensorGapAction, WhitelistRule,
};
use crate::proto::action::PowerAction;
use crate::proto::sensor_event;
use crate::proto::sensor_event::UsbId;
use crate::text;
use vstd::prelude::*;

verus! {

/// Whether every sensor that is named is the USB one, and one is named.
pub open spec fn sensors_are_known(names: Seq<Seq<char>>) -> bool {
    names.len() > 0 && forall|i: int| 0 <= i < names.len() ==> #[trigger] names[i] == "usb"@
}

/// Whether every entry writes an id, none allows zero copies, and no id comes twice.
pub open spec fn entries_are_sound(entries: Seq<RawWhitelistEntryView>) -> bool {
    &&& forall|i: int|
        0 <= i < entries.len() ==> sensor_event::usb_id_of((#[trigger] entries[i]).id) is Some
            && entries[i].max_count != Some(0u32)
    &&& forall|i: int, j: int|
        0 <= i < j < entries.len() ==> sensor_event::usb_id_of((#[trigger] entries[i]).id)
            != sensor_event::usb_id_of((#[trigger] entries[j]).id)
}

/// Whether destruction is left out, or acknowledged with a target that has nothing wrong.
pub open spec fn destruction_is_sound(luks: Option<RawLuksDestroyView>) -> bool {
    luks matches Some(l) ==> l.acknowledged && l.target_header is Some && config::target_error(
        l.target_header->0,
    ) is None
}

proof fn known_sensors_give_no_error(names: Seq<Seq<char>>)
    ensures
        config::unknown_sensors(names).len() == 0 <==> forall|i: int|
            0 <= i < names.len() ==> #[trigger] names[i] == "usb"@,
    decreases names.len(),
{
    if names.len() > 0 {
        let rest = names.drop_last();
        known_sensors_give_no_error(rest);
        if config::unknown_sensors(names).len() == 0 {
            assert forall|i: int| 0 <= i < names.len() implies #[trigger] names[i] == "usb"@ by {
                if i < rest.len() {
                    assert(rest[i] == names[i]);
                }
            }
        } else if forall|i: int| 0 <= i < names.len() ==> #[trigger] names[i] == "usb"@ {
            assert(names[names.len() - 1] == "usb"@);
            assert forall|i: int| 0 <= i < rest.len() implies #[trigger] rest[i] == "usb"@ by {
                assert(rest[i] == names[i]);
            }
        }
    }
}

/// What the first entries come to: without an error they are sound, and each gives one rule.
proof fn sound_entries_give_rules(entries: Seq<RawWhitelistEntryView>, n: nat)
    requires
        n <= entries.len(),
    ensures
        config::scan_whitelist(entries, n).errors.len() == 0 <==> entries_are_sound(
            entries.take(n as int),
        ),
        config::scan_whitelist(entries, n).errors.len() == 0 ==> {
            let rules = config::scan_whitelist(entries, n).rules;
            &&& rules.len() == n
            &&& forall|i: int|
                0 <= i < n ==> Some((#[trigger] rules[i]).id) == sensor_event::usb_id_of(
                    entries[i].id,
                ) && rules[i].label == entries[i].label && rules[i].max_count == (
                match entries[i].max_count {
                    Some(m) => m,
                    None => 1,
                })
        },
    decreases n,
{
    let here = entries.take(n as int);
    if n > 0 {
        let m = (n - 1) as nat;
        sound_entries_give_rules(entries, m);
        let before = config::scan_whitelist(entries, m);
        let rest = entries.take(m as int);
        assert forall|i: int| 0 <= i < m implies #[trigger] rest[i] == here[i] by {}
        let last = entries[m as int];
        assert(here[m as int] == last);
        let now = config::scan_whitelist(entries, n);
        if now.errors.len() == 0 {
            let id = sensor_event::usb_id_of(last.id)->0;
            assert(!config::has_rule(before.rules, id));
            assert forall|i: int, j: int| 0 <= i < j < here.len() implies sensor_event::usb_id_of(
                (#[trigger] here[i]).id,
            ) != sensor_event::usb_id_of((#[trigger] here[j]).id) by {
                assert(rest[i] == here[i]);
                if j < m {
                    assert(rest[j] == here[j]);
                } else {
                    assert(Some(before.rules[i].id) == sensor_event::usb_id_of(entries[i].id));
                    if before.rules[i].id == id {
                        assert(config::has_rule(before.rules, id));
                    }
                }
            }
            assert forall|i: int| 0 <= i < here.len() implies sensor_event::usb_id_of(
                (#[trigger] here[i]).id,
            ) is Some && here[i].max_count != Some(0u32) by {
                if i < m {
                    assert(rest[i] == here[i]);
                }
            }
        }
        if entries_are_sound(here) {
            assert forall|i: int| 0 <= i < rest.len() implies sensor_event::usb_id_of(
                (#[trigger] rest[i]).id,
            ) is Some && rest[i].max_count != Some(0u32) by {
                assert(rest[i] == here[i]);
            }
            assert forall|i: int, j: int| 0 <= i < j < rest.len() implies sensor_event::usb_id_of(
                (#[trigger] rest[i]).id,
            ) != sensor_event::usb_id_of((#[trigger] rest[j]).id) by {
                assert(rest[i] == here[i] && rest[j] == here[j]);
            }
            let id = sensor_event::usb_id_of(last.id)->0;
            assert(sensor_event::usb_id_of(here[m as int].id) is Some);
            if config::has_rule(before.rules, id) {
                let i = choose|i: int|
                    0 <= i < before.rules.len() && (#[trigger] before.rules[i]).id == id;
                assert(sensor_event::usb_id_of(here[i].id) != sensor_event::usb_id_of(
                    here[m as int].id,
                ));
            }
        }
    }
}

/// Which configs are valid: those that name the USB sensor and no other, whose whitelist entries
/// each write an id of their own and allow at least one copy, whose power action and gap action are
/// left out or one of the words for them, that do not ask to lock the screen first, and that leave
/// destruction out or acknowledge it with a sound target.
pub proof fn a_config_is_valid_exactly_where_all_of_it_is(raw: RawConfigView)
    ensures
        config::config_errors(raw).len() == 0 <==> {
            &&& sensors_are_known(raw.sensors)
            &&& entries_are_sound(raw.whitelist)
            &&& raw.power_action matches Some(w) ==> w == "poweroff"@ || w == "halt"@ || w
                == "none"@
            &&& raw.on_sensor_gap matches Some(w) ==> w == "warn"@ || w == "kill"@
            &&& destruction_is_sound(raw.luks_destroy)
            &&& !raw.lock_screen_first
        },
{
    reveal(config::config_errors);
    known_sensors_give_no_error(raw.sensors);
    sound_entries_give_rules(raw.whitelist, raw.whitelist.len());
    assert(raw.whitelist.take(raw.whitelist.len() as int) =~= raw.whitelist);
}

/// What a valid config stands for is what is written: each entry is a rule, in order, with its id,
/// its label and its count, or a count of one; what is left out is a poweroff and a warning.
pub proof fn a_valid_config_means_what_is_written(raw: RawConfigView, i: int)
    requires
        config::config_errors(raw).len() == 0,
    ensures
        ({
            let cfg = config::resolved(raw);
            &&& cfg.armed_at_boot == raw.armed_at_boot
            &&& cfg.dry_run == raw.dry_run
            &&& cfg.sensors.len() == 1
            &&& cfg.whitelist.len() == raw.whitelist.len()
            &&& 0 <= i < raw.whitelist.len() ==> {
                &&& Some(cfg.whitelist[i].id) == sensor_event::usb_id_of(raw.whitelist[i].id)
                &&& cfg.whitelist[i].label == raw.whitelist[i].label
                &&& raw.whitelist[i].max_count is None ==> cfg.whitelist[i].max_count == 1
                &&& raw.whitelist[i].max_count is Some ==> Some(cfg.whitelist[i].max_count)
                    == raw.whitelist[i].max_count
            }
            &&& cfg.power_action == PowerAction::PowerOff <==> raw.power_action is None
                || raw.power_action == Some("poweroff"@)
            &&& cfg.power_action == PowerAction::Halt <==> raw.power_action == Some("halt"@)
            &&& cfg.power_action == PowerAction::NoAction <==> raw.power_action == Some("none"@)
            &&& cfg.on_sensor_gap == SensorGapAction::Kill <==> raw.on_sensor_gap == Some("kill"@)
            &&& raw.luks_destroy is None ==> cfg.luks_destroy is None
            &&& raw.luks_destroy matches Some(l) ==> cfg.luks_destroy == l.target_header
        }),
{
    reveal(config::config_errors);
    reveal(config::resolved);
    sound_entries_give_rules(raw.whitelist, raw.whitelist.len());
    assert(raw.whitelist.take(raw.whitelist.len() as int) =~= raw.whitelist);
    config::a_valid_config_is_well_formed(raw);
    reveal_strlit("poweroff");
    reveal_strlit("halt");
    reveal_strlit("none");
    reveal_strlit("warn");
    reveal_strlit("kill");
    assert("poweroff"@.len() == 8 && "halt"@.len() == 4 && "none"@.len() == 4);
    assert("halt"@[0] != "none"@[0]);
    assert("warn"@[0] != "kill"@[0]);
}

/// What a destruction target must be: an absolute path in printable ASCII, under `/dev` and not
/// `/dev` itself, that never goes up a directory.
pub proof fn a_target_is_a_plain_path_under_dev(path: Seq<char>)
    requires
        config::target_error(path) is None,
    ensures
        path.len() > 0 && path[0] == '/',
        forall|i: int| 0 <= i < path.len() ==> ' ' <= #[trigger] path[i] <= '~',
        !text::split(path, '/').contains(".."@),
        ({
            let parts = text::split(path, '/').filter(|p: Seq<char>| p.len() > 0 && p != "."@);
            parts.len() >= 2 && parts[0] == "dev"@
        }),
{
    assert forall|i: int| 0 <= i < path.len() implies ' ' <= #[trigger] path[i] <= '~' by {
        assert(!config::is_unprintable(path[i]));
    }
    let keep = |p: Seq<char>| p.len() > 0 && p != "."@;
    let all = text::split(path, '/');
    reveal_strlit("..");
    reveal_strlit(".");
    if all.contains(".."@) {
        let i = all.index_of(".."@);
        assert(all[i] == ".."@);
        assert(".."@.len() == 2 && "."@.len() == 1);
        all.lemma_filter_contains(keep, i);
    }
}

/// Every device right under `/dev` is a good target, whatever its name, if the name is printable
/// ASCII without a slash and is neither `.` nor `..`.
pub proof fn every_device_is_a_good_target(name: Seq<char>)
    requires
        name.len() > 0,
        name != "."@,
        name != ".."@,
        forall|i: int| 0 <= i < name.len() ==> ' ' <= #[trigger] name[i] <= '~' && name[i] != '/',
    ensures
        config::target_error("/dev/"@ + name) is None,
{
    reveal_strlit("/dev/");
    reveal_strlit("dev");
    reveal_strlit("..");
    reveal_strlit(".");
    let path = "/dev/"@ + name;
    let empty = Seq::<char>::empty();
    let parts = seq![empty, "dev"@, name];
    let keep = |p: Seq<char>| p.len() > 0 && p != "."@;
    assert(parts.skip(1) =~= seq!["dev"@, name]);
    assert(parts.skip(1).skip(1) =~= seq![name]);
    assert(text::joined_by(seq![name], '/') == name);
    assert(text::joined_by(seq!["dev"@, name], '/') == "dev"@ + seq!['/'] + name) by {
        assert(seq!["dev"@, name].skip(1) =~= seq![name]);
    }
    assert(text::joined_by(parts, '/') =~= path);
    assert forall|i: int| 0 <= i < parts.len() implies !(#[trigger] parts[i]).contains('/') by {}
    text::splitting_undoes_joining(parts, '/');
    assert(config::path_parts(path) =~= seq!["dev"@, name]) by {
        reveal(Seq::filter);
        assert(parts.drop_last() =~= seq![empty, "dev"@]);
        assert(parts.drop_last().drop_last() =~= seq![empty]);
        assert(parts.drop_last().drop_last().drop_last() =~= Seq::empty());
        assert(parts.drop_last().drop_last().drop_last().filter(keep) =~= Seq::empty());
        assert(parts.drop_last().drop_last().filter(keep) =~= Seq::empty());
        assert(parts.drop_last().filter(keep) =~= seq!["dev"@]);
        assert(parts.filter(keep) =~= seq!["dev"@, name]);
    }
    assert("dev"@.len() == 3 && ".."@.len() == 2);
    assert(!config::path_parts(path).contains(".."@)) by {
        if config::path_parts(path).contains(".."@) {
            let i = config::path_parts(path).index_of(".."@);
            assert(config::path_parts(path)[i] == ".."@);
        }
    }
    assert forall|i: int| 0 <= i < path.len() implies !config::is_unprintable(
        #[trigger] path[i],
    ) by {
        if i >= 5 {
            assert(path[i] == name[i - 5]);
        }
    }
}

/// The report has a line for every problem, under a headline that counts them.
pub proof fn the_report_names_every_problem(errors: Seq<ConfigErrorView>, i: int)
    requires
        0 <= i < errors.len(),
    ensures
        text::shows_at(
            config::report_text(errors),
            "configuration is invalid ("@ + text::decimal(errors.len()) + " problems):\n"@,
            0,
        ),
        text::shows(config::report_text(errors), "  - "@ + errors[i].text()),
{
    let head = "configuration is invalid ("@ + text::decimal(errors.len()) + " problems):\n"@;
    assert(head.subrange(0, head.len() as int) =~= head);
    text::a_start_stays(head, head, config::problem_lines(errors));
    a_problem_has_a_line(errors, i);
    text::what_shows_stays(config::problem_lines(errors), "  - "@ + errors[i].text(), head);
}

proof fn a_problem_has_a_line(errors: Seq<ConfigErrorView>, i: int)
    requires
        0 <= i < errors.len(),
    ensures
        text::shows(config::problem_lines(errors), "  - "@ + errors[i].text()),
    decreases errors.len(),
{
    let rest = errors.drop_last();
    let before = config::problem_lines(rest);
    let line = "  - "@ + errors[i].text();
    if i == errors.len() - 1 {
        text::what_is_added_shows(before, "  - "@, errors[i].text());
        text::what_shows_stays(before + "  - "@ + errors[i].text(), line, "\n"@);
    } else {
        a_problem_has_a_line(rest, i);
        assert(rest[i] == errors[i]);
        text::what_shows_stays(before, line, "  - "@);
        text::what_shows_stays(before + "  - "@, line, errors.last().text());
        text::what_shows_stays(before + "  - "@ + errors.last().text(), line, "\n"@);
    }
}

proof fn a_part_of_the_errors_is_reported(raw: RawConfigView, e: ConfigErrorView)
    ensures
        config::sensor_errors(raw.sensors).contains(e) || config::scan_whitelist(
            raw.whitelist,
            raw.whitelist.len(),
        ).errors.contains(e) || config::luks_errors(raw.luks_destroy).contains(e)
            ==> config::config_errors(raw).contains(e),
        raw.power_action matches Some(w) ==> (w != "poweroff"@ && w != "halt"@ && w != "none"@
            ==> config::config_errors(raw).contains(
            ConfigErrorView::BadPowerAction { value: w },
        )),
        raw.on_sensor_gap matches Some(w) ==> (w != "warn"@ && w != "kill"@
            ==> config::config_errors(raw).contains(
            ConfigErrorView::BadSensorGapAction { value: w },
        )),
        raw.lock_screen_first ==> config::config_errors(raw).contains(
            ConfigErrorView::LockScreenFirstUnsupported,
        ),
{
    reveal(config::config_errors);
    let a = config::sensor_errors(raw.sensors);
    let b = config::scan_whitelist(raw.whitelist, raw.whitelist.len()).errors;
    let c = match config::power_action_of(raw.power_action) {
        Some(_) => Seq::empty(),
        None => seq![ConfigErrorView::BadPowerAction { value: raw.power_action->0 }],
    };
    let d = match config::sensor_gap_of(raw.on_sensor_gap) {
        Some(_) => Seq::empty(),
        None => seq![ConfigErrorView::BadSensorGapAction { value: raw.on_sensor_gap->0 }],
    };
    let l = config::luks_errors(raw.luks_destroy);
    let f = if raw.lock_screen_first {
        seq![ConfigErrorView::LockScreenFirstUnsupported]
    } else {
        Seq::empty()
    };
    let all = config::config_errors(raw);
    assert(all == a + b + c + d + l + f);
    if a.contains(e) {
        assert(all[a.index_of(e)] == e);
    }
    if b.contains(e) {
        assert(all[a.len() + b.index_of(e)] == e);
    }
    if l.contains(e) {
        assert(all[a.len() + b.len() + c.len() + d.len() + l.index_of(e)] == e);
    }
    if c.len() > 0 {
        assert(all[(a.len() + b.len()) as int] == c[0]);
    }
    if d.len() > 0 {
        assert(all[(a.len() + b.len() + c.len()) as int] == d[0]);
    }
    if f.len() > 0 {
        assert(all[(a.len() + b.len() + c.len() + d.len() + l.len()) as int] == f[0]);
    }
}

proof fn errors_stay(entries: Seq<RawWhitelistEntryView>, n: nat, m: nat, e: ConfigErrorView)
    requires
        n <= m,
        config::scan_whitelist(entries, n).errors.contains(e),
    ensures
        config::scan_whitelist(entries, m).errors.contains(e),
    decreases m,
{
    if n < m {
        errors_stay(entries, n, (m - 1) as nat, e);
        let before = config::scan_whitelist(entries, (m - 1) as nat).errors;
        assert(config::scan_whitelist(entries, m).errors[before.index_of(e)] == e);
    }
}

proof fn rules_stay(entries: Seq<RawWhitelistEntryView>, n: nat, m: nat, id: UsbId)
    requires
        n <= m,
        config::has_rule(config::scan_whitelist(entries, n).rules, id),
    ensures
        config::has_rule(config::scan_whitelist(entries, m).rules, id),
    decreases m,
{
    if n < m {
        rules_stay(entries, n, (m - 1) as nat, id);
        let before = config::scan_whitelist(entries, (m - 1) as nat).rules;
        let k = choose|k: int| 0 <= k < before.len() && (#[trigger] before[k]).id == id;
        assert(config::scan_whitelist(entries, m).rules[k].id == id);
    }
}

/// Every fault is reported, with where it is: an entry that writes no id, one that allows zero
/// copies of an id not listed before it, and one whose id an earlier sound entry has.
pub proof fn a_faulty_entry_is_reported(raw: RawConfigView, i: int)
    requires
        0 <= i < raw.whitelist.len(),
    ensures
        ({
            let all = config::config_errors(raw);
            let e = raw.whitelist[i];
            match sensor_event::usb_id_of(e.id) {
                None => all.contains(
                    ConfigErrorView::MalformedWhitelistId { index: i as nat, id: e.id },
                ),
                Some(id) => {
                    &&& (e.max_count == Some(0u32) && forall|j: int|
                        0 <= j < i ==> sensor_event::usb_id_of((#[trigger] raw.whitelist[j]).id)
                            != Some(id)) ==> all.contains(
                        ConfigErrorView::ZeroMaxCount { index: i as nat, id },
                    )
                    &&& (exists|j: int|
                        0 <= j < i && sensor_event::usb_id_of((#[trigger] raw.whitelist[j]).id)
                            == Some(id) && raw.whitelist[j].max_count != Some(0u32))
                        ==> all.contains(
                        ConfigErrorView::DuplicateWhitelistId { index: i as nat, id },
                    )
                },
            }
        }),
{
    let entries = raw.whitelist;
    let n = i as nat;
    let before = config::scan_whitelist(entries, n);
    let now = config::scan_whitelist(entries, n + 1);
    let entry = entries[i];
    if now.errors.len() > before.errors.len() {
        let e = now.errors.last();
        assert(now.errors[before.errors.len() as int] == e);
        errors_stay(entries, n + 1, entries.len(), e);
        a_part_of_the_errors_is_reported(raw, e);
    }
    if let Some(id) = sensor_event::usb_id_of(entry.id) {
        if forall|j: int|
            0 <= j < i ==> sensor_event::usb_id_of((#[trigger] entries[j]).id) != Some(id) {
            if config::has_rule(before.rules, id) {
                config::a_rule_has_an_entry(entries, n, id);
            }
        }
        if exists|j: int|
            0 <= j < i && sensor_event::usb_id_of((#[trigger] entries[j]).id) == Some(id)
                && entries[j].max_count != Some(0u32) {
            let j = choose|j: int|
                0 <= j < i && sensor_event::usb_id_of((#[trigger] entries[j]).id) == Some(id)
                    && entries[j].max_count != Some(0u32);
            let then = config::scan_whitelist(entries, j as nat);
            let after = config::scan_whitelist(entries, (j + 1) as nat);
            if !config::has_rule(then.rules, id) {
                assert(after.rules[then.rules.len() as int].id == id);
            } else {
                rules_stay(entries, j as nat, (j + 1) as nat, id);
            }
            rules_stay(entries, (j + 1) as nat, n, id);
        }
    }
}

/// Every setting that cannot be used is reported by its value: a sensor that is not the USB one, no
/// sensor at all, a power action or gap action that is no word for one, the lock screen, and a
/// destruction section that is not acknowledged or has no target.
pub proof fn an_unusable_setting_is_reported(raw: RawConfigView, i: int)
    ensures
        ({
            let all = config::config_errors(raw);
            &&& raw.sensors.len() == 0 ==> all.contains(ConfigErrorView::NoSensors)
            &&& 0 <= i < raw.sensors.len() && raw.sensors[i] != "usb"@ ==> all.contains(
                ConfigErrorView::UnknownSensor { name: raw.sensors[i] },
            )
            &&& raw.power_action matches Some(w) ==> (w != "poweroff"@ && w != "halt"@ && w
                != "none"@ ==> all.contains(ConfigErrorView::BadPowerAction { value: w }))
            &&& raw.on_sensor_gap matches Some(w) ==> (w != "warn"@ && w != "kill"@
                ==> all.contains(ConfigErrorView::BadSensorGapAction { value: w }))
            &&& raw.lock_screen_first ==> all.contains(ConfigErrorView::LockScreenFirstUnsupported)
            &&& raw.luks_destroy matches Some(l) ==> {
                &&& !l.acknowledged ==> all.contains(ConfigErrorView::LuksDestroyNotAcknowledged)
                &&& l.target_header is None || l.target_header == Some(Seq::<char>::empty())
                    ==> all.contains(ConfigErrorView::LuksDestroyMissingTarget)
                &&& l.target_header matches Some(path) ==> (path.len() > 0 && (forall|k: int|
                    0 <= k < path.len() ==> ' ' <= #[trigger] path[k] <= '~') && path[0] != '/'
                    ==> all.contains(ConfigErrorView::LuksDestroyTargetNotAbsolute { path }))
            }
        }),
{
    let sensors = config::sensor_errors(raw.sensors);
    if raw.sensors.len() == 0 {
        assert(sensors[0] == ConfigErrorView::NoSensors);
        a_part_of_the_errors_is_reported(raw, ConfigErrorView::NoSensors);
    }
    if 0 <= i < raw.sensors.len() && raw.sensors[i] != "usb"@ {
        an_unknown_sensor_is_listed(raw.sensors, i);
        a_part_of_the_errors_is_reported(
            raw,
            ConfigErrorView::UnknownSensor { name: raw.sensors[i] },
        );
    }
    a_part_of_the_errors_is_reported(raw, ConfigErrorView::NoSensors);
    if let Some(l) = raw.luks_destroy {
        let luks = config::luks_errors(raw.luks_destroy);
        if !l.acknowledged {
            assert(luks[0] == ConfigErrorView::LuksDestroyNotAcknowledged);
            a_part_of_the_errors_is_reported(raw, luks[0]);
        }
        if luks.len() > 0 {
            assert(luks[luks.len() - 1] == luks.last());
            a_part_of_the_errors_is_reported(raw, luks.last());
        }
        if let Some(path) = l.target_header {
            if forall|k: int| 0 <= k < path.len() ==> ' ' <= #[trigger] path[k] <= '~' {
                assert forall|k: int| 0 <= k < path.len() implies !config::is_unprintable(
                    #[trigger] path[k],
                ) by {}
            }
        }
    }
}

proof fn an_unknown_sensor_is_listed(names: Seq<Seq<char>>, i: int)
    requires
        0 <= i < names.len(),
        names[i] != "usb"@,
    ensures
        config::unknown_sensors(names).contains(
            ConfigErrorView::UnknownSensor { name: names[i] },
        ),
    decreases names.len(),
{
    let e = ConfigErrorView::UnknownSensor { name: names[i] };
    let rest = config::unknown_sensors(names.drop_last());
    if i == names.len() - 1 {
        assert(config::unknown_sensors(names)[rest.len() as int] == e);
    } else {
        an_unknown_sensor_is_listed(names.drop_last(), i);
        assert(config::unknown_sensors(names)[rest.index_of(e)] == e);
    }
}

/// What is said of a config is said of what is written in it, and of what it was read as.
pub proof fn a_config_is_taken_for_what_it_is(raw: &RawConfig, cfg: &Config, rule: &WhitelistRule)
    ensures
        raw@.armed_at_boot == raw.general.armed_at_boot,
        raw@.sensors == text::views(raw.detection.sensors@),
        raw@.whitelist == text::views(raw.whitelist@),
        raw@.dry_run == raw.response.dry_run,
        raw@.power_action == text::opt_view(raw.response.power_action),
        raw@.lock_screen_first == raw.response.lock_screen_first,
        raw@.on_sensor_gap == text::opt_view(raw.response.on_sensor_gap),
        raw.response.luks_destroy is None <==> raw@.luks_destroy is None,
        raw.response.luks_destroy matches Some(l) ==> (raw@.luks_destroy matches Some(v)
            && v.acknowledged == l.i_understand_this_is_irreversible && v.target_header
            == text::opt_view(l.target_header)),
        cfg@.armed_at_boot == cfg.armed_at_boot,
        cfg@.sensors == cfg.sensors@,
        cfg@.whitelist == text::views(cfg.whitelist@),
        cfg@.dry_run == cfg.dry_run,
        cfg@.power_action == cfg.power_action,
        cfg@.on_sensor_gap == cfg.on_sensor_gap,
        cfg.luks_destroy is None <==> cfg@.luks_destroy is None,
        cfg.luks_destroy matches Some(l) ==> cfg@.luks_destroy == Some(l.target_header@),
        rule@.id == rule.id,
        rule@.max_count == rule.max_count,
        rule@.label == text::opt_view(rule.label),
{
}

/// What the operator is told of a problem names the setting and the value that is wrong with it.
pub proof fn a_problem_names_what_is_wrong(value: Seq<char>, index: nat, id: UsbId)
    ensures
        names(
            (ConfigErrorView::UnknownSensor { name: value }).text(),
            "unknown sensor "@,
            text::debug_text(value),
        ),
        names(
            (ConfigErrorView::BadPowerAction { value }).text(),
            "response.power_action "@,
            text::debug_text(value),
        ),
        names(
            (ConfigErrorView::BadSensorGapAction { value }).text(),
            "response.on_sensor_gap "@,
            text::debug_text(value),
        ),
        names(
            (ConfigErrorView::DuplicateWhitelistId { index, id }).text(),
            "whitelist entry "@ + text::decimal(index) + ": id "@,
            id.text(),
        ),
        names(
            (ConfigErrorView::ZeroMaxCount { index, id }).text(),
            "whitelist entry "@ + text::decimal(index) + " ("@,
            id.text(),
        ),
        names(
            (ConfigErrorView::MalformedWhitelistId { index, id: value }).text(),
            "whitelist entry "@ + text::decimal(index) + ": id "@,
            text::debug_text(value),
        ),
        names(
            (ConfigErrorView::LuksDestroyTargetNotAbsolute { path: value }).text(),
            "[response.luks_destroy]: target_header "@,
            text::debug_text(value),
        ),
        names(
            (ConfigErrorView::LuksDestroyTargetHasParentRefs { path: value }).text(),
            "[response.luks_destroy]: target_header "@,
            text::debug_text(value),
        ),
        names(
            (ConfigErrorView::LuksDestroyTargetNotUnderDev { path: value }).text(),
            "[response.luks_destroy]: target_header "@,
            text::debug_text(value),
        ),
{
    let q = text::debug_text(value);
    let luks = "[response.luks_destroy]: target_header "@;
    starts_so("unknown sensor "@, q, " (v1 supports only \"usb\")"@);
    starts_so("response.power_action "@, q, " is not one of poweroff, halt, none"@);
    starts_so("response.on_sensor_gap "@, q, " is not one of warn, kill"@);
    let entry = "whitelist entry "@ + text::decimal(index) + ": id "@;
    starts_so(entry, id.text(), " appears more than once"@);
    starts_so(entry, q, " is not a valid `vvvv:pppp` USB id"@);
    starts_so(
        "whitelist entry "@ + text::decimal(index) + " ("@,
        id.text(),
        "): max_count must be at least 1"@,
    );
    starts_so(luks, q, " must be an absolute path"@);
    starts_so(luks, q, " must not contain `..`"@);
    starts_so(
        luks,
        q,
        " must be a block device under /dev/ (this is the antidote to the `dirname('/etc')` disaster)"@,
    );
}

/// Whether a text starts with the name of a setting and the value it is about.
pub open spec fn names(t: Seq<char>, setting: Seq<char>, value: Seq<char>) -> bool {
    text::shows_at(t, setting + value, 0)
}

proof fn starts_so(a: Seq<char>, b: Seq<char>, c: Seq<char>)
    ensures
        names(a + b + c, a, b),
{
    assert((a + b + c).subrange(0, (a + b).len() as int) =~= a + b);
}

} // verus!
