//! What the log and the answers say of what was decided, refused and changed.

use crate::killbilld::config;
use crate::killbilld::config::{ConfigView, RawConfigView};
use crate::killbilld::control::PeerCred;
use crate::killbilld::daemon::journal;
use crate::killbilld::daemon::state::{Change, EffectView, PendingView};
use crate::killbilld::daemon::step;
use crate::killbilld::daemon::step::Step;
use crate::killbilld::policy::Decision;
use crate::killbilld::responder::{HostProbeView, LogLevel};
use crate::proto::protocol::{CommandView, ReplyView};
use crate::proto::sensor_event;
use crate::proto::sensor_event::{EventKind, SensorEventView, UsbId};
use crate::text;
use vstd::prelude::*;

verus! {

/// Every device event ends in one line of its own: one that policy lets pass is noted quietly; a kill
/// is a warning; a change that would have killed is noted as one, told apart by whether the kernel only
/// announced again what was there or nothing was armed.
pub proof fn a_decision_has_its_line(s: Step, event: SensorEventView, at: Seq<char>)
    ensures
        ({
            let t = step::sensor_event(s, event, at);
            let again = event.kind == EventKind::Added && event.raw.dom().contains("SYNTH_UUID"@);
            let decision = step::event_decision(s.core, event);
            t.fx.last() matches EffectView::Log(line) && {
                &&& decision is Ignore ==> line.level == LogLevel::Debug
                    && line.message == "device event — allowed"@
                &&& decision matches Decision::Act(action) ==> {
                    &&& line.fields[0].value == action.reason.text()
                    &&& s.core.armed && !again ==> line.level == LogLevel::Warn
                    &&& again ==> line == journal::announced_again(action)
                    &&& !s.core.armed && !again ==> line == journal::not_armed(action)
                }
            }
        }),
{
    reveal(step::sensor_event);
    reveal(Step::publish);
    reveal(journal::allowed);
    reveal(journal::dispatched);
    reveal(journal::announced_again);
    reveal(journal::not_armed);
}

/// Whether a command by someone who is not root is denied under its name, both in the answer and in
/// the log.
pub open spec fn denied_as(s: Step, t: Step, to: u64, peer: PeerCred, name: Seq<char>) -> bool {
    &&& t.core == s.core
    &&& t.fx == s.fx.push(EffectView::Log(journal::denied(peer, name))).push(
        EffectView::Answer {
            to,
            reply: ReplyView::Error(
                "permission denied: "@ + name + " requires uid 0 (peer uid "@ + text::decimal(
                    peer.uid as nat,
                ) + ")"@,
            ),
        },
    )
}

proof fn a_denial_has_a_name(
    s: Step,
    cmd: CommandView,
    peer: PeerCred,
    to: u64,
    host: HostProbeView,
    at: Seq<char>,
)
    requires
        peer.uid != 0,
        !(cmd is GetStatus || cmd is ListDevices || cmd is WhitelistList),
    ensures
        denied_as(s, step::command(s, cmd, peer, to, host, at), to, peer, step::command_name(cmd)),
{
    reveal(step::command);
}

/// Whoever is not root is denied each command by the name that the command line has for it.
pub proof fn a_command_is_denied_by_its_name(
    s: Step,
    cmd: CommandView,
    peer: PeerCred,
    to: u64,
    host: HostProbeView,
    at: Seq<char>,
)
    requires
        peer.uid != 0,
        !(cmd is GetStatus || cmd is ListDevices || cmd is WhitelistList),
    ensures
        ({
            let t = step::command(s, cmd, peer, to, host, at);
            &&& cmd is Arm ==> denied_as(s, t, to, peer, "arm"@)
            &&& cmd is Disarm ==> denied_as(s, t, to, peer, "disarm"@)
            &&& cmd is WhitelistAdd ==> denied_as(s, t, to, peer, "whitelist-add"@)
            &&& cmd is WhitelistRemove ==> denied_as(s, t, to, peer, "whitelist-remove"@)
            &&& cmd is RunDryRun ==> denied_as(s, t, to, peer, "dry-run"@)
            &&& cmd is ReloadConfig ==> denied_as(s, t, to, peer, "reload"@)
            &&& cmd is GetConfig ==> denied_as(s, t, to, peer, "config-show"@)
            &&& cmd is ConfigSet ==> denied_as(s, t, to, peer, "config-set"@)
            &&& cmd is SetLuksDestroyEngaged ==> denied_as(s, t, to, peer, "luks-engage"@)
            &&& cmd is Subscribe ==> denied_as(s, t, to, peer, "subscribe"@)
        }),
{
    a_denial_has_a_name(s, cmd, peer, to, host, at);
}

/// A dry run's line counts the reasons that its answer holds.
pub proof fn a_dry_run_is_logged_with_its_hits(s: Step, to: u64, at: Seq<char>)
    ensures
        ({
            let t = step::dry_run(s, to, at);
            t.fx.last() matches EffectView::Answer { to: a, reply: ReplyView::DryRun(reasons) } && {
                &&& a == to
                &&& t.fx[t.fx.len() - 2] matches EffectView::Log(line) && journal::field_at(
                    line,
                    0,
                    "hits"@,
                    text::decimal(reasons.len()),
                )
            }
        }),
{
    reveal(step::dry_run);
    reveal(journal::dry_run_done);
}

/// Taking an entry off the whitelist that is not on it is an error that names the id, and changes
/// nothing; taking off one that is there hands the writer a whitelist without it.
pub proof fn only_a_listed_entry_is_removed(s: Step, id: UsbId, to: u64, host: HostProbeView)
    requires
        s.core.config_error is None,
        s.core.pending is None,
    ensures
        ({
            let t = step::whitelist_remove(s, id, to, host);
            let listed = exists|i: int|
                0 <= i < s.core.raw.whitelist.len()
                    && sensor_event::usb_id_of((#[trigger] s.core.raw.whitelist[i]).id)
                    == Some(id);
            &&& !listed ==> t.core == s.core && t.fx == s.fx.push(
                EffectView::Answer {
                    to,
                    reply: ReplyView::Error("no whitelist entry for "@ + id.text()),
                },
            )
            &&& t.core.pending matches Some(PendingView::Write { raw, change, to: a }) ==> {
                &&& listed && change == Change::WhitelistRemove && a == to
                &&& t.fx.last() == EffectView::Persist(raw)
                &&& raw == (RawConfigView { whitelist: raw.whitelist, ..s.core.raw })
                &&& forall|i: int|
                    0 <= i < raw.whitelist.len() ==> sensor_event::usb_id_of(
                        (#[trigger] raw.whitelist[i]).id,
                    ) != Some(id)
            }
        }),
{
    let rest = s.core.raw.whitelist.filter(step::is_for_another(id));
    assert forall|i: int| 0 <= i < rest.len() implies sensor_event::usb_id_of(
        (#[trigger] rest[i]).id,
    ) != Some(id) by {
        s.core.raw.whitelist.filter_lemma(step::is_for_another(id));
        assert(step::is_for_another(id)(rest[i]));
    }
}

/// A reload is told for what stopped it: an unreadable or invalid file leaves its error to be shown
/// with the config, one that is fine but cannot be acted on leaves none, and a good one clears it.
pub proof fn a_failed_reload_is_shown(
    s: Step,
    loaded: Result<RawConfigView, Seq<char>>,
    to: u64,
    host: HostProbeView,
    at: Seq<char>,
)
    requires
        s.core.pending == Some(PendingView::Reload { to }),
    ensures
        ({
            let t = step::config_reloaded(s, loaded, host, at);
            &&& loaded matches Err(e) ==> t.core.disk_error == Some(e)
            &&& loaded matches Ok(raw) ==> {
                &&& config::config_errors(raw).len() > 0 ==> t.core.disk_error == Some(
                    config::report_text(config::config_errors(raw)),
                )
                &&& config::config_errors(raw).len() == 0 ==> t.core.disk_error is None
            }
        }),
{
    reveal(step::config_reloaded);
    reveal(Step::publish);
}

/// While armed, a config that takes effect has its own line where it turns kills into drills, and one
/// where it changes the power action, with what it was and what it is; while disarmed, or where
/// neither changes, it has only the line that every change has.
pub proof fn a_weaker_config_is_warned_of(s: Step, raw: RawConfigView, label: Seq<char>)
    ensures
        ({
            let t = step::swap(s, raw, label);
            let new = config::resolved(raw);
            let drills = s.core.armed && new.dry_run && !s.core.config.dry_run;
            let powers = s.core.armed && new.power_action != s.core.config.power_action;
            &&& t.fx[s.fx.len() as int] == EffectView::Log(journal::updated(label))
            &&& drills ==> t.fx[(s.fx.len() + 1) as int] == EffectView::Log(
                journal::dry_run_set(label),
            )
            &&& powers ==> t.fx.last() == EffectView::Log(
                journal::power_changed(label, s.core.config.power_action, new.power_action),
            )
            &&& t.fx.len() == s.fx.len() + 1 + (if drills {
                1int
            } else {
                0
            }) + (if powers {
                1int
            } else {
                0
            })
        }),
{
}

/// A boot arm that is refused is logged as an error that says why, and stays wished for.
pub proof fn a_refused_boot_arm_is_logged(s: Step, host: HostProbeView, at: Seq<char>)
    requires
        !s.core.armed,
        step::arm_refusal(s.core, host) is Some,
    ensures
        ({
            let t = step::boot_arm(s, host, at);
            let why = step::arm_refusal(s.core, host)->0;
            &&& t.core == s.core
            &&& t.fx.len() == s.fx.len() + 1
            &&& t.fx.last() matches EffectView::Log(line) && line.level == LogLevel::Error
                && text::shows(line.message, why)
        }),
{
    reveal(journal::boot_arm_failed);
    let why = step::arm_refusal(s.core, host)->0;
    let start = "armed_at_boot is set but arming failed — staying DISARMED (fail closed); will retry if the sensor restarts:\n"@;
    text::what_is_added_shows(start, why, Seq::empty());
    assert(start + why + Seq::<char>::empty() =~= start + why);
}

/// What is done about a gap is what config says of kills, and never destroys anything.
pub proof fn a_gap_does_what_config_says(cfg: ConfigView)
    ensures
        step::gap_action(cfg).power == cfg.power_action,
        step::gap_action(cfg).dry_run == cfg.dry_run,
        !step::gap_action(cfg).luks_destroy,
        step::gap_action(cfg).reason is SensorGap,
{
}

} // verus!
