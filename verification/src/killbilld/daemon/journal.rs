//! The lines that the core writes to the log: what happened, and who asked for it.

use crate::killbilld::config::{Config, ConfigView};
use crate::killbilld::control::PeerCred;
use crate::killbilld::daemon::startup::STARTUP_CEILING_MS;
use crate::killbilld::daemon::state::MAX_SUBSCRIBERS;
use crate::killbilld::responder;
use crate::killbilld::responder::{LogLevel, LogLine, LogLineView};
use crate::proto::action::{Action, PowerAction};
use crate::proto::sensor_event::{EventKind, UsbId};
use crate::text;
use vstd::prelude::*;

verus! {

/// The word for a kind of device event.
pub open spec fn kind_word(kind: EventKind) -> Seq<char> {
    match kind {
        EventKind::Added => "Added"@,
        EventKind::Removed => "Removed"@,
    }
}

/// The word for a kind of device event.
fn kind_text(kind: EventKind) -> (r: &'static str)
    ensures
        r@ == kind_word(kind),
{
    match kind {
        EventKind::Added => "Added",
        EventKind::Removed => "Removed",
    }
}

/// The word for the id of a device, which may not be known.
pub open spec fn id_word(id: Option<UsbId>) -> Seq<char> {
    match id {
        Some(id) => id.text(),
        None => "none"@,
    }
}

/// The word for the id of a device, which may not be known.
fn id_text(id: Option<UsbId>) -> (r: String)
    ensures
        r@ == id_word(id),
{
    match id {
        Some(id) => id.to_text(),
        None => "none".to_owned(),
    }
}

/// The sensor watches.
#[verifier::opaque]
pub open spec fn watching() -> LogLineView {
    LogLineView::plain(LogLevel::Info, "USB sensor is watching"@)
}

/// The sensor watches.
pub fn watching_line() -> (r: LogLine)
    ensures
        r@ == watching(),
{
    proof {
        reveal(watching);
    }
    LogLine::plain(LogLevel::Info, "USB sensor is watching".to_owned())
}

/// A device event that policy lets pass.
#[verifier::opaque]
pub open spec fn allowed(kind: EventKind, id: Option<UsbId>) -> LogLineView {
    LogLineView::plain(LogLevel::Debug, "device event — allowed"@)
        .with("kind"@, kind_word(kind))
        .with("id"@, id_word(id))
}

/// A device event that policy lets pass.
pub fn allowed_line(kind: EventKind, id: Option<UsbId>) -> (r: LogLine)
    ensures
        r@ == allowed(kind, id),
{
    proof {
        reveal(allowed);
    }
    LogLine::plain(LogLevel::Debug, "device event — allowed".to_owned())
        .with("kind", kind_text(kind).to_owned())
        .with("id", id_text(id))
}

/// A device event that was answered with a kill. One that the kernel synthesized can be told apart.
#[verifier::opaque]
pub open spec fn dispatched(action: Action, synthesized: bool) -> LogLineView {
    LogLineView::plain(LogLevel::Warn, "UNAUTHORIZED USB EVENT — kill action dispatched to all responders"@)
        .with("reason"@, action.reason.text())
        .with("power"@, action.power.word())
        .with("dry_run"@, responder::flag_word(action.dry_run))
        .with("luks_destroy"@, responder::flag_word(action.luks_destroy))
        .with("synthetic_uevent"@, responder::flag_word(synthesized))
}

/// A device event that was answered with a kill. One that the kernel synthesized can be told apart.
pub fn dispatched_line(action: &Action, synthesized: bool) -> (r: LogLine)
    ensures
        r@ == dispatched(*action, synthesized),
{
    proof {
        reveal(dispatched);
    }
    LogLine::plain(LogLevel::Warn, "UNAUTHORIZED USB EVENT — kill action dispatched to all responders".to_owned())
        .with("reason", action.reason.to_text())
        .with("power", action.power.as_str().to_owned())
        .with("dry_run", responder::flag_text(action.dry_run).to_owned())
        .with("luks_destroy", responder::flag_text(action.luks_destroy).to_owned())
        .with("synthetic_uevent", responder::flag_text(synthesized).to_owned())
}

/// A device that was there before the daemon, announced by the kernel on request.
#[verifier::opaque]
pub open spec fn announced_again(action: Action) -> LogLineView {
    LogLineView::plain(LogLevel::Info, "policy would fire for a device announced by a synthetic uevent (already present at startup) — NOT acting; whitelist it or restart with it connected"@)
        .with("reason"@, action.reason.text())
}

/// A device that was there before the daemon, announced by the kernel on request.
pub fn announced_again_line(action: &Action) -> (r: LogLine)
    ensures
        r@ == announced_again(*action),
{
    proof {
        reveal(announced_again);
    }
    LogLine::plain(LogLevel::Info, "policy would fire for a device announced by a synthetic uevent (already present at startup) — NOT acting; whitelist it or restart with it connected".to_owned())
        .with("reason", action.reason.to_text())
}

/// An unauthorized device event while disarmed.
#[verifier::opaque]
pub open spec fn not_armed(action: Action) -> LogLineView {
    LogLineView::plain(LogLevel::Info, "unauthorized USB event while DISARMED — recorded, not acted on"@)
        .with("reason"@, action.reason.text())
}

/// An unauthorized device event while disarmed.
pub fn not_armed_line(action: &Action) -> (r: LogLine)
    ensures
        r@ == not_armed(*action),
{
    proof {
        reveal(not_armed);
    }
    LogLine::plain(LogLevel::Info, "unauthorized USB event while DISARMED — recorded, not acted on".to_owned())
        .with("reason", action.reason.to_text())
}

/// A sensor gap that was answered with a kill.
#[verifier::opaque]
pub open spec fn gap_dispatched(cfg: ConfigView) -> LogLineView {
    LogLineView::plain(LogLevel::Error, "USB sensor gap while ARMED and on_sensor_gap = kill — gap kill dispatched to all responders"@)
        .with("dry_run"@, responder::flag_word(cfg.dry_run))
        .with("power_action"@, cfg.power_action.word())
}

/// A sensor gap that was answered with a kill.
pub fn gap_dispatched_line(cfg: &Config) -> (r: LogLine)
    ensures
        r@ == gap_dispatched(cfg@),
{
    proof {
        reveal(gap_dispatched);
    }
    LogLine::plain(LogLevel::Error, "USB sensor gap while ARMED and on_sensor_gap = kill — gap kill dispatched to all responders".to_owned())
        .with("dry_run", responder::flag_text(cfg.dry_run).to_owned())
        .with("power_action", cfg.power_action.as_str().to_owned())
}

/// Lost events that would be a kill if armed.
#[verifier::opaque]
pub open spec fn lost_disarmed() -> LogLineView {
    LogLineView::plain(LogLevel::Error, "the USB sensor lost events — on_sensor_gap = kill but DISARMED; not acting"@)
}

/// Lost events that would be a kill if armed.
pub fn lost_disarmed_line() -> (r: LogLine)
    ensures
        r@ == lost_disarmed(),
{
    proof {
        reveal(lost_disarmed);
    }
    LogLine::plain(LogLevel::Error, "the USB sensor lost events — on_sensor_gap = kill but DISARMED; not acting".to_owned())
}

/// Lost events that config only warns of.
#[verifier::opaque]
pub open spec fn lost_warned() -> LogLineView {
    LogLineView::plain(LogLevel::Error, "the USB sensor lost events (buffer overflow or an unparseable datagram) — some device changes were MISSED. `status` now reports events_lost and the daemon will not (re)arm until restarted. (set response.on_sensor_gap = \"kill\" to power off on this instead.)"@)
}

/// Lost events that config only warns of.
pub fn lost_warned_line() -> (r: LogLine)
    ensures
        r@ == lost_warned(),
{
    proof {
        reveal(lost_warned);
    }
    LogLine::plain(LogLevel::Error, "the USB sensor lost events (buffer overflow or an unparseable datagram) — some device changes were MISSED. `status` now reports events_lost and the daemon will not (re)arm until restarted. (set response.on_sensor_gap = \"kill\" to power off on this instead.)".to_owned())
}

/// A boot arm that a sensor restart ended.
#[verifier::opaque]
pub open spec fn boot_arm_cleared() -> LogLineView {
    LogLineView::plain(LogLevel::Warn, "clearing the pending armed_at_boot arm — the USB sensor restarted before it completed; the device set can no longer be accounted for. Restart killbilld once it is trustworthy, or arm manually."@)
}

/// A boot arm that a sensor restart ended.
pub fn boot_arm_cleared_line() -> (r: LogLine)
    ensures
        r@ == boot_arm_cleared(),
{
    proof {
        reveal(boot_arm_cleared);
    }
    LogLine::plain(LogLevel::Warn, "clearing the pending armed_at_boot arm — the USB sensor restarted before it completed; the device set can no longer be accounted for. Restart killbilld once it is trustworthy, or arm manually.".to_owned())
}

/// A sensor restart that would be a kill if armed.
#[verifier::opaque]
pub open spec fn stopped_disarmed() -> LogLineView {
    LogLineView::plain(LogLevel::Error, "the USB sensor thread stopped — on_sensor_gap = kill but DISARMED; not acting"@)
}

/// A sensor restart that would be a kill if armed.
pub fn stopped_disarmed_line() -> (r: LogLine)
    ensures
        r@ == stopped_disarmed(),
{
    proof {
        reveal(stopped_disarmed);
    }
    LogLine::plain(LogLevel::Error, "the USB sensor thread stopped — on_sensor_gap = kill but DISARMED; not acting".to_owned())
}

/// A sensor restart that config only warns of.
#[verifier::opaque]
pub open spec fn stopped_warned() -> LogLineView {
    LogLineView::plain(LogLevel::Error, "the USB sensor thread stopped and is being respawned — device changes are NOT being seen until it is back. Armed state is unchanged, but `status` now reports events_lost and the daemon will not (re)arm until it is restarted."@)
}

/// A sensor restart that config only warns of.
pub fn stopped_warned_line() -> (r: LogLine)
    ensures
        r@ == stopped_warned(),
{
    proof {
        reveal(stopped_warned);
    }
    LogLine::plain(LogLevel::Error, "the USB sensor thread stopped and is being respawned — device changes are NOT being seen until it is back. Armed state is unchanged, but `status` now reports events_lost and the daemon will not (re)arm until it is restarted.".to_owned())
}

/// The end of the sensor.
#[verifier::opaque]
pub open spec fn ended() -> LogLineView {
    LogLineView::plain(LogLevel::Error, "the USB sensor could not be kept running — device changes are no longer being seen. killbilld is exiting non-zero so its supervisor (systemd Restart=on-failure) starts a fresh instance. Armed state is not changed here (invariant 5)."@)
}

/// The end of the sensor.
pub fn ended_line() -> (r: LogLine)
    ensures
        r@ == ended(),
{
    proof {
        reveal(ended);
    }
    LogLine::plain(LogLevel::Error, "the USB sensor could not be kept running — device changes are no longer being seen. killbilld is exiting non-zero so its supervisor (systemd Restart=on-failure) starts a fresh instance. Armed state is not changed here (invariant 5).".to_owned())
}

/// A command that takes root, from another peer.
#[verifier::opaque]
pub open spec fn denied(peer: PeerCred, command: Seq<char>) -> LogLineView {
    LogLineView::plain(LogLevel::Warn, "denied a privileged control command from a non-root peer"@)
        .with("peer_uid"@, text::decimal(peer.uid as nat))
        .with("peer_pid"@, text::signed(peer.pid as int))
        .with("command"@, command)
}

/// A command that takes root, from another peer.
pub fn denied_line(peer: PeerCred, command: &str) -> (r: LogLine)
    ensures
        r@ == denied(peer, command@),
{
    proof {
        reveal(denied);
    }
    LogLine::plain(LogLevel::Warn, "denied a privileged control command from a non-root peer".to_owned())
        .with("peer_uid", text::decimal_text(peer.uid as u64))
        .with("peer_pid", text::signed_text(peer.pid))
        .with("command", command.to_owned())
}

/// An arm request that was refused.
#[verifier::opaque]
pub open spec fn arm_refused(peer: PeerCred, reason: Seq<char>) -> LogLineView {
    LogLineView::plain(LogLevel::Warn, "arm request REFUSED"@)
        .with("peer_uid"@, text::decimal(peer.uid as nat))
        .with("peer_pid"@, text::signed(peer.pid as int))
        .with("reason"@, reason)
}

/// An arm request that was refused.
pub fn arm_refused_line(peer: PeerCred, reason: &str) -> (r: LogLine)
    ensures
        r@ == arm_refused(peer, reason@),
{
    proof {
        reveal(arm_refused);
    }
    LogLine::plain(LogLevel::Warn, "arm request REFUSED".to_owned())
        .with("peer_uid", text::decimal_text(peer.uid as u64))
        .with("peer_pid", text::signed_text(peer.pid))
        .with("reason", reason.to_owned())
}

/// Arming, and who asked for it.
#[verifier::opaque]
pub open spec fn armed(peer: PeerCred, cfg: ConfigView) -> LogLineView {
    LogLineView::plain(LogLevel::Warn, "ARMED"@)
        .with("peer_uid"@, text::decimal(peer.uid as nat))
        .with("peer_pid"@, text::signed(peer.pid as int))
        .with("dry_run"@, responder::flag_word(cfg.dry_run))
        .with("power_action"@, cfg.power_action.word())
}

/// Arming, and who asked for it.
pub fn armed_line(peer: PeerCred, cfg: &Config) -> (r: LogLine)
    ensures
        r@ == armed(peer, cfg@),
{
    proof {
        reveal(armed);
    }
    LogLine::plain(LogLevel::Warn, "ARMED".to_owned())
        .with("peer_uid", text::decimal_text(peer.uid as u64))
        .with("peer_pid", text::signed_text(peer.pid))
        .with("dry_run", responder::flag_text(cfg.dry_run).to_owned())
        .with("power_action", cfg.power_action.as_str().to_owned())
}

/// Disarming, and who asked for it.
#[verifier::opaque]
pub open spec fn disarmed(peer: PeerCred) -> LogLineView {
    LogLineView::plain(LogLevel::Warn, "DISARMED"@)
        .with("peer_uid"@, text::decimal(peer.uid as nat))
        .with("peer_pid"@, text::signed(peer.pid as int))
}

/// Disarming, and who asked for it.
pub fn disarmed_line(peer: PeerCred) -> (r: LogLine)
    ensures
        r@ == disarmed(peer),
{
    proof {
        reveal(disarmed);
    }
    LogLine::plain(LogLevel::Warn, "DISARMED".to_owned())
        .with("peer_uid", text::decimal_text(peer.uid as u64))
        .with("peer_pid", text::signed_text(peer.pid))
}

/// A disarm request that changes nothing.
#[verifier::opaque]
pub open spec fn disarmed_already(peer: PeerCred) -> LogLineView {
    LogLineView::plain(LogLevel::Info, "disarm command received while already disarmed"@)
        .with("peer_uid"@, text::decimal(peer.uid as nat))
        .with("peer_pid"@, text::signed(peer.pid as int))
}

/// A disarm request that changes nothing.
pub fn disarmed_already_line(peer: PeerCred) -> (r: LogLine)
    ensures
        r@ == disarmed_already(peer),
{
    proof {
        reveal(disarmed_already);
    }
    LogLine::plain(LogLevel::Info, "disarm command received while already disarmed".to_owned())
        .with("peer_uid", text::decimal_text(peer.uid as u64))
        .with("peer_pid", text::signed_text(peer.pid))
}

/// An event subscription from a peer other than root.
#[verifier::opaque]
pub open spec fn subscription_denied(peer: PeerCred) -> LogLineView {
    LogLineView::plain(LogLevel::Warn, "denied an event subscription from a non-root peer"@)
        .with("peer_uid"@, text::decimal(peer.uid as nat))
        .with("peer_pid"@, text::signed(peer.pid as int))
}

/// An event subscription from a peer other than root.
pub fn subscription_denied_line(peer: PeerCred) -> (r: LogLine)
    ensures
        r@ == subscription_denied(peer),
{
    proof {
        reveal(subscription_denied);
    }
    LogLine::plain(LogLevel::Warn, "denied an event subscription from a non-root peer".to_owned())
        .with("peer_uid", text::decimal_text(peer.uid as u64))
        .with("peer_pid", text::signed_text(peer.pid))
}

/// An event subscription beyond the limit.
#[verifier::opaque]
pub open spec fn subscribers_full() -> LogLineView {
    LogLineView::plain(LogLevel::Warn, "refusing an event subscriber — already at the limit"@)
        .with("limit"@, text::decimal(MAX_SUBSCRIBERS as nat))
}

/// An event subscription beyond the limit.
pub fn subscribers_full_line() -> (r: LogLine)
    ensures
        r@ == subscribers_full(),
{
    proof {
        reveal(subscribers_full);
    }
    LogLine::plain(LogLevel::Warn, "refusing an event subscriber — already at the limit".to_owned())
        .with("limit", text::decimal_text(MAX_SUBSCRIBERS as u64))
}

/// A config change that is not valid.
#[verifier::opaque]
pub open spec fn change_invalid(change: Seq<char>, report: Seq<char>) -> LogLineView {
    LogLineView::plain(LogLevel::Warn, "config change REJECTED — file untouched"@)
        .with("change"@, change)
        .with("report"@, report)
}

/// A config change that is not valid.
pub fn change_invalid_line(change: &str, report: &str) -> (r: LogLine)
    ensures
        r@ == change_invalid(change@, report@),
{
    proof {
        reveal(change_invalid);
    }
    LogLine::plain(LogLevel::Warn, "config change REJECTED — file untouched".to_owned())
        .with("change", change.to_owned())
        .with("report", report.to_owned())
}

/// A config change that would leave an armed daemon unable to act.
#[verifier::opaque]
pub open spec fn change_unready(change: Seq<char>, failures: Seq<char>) -> LogLineView {
    LogLineView::plain(LogLevel::Warn, "config change REJECTED while armed — a responder would no longer be able to act"@)
        .with("change"@, change)
        .with("failures"@, failures)
}

/// A config change that would leave an armed daemon unable to act.
pub fn change_unready_line(change: &str, failures: &str) -> (r: LogLine)
    ensures
        r@ == change_unready(change@, failures@),
{
    proof {
        reveal(change_unready);
    }
    LogLine::plain(LogLevel::Warn, "config change REJECTED while armed — a responder would no longer be able to act".to_owned())
        .with("change", change.to_owned())
        .with("failures", failures.to_owned())
}

/// A config change that could not be written.
#[verifier::opaque]
pub open spec fn not_persisted(change: Seq<char>, error: Seq<char>) -> LogLineView {
    LogLineView::plain(LogLevel::Error, "config change validated but could NOT be persisted; running config unchanged"@)
        .with("change"@, change)
        .with("error"@, error)
}

/// A config change that could not be written.
pub fn not_persisted_line(change: &str, error: &str) -> (r: LogLine)
    ensures
        r@ == not_persisted(change@, error@),
{
    proof {
        reveal(not_persisted);
    }
    LogLine::plain(LogLevel::Error, "config change validated but could NOT be persisted; running config unchanged".to_owned())
        .with("change", change.to_owned())
        .with("error", error.to_owned())
}

/// A reload of a file that cannot be read.
#[verifier::opaque]
pub open spec fn reload_unreadable(error: Seq<char>) -> LogLineView {
    LogLineView::plain(LogLevel::Error, "reload REJECTED — the config file could not be read; running config and armed state kept (invariant 2), on-disk file differs and needs fixing"@)
        .with("error"@, error)
}

/// A reload of a file that cannot be read.
pub fn reload_unreadable_line(error: &str) -> (r: LogLine)
    ensures
        r@ == reload_unreadable(error@),
{
    proof {
        reveal(reload_unreadable);
    }
    LogLine::plain(LogLevel::Error, "reload REJECTED — the config file could not be read; running config and armed state kept (invariant 2), on-disk file differs and needs fixing".to_owned())
        .with("error", error.to_owned())
}

/// A reload of a config that is not valid.
#[verifier::opaque]
pub open spec fn reload_invalid(report: Seq<char>) -> LogLineView {
    LogLineView::plain(LogLevel::Error, "reload REJECTED — the config on disk is invalid; running config and armed state kept (invariant 2), on-disk file differs and needs fixing"@)
        .with("report"@, report)
}

/// A reload of a config that is not valid.
pub fn reload_invalid_line(report: &str) -> (r: LogLine)
    ensures
        r@ == reload_invalid(report@),
{
    proof {
        reveal(reload_invalid);
    }
    LogLine::plain(LogLevel::Error, "reload REJECTED — the config on disk is invalid; running config and armed state kept (invariant 2), on-disk file differs and needs fixing".to_owned())
        .with("report", report.to_owned())
}

/// A reload that would leave an armed daemon unable to act.
#[verifier::opaque]
pub open spec fn reload_unready(failures: Seq<char>) -> LogLineView {
    LogLineView::plain(LogLevel::Error, "reload REJECTED while armed — a responder would no longer be able to act; running config kept, on-disk file differs"@)
        .with("failures"@, failures)
}

/// A reload that would leave an armed daemon unable to act.
pub fn reload_unready_line(failures: &str) -> (r: LogLine)
    ensures
        r@ == reload_unready(failures@),
{
    proof {
        reveal(reload_unready);
    }
    LogLine::plain(LogLevel::Error, "reload REJECTED while armed — a responder would no longer be able to act; running config kept, on-disk file differs".to_owned())
        .with("failures", failures.to_owned())
}

/// A config that took effect.
#[verifier::opaque]
pub open spec fn updated(change: Seq<char>) -> LogLineView {
    LogLineView::plain(LogLevel::Info, "configuration updated"@)
        .with("change"@, change)
}

/// A config that took effect.
pub fn updated_line(change: &str) -> (r: LogLine)
    ensures
        r@ == updated(change@),
{
    proof {
        reveal(updated);
    }
    LogLine::plain(LogLevel::Info, "configuration updated".to_owned())
        .with("change", change.to_owned())
}

/// A config change that takes the teeth out of an armed daemon.
#[verifier::opaque]
pub open spec fn dry_run_set(change: Seq<char>) -> LogLineView {
    LogLineView::plain(LogLevel::Warn, "this change set dry_run = true while ARMED — a kill would now only be logged"@)
        .with("change"@, change)
}

/// A config change that takes the teeth out of an armed daemon.
pub fn dry_run_set_line(change: &str) -> (r: LogLine)
    ensures
        r@ == dry_run_set(change@),
{
    proof {
        reveal(dry_run_set);
    }
    LogLine::plain(LogLevel::Warn, "this change set dry_run = true while ARMED — a kill would now only be logged".to_owned())
        .with("change", change.to_owned())
}

/// A config change that alters what an armed daemon does.
#[verifier::opaque]
pub open spec fn power_changed(change: Seq<char>, from: PowerAction, to: PowerAction) -> LogLineView {
    LogLineView::plain(LogLevel::Warn, "this change altered power_action while ARMED"@)
        .with("change"@, change)
        .with("from"@, from.word())
        .with("to"@, to.word())
}

/// A config change that alters what an armed daemon does.
pub fn power_changed_line(change: &str, from: PowerAction, to: PowerAction) -> (r: LogLine)
    ensures
        r@ == power_changed(change@, from, to),
{
    proof {
        reveal(power_changed);
    }
    LogLine::plain(LogLevel::Warn, "this change altered power_action while ARMED".to_owned())
        .with("change", change.to_owned())
        .with("from", from.as_str().to_owned())
        .with("to", to.as_str().to_owned())
}

/// A dry run, and how many devices it would have killed for.
#[verifier::opaque]
pub open spec fn dry_run_done(hits: nat) -> LogLineView {
    LogLineView::plain(LogLevel::Info, "dry run evaluated the connected device set"@)
        .with("hits"@, text::decimal(hits))
}

/// A dry run, and how many devices it would have killed for.
pub fn dry_run_done_line(hits: usize) -> (r: LogLine)
    ensures
        r@ == dry_run_done(hits as nat),
{
    proof {
        reveal(dry_run_done);
    }
    LogLine::plain(LogLevel::Info, "dry run evaluated the connected device set".to_owned())
        .with("hits", text::decimal_text(hits as u64))
}

/// A boot arm that was refused.
#[verifier::opaque]
pub open spec fn boot_arm_failed(reason: Seq<char>) -> LogLineView {
    LogLineView::plain(LogLevel::Error, "armed_at_boot is set but arming failed — staying DISARMED (fail closed); will retry if the sensor restarts:\n"@ + reason)
}

/// A boot arm that was refused.
pub fn boot_arm_failed_line(reason: &str) -> (r: LogLine)
    ensures
        r@ == boot_arm_failed(reason@),
{
    proof {
        reveal(boot_arm_failed);
    }
    LogLine::plain(LogLevel::Error, "armed_at_boot is set but arming failed — staying DISARMED (fail closed); will retry if the sensor restarts:\n".to_owned().concat(reason))
}

/// A boot arm that a gap at startup rules out.
#[verifier::opaque]
pub open spec fn boot_arm_gap() -> LogLineView {
    LogLineView::plain(LogLevel::Error, "armed_at_boot is set but the USB sensor reported a gap during startup — staying DISARMED (fail closed); restart killbilld once the sensor is healthy"@)
}

/// A boot arm that a gap at startup rules out.
pub fn boot_arm_gap_line() -> (r: LogLine)
    ensures
        r@ == boot_arm_gap(),
{
    proof {
        reveal(boot_arm_gap);
    }
    LogLine::plain(LogLevel::Error, "armed_at_boot is set but the USB sensor reported a gap during startup — staying DISARMED (fail closed); restart killbilld once the sensor is healthy".to_owned())
}

/// A boot arm that waits for the sensor.
#[verifier::opaque]
pub open spec fn boot_arm_waits() -> LogLineView {
    LogLineView::plain(LogLevel::Warn, "armed_at_boot is set but the USB sensor has not started yet — staying DISARMED; the daemon will arm as soon as the sensor is watching"@)
        .with("ceiling_secs"@, text::decimal((STARTUP_CEILING_MS / 1000) as nat))
}

/// A boot arm that waits for the sensor.
pub fn boot_arm_waits_line() -> (r: LogLine)
    ensures
        r@ == boot_arm_waits(),
{
    proof {
        reveal(boot_arm_waits);
    }
    LogLine::plain(LogLevel::Warn, "armed_at_boot is set but the USB sensor has not started yet — staying DISARMED; the daemon will arm as soon as the sensor is watching".to_owned())
        .with("ceiling_secs", text::decimal_text(STARTUP_CEILING_MS / 1000))
}

/// A daemon that starts on a config it cannot use.
#[verifier::opaque]
pub open spec fn config_invalid(error: Seq<char>) -> LogLineView {
    LogLineView::plain(LogLevel::Error, "configuration is INVALID — the daemon is running but WILL NOT ARM until it is fixed and reloaded (invariant 2):\n"@ + error)
}

/// A daemon that starts on a config it cannot use.
pub fn config_invalid_line(error: &str) -> (r: LogLine)
    ensures
        r@ == config_invalid(error@),
{
    proof {
        reveal(config_invalid);
    }
    LogLine::plain(LogLevel::Error, "configuration is INVALID — the daemon is running but WILL NOT ARM until it is fixed and reloaded (invariant 2):\n".to_owned().concat(error))
}

/// A daemon that starts on a valid config.
#[verifier::opaque]
pub open spec fn config_loaded(cfg: ConfigView) -> LogLineView {
    LogLineView::plain(LogLevel::Info, "configuration loaded"@)
        .with("whitelist"@, text::decimal(cfg.whitelist.len()))
        .with("dry_run"@, responder::flag_word(cfg.dry_run))
        .with("power_action"@, cfg.power_action.word())
}

/// A daemon that starts on a valid config.
pub fn config_loaded_line(cfg: &Config) -> (r: LogLine)
    ensures
        r@ == config_loaded(cfg@),
{
    proof {
        reveal(config_loaded);
    }
    LogLine::plain(LogLevel::Info, "configuration loaded".to_owned())
        .with("whitelist", text::decimal_text(cfg.whitelist.len() as u64))
        .with("dry_run", responder::flag_text(cfg.dry_run).to_owned())
        .with("power_action", cfg.power_action.as_str().to_owned())
}

/// The field of a line with this name, if it has one at this place.
pub open spec fn field_at(line: LogLineView, i: int, name: Seq<char>, value: Seq<char>) -> bool {
    0 <= i < line.fields.len() && line.fields[i].name == name && line.fields[i].value == value
}

/// A kill's line is a warning that says why it fired and what it does; a gap kill's is an error; what
/// was not acted on is said more quietly, and with its reason.
pub proof fn a_kill_is_logged_with_what_it_does(action: Action, synthesized: bool, cfg: ConfigView)
    ensures
        ({
            let line = dispatched(action, synthesized);
            &&& line.level == LogLevel::Warn
            &&& field_at(line, 0, "reason"@, action.reason.text())
            &&& field_at(line, 1, "power"@, action.power.word())
            &&& field_at(line, 2, "dry_run"@, if action.dry_run {
                "true"@
            } else {
                "false"@
            })
            &&& field_at(line, 3, "luks_destroy"@, if action.luks_destroy {
                "true"@
            } else {
                "false"@
            })
            &&& field_at(line, 4, "synthetic_uevent"@, if synthesized {
                "true"@
            } else {
                "false"@
            })
        }),
        announced_again(action).level == LogLevel::Info,
        field_at(announced_again(action), 0, "reason"@, action.reason.text()),
        not_armed(action).level == LogLevel::Info,
        field_at(not_armed(action), 0, "reason"@, action.reason.text()),
        gap_dispatched(cfg).level == LogLevel::Error,
        field_at(gap_dispatched(cfg), 1, "power_action"@, cfg.power_action.word()),
{
    reveal(dispatched);
    reveal(announced_again);
    reveal(not_armed);
    reveal(gap_dispatched);
}

/// An arm's line says who asked for it and what is armed; a change's line says which change it was
/// and what was wrong with it.
pub proof fn a_change_is_logged_with_what_it_was(
    peer: PeerCred,
    cfg: ConfigView,
    change: Seq<char>,
    why: Seq<char>,
    from: PowerAction,
    to: PowerAction,
)
    ensures
        armed(peer, cfg).level == LogLevel::Warn && armed(peer, cfg).message == "ARMED"@,
        disarmed(peer).level == LogLevel::Warn && disarmed(peer).message == "DISARMED"@,
        field_at(armed(peer, cfg), 2, "dry_run"@, if cfg.dry_run {
            "true"@
        } else {
            "false"@
        }),
        field_at(armed(peer, cfg), 3, "power_action"@, cfg.power_action.word()),
        field_at(arm_refused(peer, why), 2, "reason"@, why),
        field_at(change_invalid(change, why), 0, "change"@, change),
        field_at(change_invalid(change, why), 1, "report"@, why),
        field_at(change_unready(change, why), 0, "change"@, change),
        field_at(change_unready(change, why), 1, "failures"@, why),
        field_at(not_persisted(change, why), 0, "change"@, change),
        field_at(not_persisted(change, why), 1, "error"@, why),
        not_persisted(change, why).level == LogLevel::Error,
        field_at(reload_unreadable(why), 0, "error"@, why),
        field_at(reload_invalid(why), 0, "report"@, why),
        field_at(reload_unready(why), 0, "failures"@, why),
        field_at(updated(change), 0, "change"@, change),
        field_at(power_changed(change, from, to), 1, "from"@, from.word()),
        field_at(power_changed(change, from, to), 2, "to"@, to.word()),
{
    reveal(armed);
    reveal(disarmed);
    reveal(arm_refused);
    reveal(change_invalid);
    reveal(change_unready);
    reveal(not_persisted);
    reveal(reload_unreadable);
    reveal(reload_invalid);
    reveal(reload_unready);
    reveal(updated);
    reveal(power_changed);
}

} // verus!
