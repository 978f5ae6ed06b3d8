//! The poweroff responder: the reason the tool exists.
//!
//! On a real kill the power goes at once: no logging comes before it, because a
//! blocked log sink would sit between the decision and the syscall.

use crate::killbilld::responder::{
    HostProbe, HostProbeView, LogField, LogFieldView, LogLevel, LogLine, LogLineView, Responder,
    ResponderNotReady, Response, ResponseView,
};
use crate::killbilld::sensor::uevent;
use crate::proto::action::{Action, PowerAction};
use crate::text;
use vstd::prelude::*;

verus! {

/// Performs the power action on a real kill.
#[derive(Debug, Clone, Copy, PartialEq, Eq, Structural)]
pub struct PoweroffResponder;

/// What [`PoweroffResponder`] should do for a given [`Action`].
#[derive(Debug, Clone, Copy, PartialEq, Eq, Structural)]
pub enum PoweroffPlan {
    /// No power action is wanted. Logged; machine stays up.
    Skip,
    /// Dry run: say what would happen, touch nothing.
    Would(PowerAction),
    /// A real kill: invoke the syscall now.
    Now(PowerAction),
}

/// What the poweroff responder does for `action`.
pub open spec fn plan_for(action: Action) -> PoweroffPlan {
    if action.power == PowerAction::NoAction {
        PoweroffPlan::Skip
    } else if action.dry_run {
        PoweroffPlan::Would(action.power)
    } else {
        PoweroffPlan::Now(action.power)
    }
}

/// Decide what the poweroff responder does for `action`.
pub fn plan(action: &Action) -> (r: PoweroffPlan)
    ensures
        r == plan_for(*action),
{
    if action.power == PowerAction::NoAction {
        PoweroffPlan::Skip
    } else if action.dry_run {
        PoweroffPlan::Would(action.power)
    } else {
        PoweroffPlan::Now(action.power)
    }
}

/// The response to an action: the power action for a real kill, a log line otherwise.
pub open spec fn poweroff_response(action: Action) -> ResponseView {
    match plan_for(action) {
        PoweroffPlan::Skip => ResponseView::Log(
            LogLineView {
                level: LogLevel::Warn,
                message: "kill decision fired but power_action = none; machine stays up"@,
                fields: seq![LogFieldView { name: "reason"@, value: action.reason.text() }],
            },
        ),
        PoweroffPlan::Would(power) => ResponseView::Log(
            LogLineView {
                level: LogLevel::Warn,
                message: "DRY RUN — would "@ + power.word() + " the machine now"@,
                fields: seq![
                    LogFieldView { name: "reason"@, value: action.reason.text() },
                    LogFieldView { name: "power"@, value: power.word() },
                ],
            },
        ),
        PoweroffPlan::Now(power) => ResponseView::Power(power),
    }
}

/// A way to bring the machine down.
#[derive(Debug, Clone, Copy, PartialEq, Eq, Structural)]
pub enum PowerStep {
    /// `reboot(2)`, cutting the power.
    RebootPowerOff,
    /// `reboot(2)`, halting the CPU.
    RebootHalt,
    /// The kernel's SysRq power-off.
    SysRqPowerOff,
}

/// The ways to bring the machine down, in the order they are tried; each is tried only
/// because the one before it came back. Only Linux has any.
pub open spec fn steps_for(power: PowerAction, on_linux: bool) -> Seq<PowerStep> {
    if !on_linux {
        Seq::empty()
    } else {
        match power {
            PowerAction::PowerOff => seq![
                PowerStep::RebootPowerOff,
                PowerStep::SysRqPowerOff,
                PowerStep::RebootHalt,
            ],
            PowerAction::Halt => seq![
                PowerStep::RebootHalt,
                PowerStep::SysRqPowerOff,
                PowerStep::RebootHalt,
            ],
            PowerAction::NoAction => Seq::empty(),
        }
    }
}

/// The ways to bring the machine down, in the order they are tried. Once the last
/// has come back too, the kill has failed.
pub fn invoke(power: PowerAction, on_linux: bool) -> (r: Vec<PowerStep>)
    ensures
        r@ == steps_for(power, on_linux),
{
    let mut steps: Vec<PowerStep> = Vec::new();
    if !on_linux {
        return steps;
    }
    match power {
        PowerAction::PowerOff => {
            steps.push(PowerStep::RebootPowerOff);
        },
        PowerAction::Halt => {
            steps.push(PowerStep::RebootHalt);
        },
        PowerAction::NoAction => {
            return steps;
        },
    }
    steps.push(PowerStep::SysRqPowerOff);
    steps.push(PowerStep::RebootHalt);
    assert(steps@ =~= steps_for(power, on_linux));
    steps
}

/// `CAP_SYS_BOOT` is capability number 22.
pub const CAP_SYS_BOOT_MASK: u64 = 0x40_0000;

/// What follows `CapEff:` on the first line that starts with it.
pub open spec fn cap_eff_field(lines: Seq<Seq<char>>) -> Option<Seq<char>>
    decreases lines.len(),
{
    if lines.len() == 0 {
        None
    } else if "CapEff:"@.is_prefix_of(lines[0]) {
        Some(lines[0].skip("CapEff:"@.len() as int))
    } else {
        cap_eff_field(lines.skip(1))
    }
}

/// The effective capabilities that a process status text names.
pub open spec fn capabilities_in(status: Seq<char>) -> Option<nat> {
    match cap_eff_field(text::split(status, '\n')) {
        Some(field) => uevent::hex_up_to(text::trimmed(field), u64::MAX as nat),
        None => None,
    }
}

/// Why the machine could not be powered off: it does not run Linux, the status is unreadable, or
/// it lacks the capability.
pub open spec fn power_obstacle(on_linux: bool, status: Option<Seq<char>>) -> Option<Seq<char>> {
    let caps = match status {
        Some(s) => capabilities_in(s),
        None => None,
    };
    if !on_linux {
        Some(
            "the poweroff responder is not implemented on this platform; this host cannot be protected"@,
        )
    } else {
        match caps {
            Some(c) => if (c as u64) & CAP_SYS_BOOT_MASK != 0 {
                None
            } else {
                Some(
                    "CAP_SYS_BOOT is not in this process's effective capability set; reboot(2) would fail — check the unit's CapabilityBoundingSet"@,
                )
            },
            None => Some(
                "could not read /proc/self/status to confirm CAP_SYS_BOOT; refusing to arm rather than assume the kill path works"@,
            ),
        }
    }
}

/// The effective-capability bitmask in a process status text (`CapEff:`), or `None`
/// if there is none that can be read.
pub fn effective_capabilities(status: &str) -> (r: Option<u64>)
    ensures
        match capabilities_in(status@) {
            Some(c) => r matches Some(v) && v == c,
            None => r is None,
        },
{
    let lines = text::split_chars(&text::chars_of(status), '\n');
    let prefix = text::chars_of("CapEff:");
    let ghost all = text::views(lines@);
    let mut i: usize = 0;
    assert(all.skip(0) == all);
    while i < lines.len()
        invariant
            i <= lines@.len(),
            all == text::views(lines@),
            prefix@ == "CapEff:"@,
            cap_eff_field(text::split(status@, '\n')) == cap_eff_field(all.skip(i as int)),
        decreases lines@.len() - i,
    {
        proof {
            assert(all.skip(i as int)[0] == lines@[i as int]@);
            assert(all.skip(i as int).skip(1) == all.skip(i + 1));
        }
        if text::starts_with(&lines[i], &prefix) {
            let len: usize = lines[i].len();
            let field = text::slice_chars(&lines[i], prefix.len(), len);
            assert(field@ == lines@[i as int]@.skip("CapEff:"@.len() as int));
            return uevent::parse_hex(&text::trim(&field), u64::MAX);
        }
        i += 1;
    }
    None
}

impl Responder for PoweroffResponder {
    open spec fn called(&self) -> Seq<char> {
        "poweroff"@
    }

    open spec fn response(&self, action: Action) -> ResponseView {
        poweroff_response(action)
    }

    open spec fn obstacle(&self, host: HostProbeView) -> Option<Seq<char>> {
        power_obstacle(host.on_linux, host.process_status)
    }

    fn name(&self) -> (r: &'static str) {
        "poweroff"
    }

    /// The power action for a real kill, a log line otherwise.
    fn respond(&self, action: &Action) -> (r: Response) {
        match plan(action) {
            PoweroffPlan::Skip => {
                let mut fields: Vec<LogField> = Vec::new();
                fields.push(LogField { name: "reason", value: action.reason.to_text() });
                assert(text::views(fields@) =~= seq![
                    LogFieldView { name: "reason"@, value: action.reason.text() },
                ]);
                Response::Log(
                    LogLine {
                        level: LogLevel::Warn,
                        message:
                            "kill decision fired but power_action = none; machine stays up".to_owned(),
                        fields,
                    },
                )
            },
            PoweroffPlan::Would(power) => {
                let mut fields: Vec<LogField> = Vec::new();
                fields.push(LogField { name: "reason", value: action.reason.to_text() });
                fields.push(LogField { name: "power", value: power.as_str().to_owned() });
                assert(text::views(fields@) =~= seq![
                    LogFieldView { name: "reason"@, value: action.reason.text() },
                    LogFieldView { name: "power"@, value: power.word() },
                ]);
                Response::Log(
                    LogLine {
                        level: LogLevel::Warn,
                        message: "DRY RUN — would ".to_owned().concat(power.as_str()).concat(
                            " the machine now",
                        ),
                        fields,
                    },
                )
            },
            PoweroffPlan::Now(power) => Response::Power(power),
        }
    }

    /// Checks the *effective* capability set, not the user id: a root daemon can
    /// still lack `CAP_SYS_BOOT`, and that must fail the arm, not surface at kill
    /// time.
    fn preflight(&self, host: &HostProbe) -> (r: Result<(), ResponderNotReady>) {
        if !host.on_linux {
            return Err(
                ResponderNotReady {
                    responder: self.name(),
                    reason:
                        "the poweroff responder is not implemented on this platform; this host cannot be protected".to_owned(),
                },
            );
        }
        let caps = match &host.process_status {
            Some(s) => effective_capabilities(s.as_str()),
            None => None,
        };
        match caps {
            Some(c) => if c & CAP_SYS_BOOT_MASK != 0 {
                Ok(())
            } else {
                Err(
                    ResponderNotReady {
                        responder: self.name(),
                        reason:
                            "CAP_SYS_BOOT is not in this process's effective capability set; reboot(2) would fail — check the unit's CapabilityBoundingSet".to_owned(),
                    },
                )
            },
            None => Err(
                ResponderNotReady {
                    responder: self.name(),
                    reason:
                        "could not read /proc/self/status to confirm CAP_SYS_BOOT; refusing to arm rather than assume the kill path works".to_owned(),
                },
            ),
        }
    }
}

/// Every power action is followed through: a kill that powers down tries at least the direct
/// syscall first, and two more ways if that comes back.
pub proof fn a_power_action_has_fallbacks(power: PowerAction)
    requires
        power != PowerAction::NoAction,
    ensures
        steps_for(power, true).len() == 3,
        steps_for(power, true)[0] == (if power == PowerAction::Halt {
            PowerStep::RebootHalt
        } else {
            PowerStep::RebootPowerOff
        }),
{
}

/// A host that cannot be powered off is never reported as ready: off Linux there is no way to do
/// it, and the responder says so, whatever its process status reads.
pub proof fn only_linux_can_be_protected(power: PowerAction, status: Option<Seq<char>>)
    ensures
        steps_for(power, false).len() == 0,
        power_obstacle(false, status) is Some,
{
}

/// The daemon can power the machine off exactly where its effective capabilities have number 22: for
/// every set of capabilities, as the kernel writes it in hex on a line of its own, after lines that
/// do not start so.
pub proof fn the_capability_decides(caps: u64, before: Seq<Seq<char>>, after: Seq<Seq<char>>)
    requires
        forall|i: int|
            0 <= i < before.len() ==> !(#[trigger] before[i]).contains('\n') && !(
            "CapEff:"@.is_prefix_of(before[i])),
        forall|i: int| 0 <= i < after.len() ==> !(#[trigger] after[i]).contains('\n'),
    ensures
        ({
            let line = "CapEff:"@ + seq!['\t'] + text::hexadecimal(caps as nat);
            let status = text::joined_by(before + seq![line] + after, '\n');
            power_obstacle(true, Some(status)) is None <==> caps / 4194304 % 2 == 1
        }),
{
    let number = text::hexadecimal(caps as nat);
    let line = "CapEff:"@ + seq!['\t'] + number;
    let lines = before + seq![line] + after;
    let status = text::joined_by(lines, '\n');
    uevent::written_hex_is_plain(caps as nat);
    reveal_strlit("CapEff:");
    assert forall|i: int| 0 <= i < lines.len() implies !(#[trigger] lines[i]).contains('\n') by {
        if i == before.len() {
            assert forall|k: int| 0 <= k < line.len() implies line[k] != '\n' by {
                if k >= 8 {
                    assert(line[k] == number[k - 8]);
                }
            }
        } else if i > before.len() {
            assert(lines[i] == after[i - before.len() - 1]);
        }
    }
    text::splitting_undoes_joining(lines, '\n');
    the_line_is_found(before, line, after);
    let field = line.skip(7);
    assert(field =~= seq!['\t'] + number);
    assert(text::trimmed(field) == number) by {
        assert(field.skip(1) =~= number);
        assert(!text::is_space(number[0]));
        assert(!text::is_space(number.last()));
        assert(text::trimmed(number) == number);
    }
    assert(CAP_SYS_BOOT_MASK == 0x40_0000);
    assert(caps & 0x40_0000 != 0 <==> caps / 4194304 % 2 == 1) by (bit_vector);
}

proof fn the_line_is_found(before: Seq<Seq<char>>, line: Seq<char>, after: Seq<Seq<char>>)
    requires
        forall|i: int| 0 <= i < before.len() ==> !("CapEff:"@.is_prefix_of(#[trigger] before[i])),
        "CapEff:"@.is_prefix_of(line),
    ensures
        cap_eff_field(before + seq![line] + after) == Some(line.skip("CapEff:"@.len() as int)),
    decreases before.len(),
{
    let all = before + seq![line] + after;
    if before.len() == 0 {
        assert(all[0] == line);
    } else {
        assert(all[0] == before[0]);
        let rest = before.skip(1);
        assert forall|i: int| 0 <= i < rest.len() implies !("CapEff:"@.is_prefix_of(
            #[trigger] rest[i],
        )) by {
            assert(rest[i] == before[i + 1]);
        }
        the_line_is_found(rest, line, after);
        assert(all.skip(1) =~= rest + seq![line] + after);
    }
}

/// What does not cut the power says so: a dry run which action it would have taken, and a kill
/// without a power action that the machine stays up, both with the reason.
pub proof fn what_does_not_cut_the_power_says_so(action: Action)
    requires
        action.dry_run || action.power == PowerAction::NoAction,
    ensures
        poweroff_response(action) matches ResponseView::Log(line) && {
            &&& line.level == LogLevel::Warn
            &&& line.fields.len() >= 1 && line.fields[0].value == action.reason.text()
            &&& action.power == PowerAction::PowerOff ==> text::shows(
                line.message,
                "poweroff"@ + " the machine now"@,
            )
            &&& action.power == PowerAction::Halt ==> text::shows(
                line.message,
                "halt"@ + " the machine now"@,
            )
            &&& action.power == PowerAction::NoAction ==> text::shows(
                line.message,
                "machine stays up"@,
            )
        },
{
    text::what_is_added_shows("DRY RUN — would "@, action.power.word(), " the machine now"@);
    reveal_strlit("machine stays up");
    reveal_strlit("kill decision fired but power_action = none; machine stays up");
    let all = "kill decision fired but power_action = none; machine stays up"@;
    assert(all.subrange(45, 61) =~= "machine stays up"@);
    assert(text::shows_at(all, "machine stays up"@, 45));
}

} // verus!
