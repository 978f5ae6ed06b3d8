//! The LUKS-header-destruction responder, a stub: it logs, and writes nothing.
//!
//! The config schema, its acknowledgment key, validation, and this responder's
//! log line are all real. The header wipe itself is deliberately unimplemented.
//! The target travels as a structured field, never inside the message text: it is
//! a config-controlled string, and the log is the operator's only account of what
//! happened.

use crate::killbilld::responder;
use crate::killbilld::responder::{
    HostProbe, HostProbeView, LogField, LogFieldView, LogLevel, LogLine, LogLineView, Responder,
    ResponderNotReady, Response, ResponseView, TargetState,
};
use crate::proto::action::Action;
use crate::text;
use vstd::prelude::*;

verus! {

/// The one line this responder emits.
pub open spec fn stub_text() -> Seq<char> {
    "luks_destroy STUB: would destroy the configured LUKS header — not implemented in v1, NOTHING was written"@
}

/// The one line this responder emits. Static text only.
pub fn stub_message() -> (r: &'static str)
    ensures
        r@ == stub_text(),
{
    "luks_destroy STUB: would destroy the configured LUKS header — not implemented in v1, NOTHING was written"
}

/// Logs what a real implementation *would* wipe. Writes nothing, ever.
#[derive(Debug, Clone, PartialEq, Eq)]
pub struct LuksDestroyResponder {
    /// The validated `[response.luks_destroy] target_header`, used only to name
    /// the target in the log line.
    pub target: String,
}

/// The response to an action: one line if it asks for destruction, else nothing. A dry run
/// and a real run differ only in the flag they log.
pub open spec fn luks_response(target: Seq<char>, action: Action) -> ResponseView {
    if action.luks_destroy {
        ResponseView::Log(
            LogLineView {
                level: LogLevel::Warn,
                message: stub_text(),
                fields: seq![
                    LogFieldView { name: "target_header"@, value: target },
                    LogFieldView { name: "dry_run"@, value: responder::flag_word(action.dry_run) },
                ],
            },
        )
    } else {
        ResponseView::Silent
    }
}

/// Why a target could not be destroyed: it must exist and be a block device.
pub open spec fn target_obstacle(target: Seq<char>, state: TargetState) -> Option<Seq<char>> {
    match state {
        TargetState::BlockDevice => None,
        TargetState::OtherFile => Some(
            "target_header "@ + text::debug_text(target) + " is not a block device"@,
        ),
        TargetState::Missing => Some(
            "target_header "@ + text::debug_text(target) + " does not exist"@,
        ),
    }
}

impl LuksDestroyResponder {
    pub fn new(target: String) -> (r: Self)
        ensures
            r.target == target,
    {
        LuksDestroyResponder { target }
    }
}

impl Responder for LuksDestroyResponder {
    open spec fn called(&self) -> Seq<char> {
        "luks-destroy"@
    }

    open spec fn response(&self, action: Action) -> ResponseView {
        luks_response(self.target@, action)
    }

    open spec fn obstacle(&self, host: HostProbeView) -> Option<Seq<char>> {
        target_obstacle(
            self.target@,
            responder::target_state(host.targets, self.target@),
        )
    }

    fn name(&self) -> (r: &'static str) {
        "luks-destroy"
    }

    /// One line if the action asks for destruction, else nothing.
    fn respond(&self, action: &Action) -> (r: Response) {
        if !action.luks_destroy {
            return Response::Silent;
        }
        let mut fields: Vec<LogField> = Vec::new();
        fields.push(LogField { name: "target_header", value: self.target.clone() });
        fields.push(
            LogField { name: "dry_run", value: responder::flag_text(action.dry_run).to_owned() },
        );
        assert(text::views(fields@) =~= seq![
            LogFieldView { name: "target_header"@, value: self.target@ },
            LogFieldView { name: "dry_run"@, value: responder::flag_word(action.dry_run) },
        ]);
        Response::Log(
            LogLine { level: LogLevel::Warn, message: stub_message().to_owned(), fields },
        )
    }

    /// The target must exist and be a block device.
    fn preflight(&self, host: &HostProbe) -> (r: Result<(), ResponderNotReady>) {
        let quoted = text::quoted(self.target.as_str());
        match host.target(self.target.as_str()) {
            TargetState::BlockDevice => Ok(()),
            TargetState::OtherFile => Err(
                ResponderNotReady {
                    responder: self.name(),
                    reason: "target_header ".to_owned().concat(quoted.as_str()).concat(
                        " is not a block device",
                    ),
                },
            ),
            TargetState::Missing => Err(
                ResponderNotReady {
                    responder: self.name(),
                    reason: "target_header ".to_owned().concat(quoted.as_str()).concat(
                        " does not exist",
                    ),
                },
            ),
        }
    }
}

/// The stub never touches the power, and speaks only when the action asks for destruction.
pub proof fn the_stub_only_logs(target: Seq<char>, action: Action)
    ensures
        luks_response(target, action) is Silent <==> !action.luks_destroy,
        !(luks_response(target, action) is Power),
{
}

} // verus!
