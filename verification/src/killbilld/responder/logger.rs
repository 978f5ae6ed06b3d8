//! The logger responder: an independent record that a kill fired.

use crate::killbilld::responder;
use crate::killbilld::responder::{
    HostProbe, HostProbeView, LogField, LogFieldView, LogLevel, LogLine, LogLineView, Responder,
    ResponderNotReady, Response, ResponseView,
};
use crate::proto::action::Action;
use crate::text;
use vstd::prelude::*;

verus! {

/// Writes one structured line per kill decision.
#[derive(Debug, Clone, Copy, PartialEq, Eq, Structural)]
pub struct LoggerResponder;

/// The human-readable line for `action`: a dry run says so, and both name the reason.
pub open spec fn kill_message(action: Action) -> Seq<char> {
    if action.dry_run {
        "DRY RUN — a kill decision fired; no action was taken: "@ + action.reason.text()
    } else {
        "KILL — responding to: "@ + action.reason.text()
    }
}

/// The log line for `action`: a real kill is logged as an error, so that it survives
/// aggressive filtering.
pub open spec fn kill_line(action: Action) -> LogLineView {
    LogLineView {
        level: if action.dry_run {
            LogLevel::Warn
        } else {
            LogLevel::Error
        },
        message: kill_message(action),
        fields: seq![
            LogFieldView { name: "power"@, value: action.power.word() },
            LogFieldView {
                name: "luks_destroy"@,
                value: responder::flag_word(action.luks_destroy),
            },
            LogFieldView { name: "dry_run"@, value: responder::flag_word(action.dry_run) },
        ],
    }
}

/// The human-readable line for `action`.
pub fn message(action: &Action) -> (r: String)
    ensures
        r@ == kill_message(*action),
{
    if action.dry_run {
        "DRY RUN — a kill decision fired; no action was taken: ".to_owned().concat(
            action.reason.to_text().as_str(),
        )
    } else {
        "KILL — responding to: ".to_owned().concat(action.reason.to_text().as_str())
    }
}

impl Responder for LoggerResponder {
    open spec fn called(&self) -> Seq<char> {
        "logger"@
    }

    open spec fn response(&self, action: Action) -> ResponseView {
        ResponseView::Log(kill_line(action))
    }

    open spec fn obstacle(&self, host: HostProbeView) -> Option<Seq<char>> {
        None
    }

    fn name(&self) -> (r: &'static str) {
        "logger"
    }

    /// The log line for `action`.
    fn respond(&self, action: &Action) -> (r: Response) {
        let mut fields: Vec<LogField> = Vec::new();
        fields.push(LogField { name: "power", value: action.power.as_str().to_owned() });
        fields.push(
            LogField {
                name: "luks_destroy",
                value: responder::flag_text(action.luks_destroy).to_owned(),
            },
        );
        fields.push(
            LogField { name: "dry_run", value: responder::flag_text(action.dry_run).to_owned() },
        );
        assert(text::views(fields@) =~= kill_line(*action).fields);
        Response::Log(
            LogLine {
                level: if action.dry_run {
                    LogLevel::Warn
                } else {
                    LogLevel::Error
                },
                message: message(action),
                fields,
            },
        )
    }

    fn preflight(&self, host: &HostProbe) -> (r: Result<(), ResponderNotReady>) {
        Ok(())
    }
}

} // verus!
