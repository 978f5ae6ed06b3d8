//! The Dry-run screen: what would happen right now. Nothing is ever powered off by it.

use crate::proto::action::KillReason;
use crate::text;
use crate::tui::app::App;
use crate::tui::client::Client;
use crate::tui::state::AppView;
use crate::tui::ui::line;
use crate::tui::ui::line::{LineView, Role};
use crate::tui::ui::pane;
use crate::tui::ui::pane::{Body, Pane, PaneView};
use vstd::prelude::*;

verus! {

/// The rows of the reasons.
pub open spec fn reason_rows(reasons: Seq<KillReason>) -> Seq<LineView> {
    reasons.map_values(|r: KillReason| line::row_of("  - "@ + r.text(), Role::Plain))
}

/// The rows of the screen.
pub open spec fn rows(dryrun: Option<Seq<KillReason>>) -> Seq<LineView> {
    match dryrun {
        None => seq![line::row_of("No dry run yet — press r to run one."@, Role::Dim)],
        Some(reasons) => if reasons.len() == 0 {
            seq![
                line::row_of("Nothing currently connected would trigger a kill."@, Role::Disarmed),
                line::blank_row(),
                line::row_of("r to re-run"@, Role::Dim),
            ]
        } else {
            (seq![
                line::row_of(
                    text::decimal(reasons.len()) + " device(s) would trigger a kill:"@,
                    Role::Warn,
                ),
                line::blank_row(),
            ] + reason_rows(reasons)).push(line::blank_row()).push(
                line::row_of("this is a dry run — nothing was powered off · r to re-run"@, Role::Dim),
            )
        },
    }
}

/// The screen.
pub open spec fn screen(app: AppView) -> PaneView {
    pane::text_pane(pane::title_of(app.conn, " Dry-run "@), rows(app.dryrun))
}

/// The screen.
pub fn render<C: Client>(app: &App<C>) -> (r: Pane)
    ensures
        r@ == screen(app@),
{
    let title = pane::screen_title(app.conn, " Dry-run ");
    let mut lines = line::no_lines();
    match &app.dryrun {
        None => {
            line::add_row(&mut lines, "No dry run yet — press r to run one.", Role::Dim);
            assert(text::views(lines@) =~= rows(app@.dryrun));
        },
        Some(reasons) => if reasons.len() == 0 {
            line::add_row(
                &mut lines,
                "Nothing currently connected would trigger a kill.",
                Role::Disarmed,
            );
            line::add_blank(&mut lines);
            line::add_row(&mut lines, "r to re-run", Role::Dim);
            assert(text::views(lines@) =~= rows(app@.dryrun));
        } else {
            let head = text::decimal_text(reasons.len() as u64).concat(
                " device(s) would trigger a kill:",
            );
            line::add_row(&mut lines, head.as_str(), Role::Warn);
            line::add_blank(&mut lines);
            let ghost had = text::views(lines@);
            let ghost all = reason_rows(reasons@);
            assert(had =~= seq![
                line::row_of(
                    text::decimal(reasons@.len()) + " device(s) would trigger a kill:"@,
                    Role::Warn,
                ),
                line::blank_row(),
            ]);
            let mut i: usize = 0;
            assert(had + all.take(0) =~= had);
            while i < reasons.len()
                invariant
                    i <= reasons@.len(),
                    all == reason_rows(reasons@),
                    text::views(lines@) == had + all.take(i as int),
                decreases reasons@.len() - i,
            {
                let reason = "  - ".to_owned().concat(reasons[i].to_text().as_str());
                line::add_row(&mut lines, reason.as_str(), Role::Plain);
                i += 1;
                assert(had + all.take(i as int) =~= (had + all.take(i - 1)).push(all[i - 1]));
            }
            assert(all.take(i as int) =~= all);
            line::add_blank(&mut lines);
            line::add_row(
                &mut lines,
                "this is a dry run — nothing was powered off · r to re-run",
                Role::Dim,
            );
        },
    }
    Pane { title, body: Body::Text { lines, wrap: true, scroll: 0 }, hazard: false }
}

} // verus!
