//! The Whitelist screen: the full whitelist, with the entries whose device is not connected.
//! Row 0 is always the "add entry" action; the entries follow.

use crate::killbillctl;
use crate::proto::protocol::{WhitelistEntry, WhitelistEntryView};
use crate::text;
use crate::tui::app::App;
use crate::tui::client::Client;
use crate::tui::reduce;
use crate::tui::state::AppView;
use crate::tui::ui::line;
use crate::tui::ui::line::{Line, LineView, Role};
use crate::tui::ui::pane;
use crate::tui::ui::pane::{Body, BodyView, Pane, PaneView};
use vstd::prelude::*;

verus! {

/// The count that an entry allows: one where it names none.
pub open spec fn allowed(max_count: Option<u32>) -> u32 {
    match max_count {
        Some(n) => n,
        None => 1,
    }
}

/// The count that an entry allows.
pub fn allowed_count(max_count: Option<u32>) -> (r: u32)
    ensures
        r == allowed(max_count),
{
    match max_count {
        Some(n) => n,
        None => 1,
    }
}

/// One whitelist row.
pub open spec fn entry_row(e: WhitelistEntryView, connected: bool) -> LineView {
    seq![
        line::span_of("  "@, Role::Plain),
        line::span_of(
            if connected {
                "connected"@
            } else {
                "absent   "@
            },
            Role::Dim,
        ),
        line::span_of("  "@, Role::Plain),
        line::span_of(e.id.text(), Role::Plain),
        line::span_of("  "@, Role::Plain),
        line::span_of("max "@ + text::decimal(allowed(e.max_count) as nat), Role::Dim),
        line::span_of("  "@, Role::Plain),
        line::span_of(killbillctl::safe_text(e.label), Role::Plain),
    ]
}

/// One whitelist row. `label` is a stored USB string descriptor: it is sanitized here.
pub fn entry_line<C: Client>(e: &WhitelistEntry, app: &App<C>) -> (r: Line)
    ensures
        r@ == entry_row(e@, app@.connected(e.id)),
{
    let mut r = line::row("  ", Role::Plain);
    if app.whitelist_entry_connected(e.id) {
        r.add_span("connected", Role::Dim);
    } else {
        r.add_span("absent   ", Role::Dim);
    }
    r.add_span("  ", Role::Plain);
    r.add_span(e.id.to_text().as_str(), Role::Plain);
    r.add_span("  ", Role::Plain);
    let count = "max ".to_owned().concat(
        text::decimal_text(allowed_count(e.max_count) as u64).as_str(),
    );
    r.add_span(count.as_str(), Role::Dim);
    r.add_span("  ", Role::Plain);
    r.add_span(killbillctl::show_safe(&e.label).as_str(), Role::Plain);
    assert(r@ =~= entry_row(e@, app@.connected(e.id)));
    r
}

/// The rows of the list.
pub open spec fn whitelist_rows(app: AppView) -> Seq<LineView> {
    seq![line::row_of("  +  Add entry"@, Role::Dim)] + app.whitelist.map_values(
        |e: WhitelistEntryView| entry_row(e, app.connected(e.id)),
    )
}

/// The screen.
pub open spec fn screen(app: AppView) -> PaneView {
    PaneView {
        title: pane::title_of(
            app.conn,
            " Whitelist ("@ + text::decimal(app.whitelist.len()) + ") "@,
        ),
        body: BodyView::List {
            items: whitelist_rows(app),
            selected: if app.modal is None {
                Some(reduce::clamped(app.whitelist_cursor, app.whitelist.len() + 1))
            } else {
                None
            },
        },
        hazard: false,
    }
}

/// The screen.
pub fn render<C: Client>(app: &App<C>) -> (r: Pane)
    ensures
        r@ == screen(app@),
{
    let base = " Whitelist (".to_owned().concat(
        text::decimal_text(app.whitelist.len() as u64).as_str(),
    ).concat(") ");
    let title = pane::screen_title(app.conn, base.as_str());
    let mut items = line::no_lines();
    line::add_row(&mut items, "  +  Add entry", Role::Dim);
    let ghost all = whitelist_rows(app@);
    let mut i: usize = 0;
    assert(text::views(items@) =~= all.take(1));
    while i < app.whitelist.len()
        invariant
            i <= app.whitelist@.len(),
            all == whitelist_rows(app@),
            text::views(items@) == all.take(i + 1),
        decreases app.whitelist@.len() - i,
    {
        assert(app@.whitelist[i as int] == app.whitelist@[i as int]@);
        line::add_line(&mut items, entry_line(&app.whitelist[i], app));
        i += 1;
        assert(all.take(i + 1) =~= all.take(i as int).push(all[i as int]));
    }
    assert(all.take(i + 1) =~= all);
    let selected = if app.modal.is_none() {
        let last: usize = app.whitelist.len();
        if app.whitelist_cursor < last {
            Some(app.whitelist_cursor)
        } else {
            Some(last)
        }
    } else {
        None
    };
    Pane { title, body: Body::List { items, selected }, hazard: false }
}

} // verus!
