//! The Event log screen: the daemon's event stream with its own timestamps. It follows the
//! newest line unless it is scrolled up or frozen.

use crate::killbillctl;
use crate::proto::protocol::{Event, EventView, StreamEvent, StreamEventView};
use crate::text;
use crate::tui::app::App;
use crate::tui::client::Client;
use crate::tui::state::AppView;
use crate::tui::ui::line;
use crate::tui::ui::line::{Line, LineView, Role};
use crate::tui::ui::pane;
use crate::tui::ui::pane::{Body, BodyView, Pane, PaneView};
use vstd::prelude::*;

verus! {

/// The mark, the words and the role of an event.
pub open spec fn description(event: EventView) -> (Seq<char>, Seq<char>, Role) {
    match event {
        EventView::DeviceAdded(d) => (
            "+"@,
            "device "@ + killbillctl::id_text(d.id) + " connected"@,
            Role::Plain,
        ),
        EventView::DeviceRemoved(d) => (
            "-"@,
            "device "@ + killbillctl::id_text(d.id) + " disconnected"@,
            Role::Plain,
        ),
        EventView::Armed => ("!"@, "armed"@, Role::Bold),
        EventView::Disarmed => ("!"@, "disarmed"@, Role::Bold),
        EventView::WouldKill(reason) => ("!"@, "would kill: "@ + reason.text(), Role::Warn),
        EventView::SensorStopped => ("!!"@, "USB sensor stopped"@, Role::Warn),
        EventView::EventsLost => (
            "!!"@,
            "USB events lost — some device changes were missed"@,
            Role::Warn,
        ),
        EventView::WhitelistChanged => ("*"@, "whitelist changed"@, Role::Dim),
        EventView::ConfigChanged => ("*"@, "config changed"@, Role::Dim),
        EventView::ReloadFailed(reason) => ("!!"@, "reload failed: "@ + reason, Role::Warn),
    }
}

/// The mark, the words and the role of an event.
pub fn describe(event: &Event) -> (r: (&'static str, String, Role))
    ensures
        (r.0@, r.1@, r.2) == description(event@),
{
    match event {
        Event::DeviceAdded(d) => (
            "+",
            "device ".to_owned().concat(killbillctl::show_id(d.id).as_str()).concat(" connected"),
            Role::Plain,
        ),
        Event::DeviceRemoved(d) => (
            "-",
            "device ".to_owned().concat(killbillctl::show_id(d.id).as_str()).concat(
                " disconnected",
            ),
            Role::Plain,
        ),
        Event::Armed => ("!", "armed".to_owned(), Role::Bold),
        Event::Disarmed => ("!", "disarmed".to_owned(), Role::Bold),
        Event::WouldKill(reason) => (
            "!",
            "would kill: ".to_owned().concat(reason.to_text().as_str()),
            Role::Warn,
        ),
        Event::SensorStopped => ("!!", "USB sensor stopped".to_owned(), Role::Warn),
        Event::EventsLost => (
            "!!",
            "USB events lost — some device changes were missed".to_owned(),
            Role::Warn,
        ),
        Event::WhitelistChanged => ("*", "whitelist changed".to_owned(), Role::Dim),
        Event::ConfigChanged => ("*", "config changed".to_owned(), Role::Dim),
        Event::ReloadFailed(reason) => (
            "!!",
            "reload failed: ".to_owned().concat(reason.as_str()),
            Role::Warn,
        ),
    }
}

/// One line of the log.
pub open spec fn event_row(e: StreamEventView) -> LineView {
    let (mark, words, role) = description(e.event);
    seq![
        line::span_of(e.at + "  "@, Role::Dim),
        line::span_of(text::padded(mark, 2) + " "@, role),
        line::span_of(words, role),
    ]
}

/// One line of the log.
pub fn event_line(e: &StreamEvent) -> (r: Line)
    ensures
        r@ == event_row(e@),
{
    let (mark, words, role) = describe(&e.event);
    let at = e.at.clone().concat("  ");
    let mut r = line::row(at.as_str(), Role::Dim);
    let padded = text::pad(mark, 2).concat(" ");
    r.add_span(padded.as_str(), role);
    r.add_span(words.as_str(), role);
    assert(r@ =~= event_row(e@));
    r
}

/// One less another, or nothing.
pub open spec fn less(a: nat, b: nat) -> nat {
    if a < b {
        0
    } else {
        (a - b) as nat
    }
}

/// The lines of the window that ends `scroll` lines from the newest, in a pane `height` rows
/// high with its border.
pub open spec fn window(
    events: Seq<StreamEventView>,
    scroll: usize,
    height: u16,
) -> Seq<LineView> {
    let end = less(events.len(), scroll as nat);
    let start = less(end, less(height as nat, 2));
    events.subrange(start as int, end as int).map_values(|e: StreamEventView| event_row(e))
}

/// The screen, in a pane `height` rows high.
pub open spec fn screen(app: AppView, height: u16) -> PaneView {
    let title = pane::title_of(
        app.conn,
        " Event log ("@ + text::decimal(app.events.len()) + ") — "@ + (if app.events_paused {
            "paused"@
        } else {
            "following"@
        }) + " "@,
    );
    if app.events.len() == 0 {
        pane::text_pane(title, seq![line::row_of("No events yet."@, Role::Plain)])
    } else {
        PaneView {
            title,
            body: BodyView::Text {
                lines: window(app.events, app.event_scroll, height),
                wrap: false,
                scroll: 0,
            },
            hazard: false,
        }
    }
}

/// The screen, in a pane `height` rows high.
pub fn render<C: Client>(app: &App<C>, height: u16) -> (r: Pane)
    ensures
        r@ == screen(app@, height),
{
    let base = " Event log (".to_owned().concat(
        text::decimal_text(app.events.len() as u64).as_str(),
    ).concat(") — ").concat(
        if app.events_paused {
            "paused"
        } else {
            "following"
        },
    ).concat(" ");
    let title = pane::screen_title(app.conn, base.as_str());
    let mut lines = line::no_lines();
    assert(app@.events.len() == app.events@.len());
    let len: usize = app.events.len();
    if len == 0 {
        line::add_row(&mut lines, "No events yet.", Role::Plain);
        assert(text::views(lines@) =~= seq![line::row_of("No events yet."@, Role::Plain)]);
        return Pane { title, body: Body::Text { lines, wrap: true, scroll: 0 }, hazard: false };
    }
    let end: usize = if len < app.event_scroll {
        0
    } else {
        len - app.event_scroll
    };
    let inner: usize = if height < 2 {
        0
    } else {
        (height - 2) as usize
    };
    let start: usize = if end < inner {
        0
    } else {
        end - inner
    };
    let ghost all = window(app@.events, app.event_scroll, height);
    assert(all.len() == end - start);
    let mut i: usize = start;
    assert(all.take(0) =~= Seq::<LineView>::empty());
    while i < end
        invariant
            start <= i <= end <= len,
            len == app.events@.len(),
            end == less(app@.events.len(), app.event_scroll as nat),
            start == less(end as nat, less(height as nat, 2)),
            all == window(app@.events, app.event_scroll, height),
            all.len() == end - start,
            text::views(lines@) == all.take(i - start),
        decreases end - i,
    {
        let e = &app.events[i];
        assert(app@.events[i as int] == e@);
        assert(all[i - start] == event_row(e@));
        line::add_line(&mut lines, event_line(e));
        i += 1;
        assert(all.take(i - start) =~= all.take(i - 1 - start).push(all[i - 1 - start]));
    }
    assert(all.take(i - start) =~= all);
    Pane { title, body: Body::Text { lines, wrap: false, scroll: 0 }, hazard: false }
}

/// The window is never blank while there are events and room for a line, and it never holds
/// more lines than there is room for.
pub proof fn the_window_is_never_blank(app: AppView, height: u16)
    requires
        app.wf(),
        app.events.len() > 0,
        height > 2,
    ensures
        0 < window(app.events, app.event_scroll, height).len() <= height - 2,
{
}

} // verus!
