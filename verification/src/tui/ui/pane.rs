//! The parts of a frame: the pane of the active screen, and the boxes above it.

use crate::text;
use crate::tui::state::Conn;
use crate::tui::ui::line;
use crate::tui::ui::line::{Line, LineView, Rect, Role, SpanView};
use vstd::prelude::*;

verus! {

/// What a pane shows.
#[derive(Debug, PartialEq, Eq)]
pub enum Body {
    /// Rows of text, from the one at `scroll`; `wrap` lets a wide row take several.
    Text { lines: Vec<Line>, wrap: bool, scroll: u16 },
    /// A list that scrolls to its selected row.
    List { items: Vec<Line>, selected: Option<usize> },
}

/// What a [`Body`] holds.
pub enum BodyView {
    Text { lines: Seq<LineView>, wrap: bool, scroll: u16 },
    List { items: Seq<LineView>, selected: Option<usize> },
}

impl View for Body {
    type V = BodyView;

    open spec fn view(&self) -> BodyView {
        match self {
            Body::Text { lines, wrap, scroll } => BodyView::Text {
                lines: text::views(lines@),
                wrap: *wrap,
                scroll: *scroll,
            },
            Body::List { items, selected } => BodyView::List {
                items: text::views(items@),
                selected: *selected,
            },
        }
    }
}

/// The active screen: a border with a title, around a body. A hazard pane has a border that
/// sets it apart from every other.
#[derive(Debug, PartialEq, Eq)]
pub struct Pane {
    pub title: Line,
    pub body: Body,
    pub hazard: bool,
}

/// What a [`Pane`] holds.
pub struct PaneView {
    pub title: LineView,
    pub body: BodyView,
    pub hazard: bool,
}

impl View for Pane {
    type V = PaneView;

    open spec fn view(&self) -> PaneView {
        PaneView { title: self.title@, body: self.body@, hazard: self.hazard }
    }
}

/// A pane of wrapped text, from its first row.
pub open spec fn text_pane(title: LineView, lines: Seq<LineView>) -> PaneView {
    PaneView { title, body: BodyView::Text { lines, wrap: true, scroll: 0 }, hazard: false }
}

/// The mark of a screen that may be out of date.
pub open spec fn stale_mark() -> SpanView {
    line::span_of("— STALE (daemon unreachable) "@, Role::Warn)
}

/// A screen's title, marked as stale while the daemon is unreachable: everything such a screen
/// shows is the last data received and may now be wrong.
pub open spec fn title_of(conn: Conn, base: Seq<char>) -> LineView {
    if conn == Conn::Down {
        seq![line::span_of(base, Role::Plain), stale_mark()]
    } else {
        line::row_of(base, Role::Plain)
    }
}

/// A screen's title.
pub fn screen_title(conn: Conn, base: &str) -> (r: Line)
    ensures
        r@ == title_of(conn, base@),
{
    let mut title = line::row(base, Role::Plain);
    if conn == Conn::Down {
        title.add_span("— STALE (daemon unreachable) ", Role::Warn);
    }
    assert(title@ =~= title_of(conn, base@));
    title
}

/// How a box above the screen is drawn.
#[derive(Debug, Clone, Copy, PartialEq, Eq, Structural)]
pub enum Frame {
    /// Rows as they are.
    Plain,
    /// Centred text, wrapped.
    Centered,
    /// Text wrapped with its indentation kept.
    Report,
    /// A hazard border, wrapped text.
    Fence,
    /// The whole box in the style of a selected row.
    Toast,
}

/// A box above the screen.
#[derive(Debug, PartialEq, Eq)]
pub struct Overlay {
    pub area: Rect,
    /// Empty for a box without a title.
    pub title: String,
    pub lines: Vec<Line>,
    pub frame: Frame,
}

/// What an [`Overlay`] holds.
pub struct OverlayView {
    pub area: Rect,
    pub title: Seq<char>,
    pub lines: Seq<LineView>,
    pub frame: Frame,
}

impl View for Overlay {
    type V = OverlayView;

    open spec fn view(&self) -> OverlayView {
        OverlayView {
            area: self.area,
            title: self.title@,
            lines: text::views(self.lines@),
            frame: self.frame,
        }
    }
}

/// The smaller of two sizes.
pub open spec fn least(a: nat, b: u16) -> u16 {
    if a < b {
        a as u16
    } else {
        b
    }
}

/// A `w` by `h` rectangle centred in `area`, clamped to fit.
#[verifier::opaque]
pub open spec fn centered_in(area: Rect, w: nat, h: nat) -> Rect {
    let width = least(w, area.width);
    let height = least(h, area.height);
    Rect {
        x: (area.x + (area.width - width) / 2) as u16,
        y: (area.y + (area.height - height) / 2) as u16,
        width,
        height,
    }
}

/// A `w` by `h` rectangle centred in `area`, clamped to fit.
pub fn centered(area: Rect, w: usize, h: usize) -> (r: Rect)
    requires
        area.wf(),
    ensures
        r == centered_in(area, w as nat, h as nat),
{
    proof {
        reveal(centered_in);
    }
    let width: u16 = if w < area.width as usize {
        w as u16
    } else {
        area.width
    };
    let height: u16 = if h < area.height as usize {
        h as u16
    } else {
        area.height
    };
    Rect {
        x: area.x + (area.width - width) / 2,
        y: area.y + (area.height - height) / 2,
        width,
        height,
    }
}

/// A centred box lies inside the area it is centred in.
pub proof fn a_centred_box_fits(area: Rect, w: nat, h: nat)
    requires
        area.wf(),
    ensures
        centered_in(area, w, h).inside(area),
{
    reveal(centered_in);
}

/// A box around rows, centred, with a border of one cell.
pub open spec fn box_of(
    area: Rect,
    title: Seq<char>,
    w: nat,
    lines: Seq<LineView>,
    frame: Frame,
) -> OverlayView {
    OverlayView { area: centered_in(area, w, lines.len() + 2), title, lines, frame }
}

/// How many rows a box with these lines takes, border and all.
fn box_height(lines: &Vec<Line>) -> (r: usize)
    ensures
        r == text::views(lines@).len() + 2 || (r == usize::MAX && text::views(lines@).len() + 2
            > usize::MAX),
{
    assert(text::views(lines@).len() == lines@.len());
    if lines.len() <= usize::MAX - 2 {
        lines.len() + 2
    } else {
        usize::MAX
    }
}

/// A box around rows, centred, with a border of one cell.
pub fn modal_box(area: Rect, title: &str, w: usize, lines: Vec<Line>, frame: Frame) -> (r: Overlay)
    requires
        area.wf(),
    ensures
        r@ == box_of(area, title@, w as nat, text::views(lines@), frame),
{
    let h: usize = box_height(&lines);
    proof {
        reveal(centered_in);
    }
    Overlay { area: centered(area, w, h), title: title.to_owned(), lines, frame }
}

} // verus!
