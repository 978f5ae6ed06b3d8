//! Styled text, before any terminal: spans, lines, and how to build them.

use crate::text;
use vstd::prelude::*;

verus! {

/// What a piece of text stands for, from which its style follows. Colour is never the only
/// carrier of a state: each of these comes with a word or a glyph.
#[derive(Debug, Clone, Copy, PartialEq, Eq, Structural)]
pub enum Role {
    Plain,
    Bold,
    /// Secondary text: hints, counts, separators.
    Dim,
    /// The selected row or menu item.
    Selected,
    /// The safe, protected state.
    Armed,
    /// Detect-and-report only.
    Disarmed,
    /// A state in which the daemon refuses to arm, or a destructive one.
    Invalid,
    /// A problem worth the eye.
    Warn,
}

/// A piece of text in one style.
#[derive(Debug, PartialEq, Eq)]
pub struct Span {
    pub text: String,
    pub role: Role,
}

/// What a [`Span`] holds.
pub struct SpanView {
    pub text: Seq<char>,
    pub role: Role,
}

impl View for Span {
    type V = SpanView;

    open spec fn view(&self) -> SpanView {
        SpanView { text: self.text@, role: self.role }
    }
}

/// One row of text.
#[derive(Debug, PartialEq, Eq)]
pub struct Line {
    pub spans: Vec<Span>,
}

/// The spans of a row.
pub type LineView = Seq<SpanView>;

impl View for Line {
    type V = LineView;

    open spec fn view(&self) -> LineView {
        text::views(self.spans@)
    }
}

/// A piece of text in one style.
pub open spec fn span_of(s: Seq<char>, role: Role) -> SpanView {
    SpanView { text: s, role }
}

/// A row in one style.
pub open spec fn row_of(s: Seq<char>, role: Role) -> LineView {
    seq![span_of(s, role)]
}

/// An empty row.
pub open spec fn blank_row() -> LineView {
    Seq::empty()
}

/// A gap and a piece of text.
pub open spec fn after_gap(gap: Seq<char>, s: Seq<char>, role: Role) -> LineView {
    seq![span_of(gap, Role::Plain), span_of(s, role)]
}

/// A gap and a piece of text, if they are to be shown.
pub open spec fn tag(shown: bool, gap: Seq<char>, s: Seq<char>, role: Role) -> LineView {
    if shown {
        after_gap(gap, s, role)
    } else {
        Seq::empty()
    }
}

/// The text of a row, without its styles.
pub open spec fn line_text(l: LineView) -> Seq<char>
    decreases l.len(),
{
    if l.len() == 0 {
        Seq::empty()
    } else {
        line_text(l.drop_last()) + l.last().text
    }
}

/// A piece of text in one style.
pub fn span(s: &str, role: Role) -> (r: Span)
    ensures
        r@ == span_of(s@, role),
{
    Span { text: s.to_owned(), role }
}

/// A row in one style.
pub fn row(s: &str, role: Role) -> (r: Line)
    ensures
        r@ == row_of(s@, role),
{
    let mut line = blank();
    line.add_span(s, role);
    assert(line@ =~= row_of(s@, role));
    line
}

/// An empty row.
pub fn blank() -> (r: Line)
    ensures
        r@ == blank_row(),
{
    let r = Line { spans: Vec::new() };
    assert(r@ =~= blank_row());
    r
}

impl Line {
    /// Adds a piece of text at the end of the row.
    pub fn add_span(&mut self, s: &str, role: Role)
        ensures
            final(self)@ == old(self)@.push(span_of(s@, role)),
    {
        let ghost had = self@;
        self.spans.push(span(s, role));
        assert(self@ =~= had.push(span_of(s@, role)));
    }

    /// Adds a gap and a piece of text at the end of the row.
    pub fn add_after_gap(&mut self, gap: &str, s: &str, role: Role)
        ensures
            final(self)@ == old(self)@ + after_gap(gap@, s@, role),
    {
        let ghost had = self@;
        self.add_span(gap, Role::Plain);
        self.add_span(s, role);
        assert(self@ =~= had + after_gap(gap@, s@, role));
    }

    /// Adds a gap and a piece of text at the end of the row, if they are to be shown.
    pub fn add_tag(&mut self, shown: bool, gap: &str, s: &str, role: Role)
        ensures
            final(self)@ == old(self)@ + tag(shown, gap@, s@, role),
    {
        if shown {
            self.add_after_gap(gap, s, role);
        } else {
            assert(self@ =~= self@ + tag(shown, gap@, s@, role));
        }
    }

    /// The text of the row, without its styles.
    pub fn to_text(&self) -> (r: String)
        ensures
            r@ == line_text(self@),
    {
        let mut r = String::new();
        let ghost all = self@;
        let mut i: usize = 0;
        while i < self.spans.len()
            invariant
                i <= self.spans@.len(),
                all == text::views(self.spans@),
                r@ == line_text(all.take(i as int)),
            decreases self.spans@.len() - i,
        {
            proof {
                assert(all.take(i + 1).drop_last() == all.take(i as int));
                assert(all.take(i + 1).last() == self.spans@[i as int]@);
            }
            r = r.concat(self.spans[i].text.as_str());
            i += 1;
        }
        assert(all.take(i as int) == all);
        r
    }
}

/// Adds a row.
pub fn add_line(lines: &mut Vec<Line>, line: Line)
    ensures
        text::views(final(lines)@) == text::views(old(lines)@).push(line@),
{
    let ghost had = text::views(lines@);
    lines.push(line);
    assert(text::views(lines@) =~= had.push(line@));
}

/// Adds a row in one style.
pub fn add_row(lines: &mut Vec<Line>, s: &str, role: Role)
    ensures
        text::views(final(lines)@) == text::views(old(lines)@).push(row_of(s@, role)),
{
    add_line(lines, row(s, role));
}

/// Adds an empty row.
pub fn add_blank(lines: &mut Vec<Line>)
    ensures
        text::views(final(lines)@) == text::views(old(lines)@).push(blank_row()),
{
    add_line(lines, blank());
}

/// No rows.
pub fn no_lines() -> (r: Vec<Line>)
    ensures
        text::views(r@) == Seq::<LineView>::empty(),
{
    let r: Vec<Line> = Vec::new();
    assert(text::views(r@) =~= Seq::<LineView>::empty());
    r
}

/// One row in one style for each text.
pub open spec fn rows_of(texts: Seq<Seq<char>>, role: Role) -> Seq<LineView> {
    texts.map_values(|t: Seq<char>| row_of(t, role))
}

/// Adds one row in one style for each text.
pub fn add_rows(lines: &mut Vec<Line>, texts: &Vec<String>, role: Role)
    ensures
        text::views(final(lines)@) == text::views(old(lines)@) + rows_of(text::views(texts@), role),
{
    let ghost had = text::views(lines@);
    let ghost all = rows_of(text::views(texts@), role);
    let mut i: usize = 0;
    assert(had + all.take(0) =~= had);
    while i < texts.len()
        invariant
            i <= texts@.len(),
            all == rows_of(text::views(texts@), role),
            text::views(lines@) == had + all.take(i as int),
        decreases texts@.len() - i,
    {
        add_row(lines, texts[i].as_str(), role);
        i += 1;
        assert(had + all.take(i as int) =~= (had + all.take(i - 1)).push(all[i - 1]));
    }
    assert(all.take(i as int) =~= all);
}

/// A rectangle of terminal cells.
#[derive(Debug, Clone, Copy, PartialEq, Eq, Structural)]
pub struct Rect {
    pub x: u16,
    pub y: u16,
    pub width: u16,
    pub height: u16,
}

impl Rect {
    /// The rectangle's far edges are cells that can be addressed.
    pub open spec fn wf(self) -> bool {
        self.x + self.width <= u16::MAX && self.y + self.height <= u16::MAX
    }

    /// Whether the rectangle lies inside another.
    pub open spec fn inside(self, area: Rect) -> bool {
        &&& area.x <= self.x
        &&& area.y <= self.y
        &&& self.x + self.width <= area.x + area.width
        &&& self.y + self.height <= area.y + area.height
    }
}

} // verus!
