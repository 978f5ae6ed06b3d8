//! The Help screen: a static reference for the keys and the menu.
//!
//! It is kept in step with [`crate::tui::input`] by hand.

use crate::text;
use crate::tui::app::App;
use crate::tui::client::Client;
use crate::tui::state::AppView;
use crate::tui::ui::line;
use crate::tui::ui::line::{Line, LineView, Role};
use crate::tui::ui::pane::{Body, BodyView, Pane, PaneView};
use vstd::prelude::*;

verus! {

/// Rows of the Help screen.
pub const HELP_LINES: u16 = 40;

/// A key, and what it does.
#[derive(Debug, Clone, Copy, PartialEq, Eq)]
pub struct HelpKey {
    pub key: &'static str,
    pub what: &'static str,
}

/// What a [`HelpKey`] holds.
pub struct HelpKeyView {
    pub key: Seq<char>,
    pub what: Seq<char>,
}

impl View for HelpKey {
    type V = HelpKeyView;

    open spec fn view(&self) -> HelpKeyView {
        HelpKeyView { key: self.key@, what: self.what@ }
    }
}

/// The keys of one place.
#[derive(Debug, PartialEq, Eq)]
pub struct HelpSection {
    pub heading: &'static str,
    pub keys: Vec<HelpKey>,
}

/// What a [`HelpSection`] holds.
pub struct HelpSectionView {
    pub heading: Seq<char>,
    pub keys: Seq<HelpKeyView>,
}

impl View for HelpSection {
    type V = HelpSectionView;

    open spec fn view(&self) -> HelpSectionView {
        HelpSectionView { heading: self.heading@, keys: text::views(self.keys@) }
    }
}

/// A key, and what it does.
pub open spec fn key_of(key: Seq<char>, what: Seq<char>) -> HelpKeyView {
    HelpKeyView { key, what }
}

/// The keys, by where they work.
pub open spec fn all_sections() -> Seq<HelpSectionView> {
    seq![
        HelpSectionView {
            heading: "Everywhere"@,
            keys: seq![
                key_of("↑ / ↓  (k / j)"@, "move the selection, or scroll"@),
                key_of("Enter"@, "activate the selected item / confirm a modal"@),
                key_of("Esc"@, "close a modal, else go back to Devices"@),
                key_of("m"@, "open the main menu (also closes any other modal)"@),
                key_of("?"@, "this help screen"@),
                key_of("r"@, "refresh this screen — or retry while the daemon is down"@),
                key_of("q  (Ctrl-C)"@, "quit now (this never disarms the daemon)"@),
            ],
        },
        HelpSectionView {
            heading: "Devices (home)"@,
            keys: seq![
                key_of("Enter"@, "act on the selected device: add to / remove from whitelist"@),
            ],
        },
        HelpSectionView {
            heading: "Whitelist"@,
            keys: seq![
                key_of("Enter (top row)"@, "add an entry by typing a vendor:product id"@),
                key_of("Enter (an entry)"@, "edit its max count, or remove it"@),
            ],
        },
        HelpSectionView {
            heading: "Settings"@,
            keys: seq![
                key_of("Enter"@, "toggle or cycle the selected field, via the daemon"@),
            ],
        },
        HelpSectionView {
            heading: "Dry-run"@,
            keys: seq![
                key_of("r"@, "run the policy engine again over the current devices"@),
            ],
        },
        HelpSectionView {
            heading: "Event log"@,
            keys: seq![
                key_of("↑ / ↓"@, "scroll back through the stream (this pauses following)"@),
                key_of("p"@, "freeze / resume following the newest line"@),
            ],
        },
        HelpSectionView {
            heading: "LUKS destroy"@,
            keys: seq![
                key_of("Enter"@, "start the typed-DESTROY fence to engage / disengage"@),
                key_of("↑ / ↓"@, "scroll — the screen is taller than a small terminal"@),
            ],
        },
    ]
}

/// What the menu holds, and what it never does.
pub open spec fn all_notes() -> Seq<Seq<char>> {
    seq![
        "Main menu (m): Devices · Whitelist · Dry-run · Settings · Event log · Config"@,
        "              LUKS destroy  (greyed until configured)"@,
        "              Arm  (greyed while the config is invalid) · Disarm · Reload"@,
        "              Help · Quit"@,
        "Arm, Disarm and Reload each ask for confirmation first."@,
        "Quitting the TUI — or killing it — never changes the daemon's armed state."@,
    ]
}

/// A section under construction.
fn section(heading: &'static str) -> (r: HelpSection)
    ensures
        r@ == (HelpSectionView { heading: heading@, keys: Seq::empty() }),
{
    let r = HelpSection { heading, keys: Vec::new() };
    assert(text::views(r.keys@) =~= Seq::<HelpKeyView>::empty());
    r
}

impl HelpSection {
    /// The section with one more key.
    fn with(self, key: &'static str, what: &'static str) -> (r: HelpSection)
        ensures
            r@ == (HelpSectionView {
                heading: self@.heading,
                keys: self@.keys.push(key_of(key@, what@)),
            }),
    {
        let mut r = self;
        r.keys.push(HelpKey { key, what });
        assert(text::views(r.keys@) =~= self@.keys.push(key_of(key@, what@)));
        r
    }
}

/// Adds a section.
fn push_section(v: &mut Vec<HelpSection>, s: HelpSection)
    ensures
        text::views(final(v)@) == text::views(old(v)@).push(s@),
{
    let ghost had = text::views(v@);
    v.push(s);
    assert(text::views(v@) =~= had.push(s@));
}

/// The keys, by where they work.
pub fn sections() -> (r: Vec<HelpSection>)
    ensures
        text::views(r@) == all_sections(),
{
    let mut r: Vec<HelpSection> = Vec::new();
    assert(text::views(r@) =~= Seq::<HelpSectionView>::empty());
    push_section(
        &mut r,
        section("Everywhere").with("↑ / ↓  (k / j)", "move the selection, or scroll").with("Enter", "activate the selected item / confirm a modal").with("Esc", "close a modal, else go back to Devices").with("m", "open the main menu (also closes any other modal)").with("?", "this help screen").with("r", "refresh this screen — or retry while the daemon is down").with("q  (Ctrl-C)", "quit now (this never disarms the daemon)"),
    );
    push_section(
        &mut r,
        section("Devices (home)").with("Enter", "act on the selected device: add to / remove from whitelist"),
    );
    push_section(
        &mut r,
        section("Whitelist").with("Enter (top row)", "add an entry by typing a vendor:product id").with("Enter (an entry)", "edit its max count, or remove it"),
    );
    push_section(
        &mut r,
        section("Settings").with("Enter", "toggle or cycle the selected field, via the daemon"),
    );
    push_section(
        &mut r,
        section("Dry-run").with("r", "run the policy engine again over the current devices"),
    );
    push_section(
        &mut r,
        section("Event log").with("↑ / ↓", "scroll back through the stream (this pauses following)").with("p", "freeze / resume following the newest line"),
    );
    push_section(
        &mut r,
        section("LUKS destroy").with("Enter", "start the typed-DESTROY fence to engage / disengage").with("↑ / ↓", "scroll — the screen is taller than a small terminal"),
    );
    proof {
        assert(text::views(r@)[0].keys =~= all_sections()[0].keys);
        assert(text::views(r@)[1].keys =~= all_sections()[1].keys);
        assert(text::views(r@)[2].keys =~= all_sections()[2].keys);
        assert(text::views(r@)[3].keys =~= all_sections()[3].keys);
        assert(text::views(r@)[4].keys =~= all_sections()[4].keys);
        assert(text::views(r@)[5].keys =~= all_sections()[5].keys);
        assert(text::views(r@)[6].keys =~= all_sections()[6].keys);
        assert(text::views(r@) =~= all_sections());
    }
    r
}

/// What the menu holds, and what it never does.
pub fn menu_notes() -> (r: Vec<&'static str>)
    ensures
        r@.map_values(|s: &'static str| s@) == all_notes(),
{
    let r: Vec<&'static str> = vec![
        "Main menu (m): Devices · Whitelist · Dry-run · Settings · Event log · Config",
        "              LUKS destroy  (greyed until configured)",
        "              Arm  (greyed while the config is invalid) · Disarm · Reload",
        "              Help · Quit",
        "Arm, Disarm and Reload each ask for confirmation first.",
        "Quitting the TUI — or killing it — never changes the daemon's armed state.",
    ];
    assert(r@.map_values(|s: &'static str| s@) =~= all_notes());
    r
}

/// The row of one key.
pub open spec fn key_row(k: HelpKeyView) -> LineView {
    seq![
        line::span_of("  "@ + text::padded(k.key, 18), Role::Bold),
        line::span_of(k.what, Role::Plain),
    ]
}

/// The rows of one section: an empty one, the heading, and one for each key.
pub open spec fn section_rows(s: HelpSectionView) -> Seq<LineView> {
    seq![line::blank_row(), line::row_of(s.heading, Role::Bold)] + s.keys.map_values(
        |k: HelpKeyView| key_row(k),
    )
}

/// The rows of sections, one after the other.
pub open spec fn sections_rows(s: Seq<HelpSectionView>) -> Seq<LineView>
    decreases s.len(),
{
    if s.len() == 0 {
        Seq::empty()
    } else {
        sections_rows(s.drop_last()) + section_rows(s.last())
    }
}

/// The rows of the screen.
pub open spec fn help_rows() -> Seq<LineView> {
    ((seq![line::row_of("killbill-tui — keys & menu"@, Role::Bold)] + sections_rows(
        all_sections(),
    )).push(line::blank_row()) + line::rows_of(all_notes(), Role::Dim)).push(
        line::blank_row(),
    ).push(line::row_of("↑ / ↓ to scroll · Esc to go back"@, Role::Dim))
}

/// Adds the rows of one section.
fn add_section(lines: &mut Vec<Line>, s: &HelpSection)
    ensures
        text::views(final(lines)@) == text::views(old(lines)@) + section_rows(s@),
{
    let ghost had = text::views(lines@);
    let ghost all = section_rows(s@);
    line::add_blank(lines);
    line::add_row(lines, s.heading, Role::Bold);
    assert(text::views(lines@) =~= had + all.take(2));
    let mut i: usize = 0;
    while i < s.keys.len()
        invariant
            i <= s.keys@.len(),
            all == section_rows(s@),
            text::views(lines@) == had + all.take(i + 2),
        decreases s.keys@.len() - i,
    {
        let k = &s.keys[i];
        let name = "  ".to_owned().concat(text::pad(k.key, 18).as_str());
        let mut row = line::row(name.as_str(), Role::Bold);
        row.add_span(k.what, Role::Plain);
        proof {
            assert(s@.keys[i as int] == k@);
            assert(row@ =~= key_row(k@));
            assert(all[i + 2] == key_row(k@));
        }
        line::add_line(lines, row);
        i += 1;
        assert(had + all.take(i + 2) =~= (had + all.take(i + 1)).push(all[i + 1]));
    }
    assert(all.take(i + 2) =~= all);
}

/// The rows of the screen.
pub fn help_lines() -> (r: Vec<Line>)
    ensures
        text::views(r@) == help_rows(),
{
    let mut lines = line::no_lines();
    line::add_row(&mut lines, "killbill-tui — keys & menu", Role::Bold);
    let ghost had = text::views(lines@);
    let parts = sections();
    let ghost all = all_sections();
    let mut i: usize = 0;
    assert(had + sections_rows(all.take(0)) =~= had);
    while i < parts.len()
        invariant
            i <= parts@.len(),
            all == text::views(parts@),
            text::views(lines@) == had + sections_rows(all.take(i as int)),
        decreases parts@.len() - i,
    {
        proof {
            assert(all.take(i + 1).drop_last() =~= all.take(i as int));
            assert(all.take(i + 1).last() == parts@[i as int]@);
        }
        add_section(&mut lines, &parts[i]);
        i += 1;
        assert(had + sections_rows(all.take(i as int)) =~= had + sections_rows(all.take(i - 1))
            + section_rows(parts@[i - 1]@));
    }
    assert(all.take(i as int) =~= all);
    line::add_blank(&mut lines);
    let notes = menu_notes();
    let ghost before = text::views(lines@);
    let ghost rows = line::rows_of(all_notes(), Role::Dim);
    let mut j: usize = 0;
    assert(before + rows.take(0) =~= before);
    while j < notes.len()
        invariant
            j <= notes@.len(),
            notes@.map_values(|s: &'static str| s@) == all_notes(),
            rows == line::rows_of(all_notes(), Role::Dim),
            rows.len() == notes@.len(),
            text::views(lines@) == before + rows.take(j as int),
        decreases notes@.len() - j,
    {
        assert(all_notes()[j as int] == notes@[j as int]@);
        line::add_row(&mut lines, notes[j], Role::Dim);
        j += 1;
        assert(before + rows.take(j as int) =~= (before + rows.take(j - 1)).push(rows[j - 1]));
    }
    assert(rows.take(j as int) =~= rows);
    line::add_blank(&mut lines);
    line::add_row(&mut lines, "↑ / ↓ to scroll · Esc to go back", Role::Dim);
    assert(had =~= seq![line::row_of("killbill-tui — keys & menu"@, Role::Bold)]);
    lines
}

/// The number of rows that the screen has: no row wraps, so the scroll offset stays below it.
pub proof fn help_row_count()
    ensures
        help_rows().len() == HELP_LINES,
{
    reveal_with_fuel(sections_rows, 8);
    let all = all_sections();
    assert(all.len() == 7);
    assert(sections_rows(all).len() == 30);
}

/// The number of rows that the screen has.
pub fn line_count() -> (r: u16)
    ensures
        r == help_rows().len(),
{
    proof {
        help_row_count();
    }
    HELP_LINES
}

/// The screen. No row wraps: one line is one row.
pub open spec fn screen(app: AppView) -> PaneView {
    PaneView {
        title: line::row_of(" Help "@, Role::Plain),
        body: BodyView::Text { lines: help_rows(), wrap: false, scroll: app.help_scroll },
        hazard: false,
    }
}

/// The screen.
pub fn render<C: Client>(app: &App<C>) -> (r: Pane)
    ensures
        r@ == screen(app@),
{
    Pane {
        title: line::row(" Help ", Role::Plain),
        body: Body::Text { lines: help_lines(), wrap: false, scroll: app.help_scroll },
        hazard: false,
    }
}

} // verus!
