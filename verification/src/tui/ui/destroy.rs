//! The fenced LUKS-header-destruction screen.
//!
//! It names the exact target device and shows whether destruction is currently *engaged*. The
//! wipe itself is a deliberate stub; this screen never implies otherwise.

use crate::killbillctl;
use crate::proto::protocol;
use crate::text;
use crate::tui::app::App;
use crate::tui::client::Client;
use crate::tui::state::{AppView, Conn};
use crate::tui::ui::line;
use crate::tui::ui::line::{Line, LineView, Rect, Role};
use crate::tui::ui::pane;
use crate::tui::ui::pane::{Body, BodyView, Frame, Overlay, Pane, PaneView};
use crate::tui::ui::wrapping;
use vstd::prelude::*;

verus! {

/// Wrap width for the scrolling body: the narrowest terminal, less the border and the
/// two-space indent, with a margin.
pub const BODY_WRAP: usize = 54;

/// Rows of prose: wrapped, and indented by two spaces.
pub open spec fn prose(s: Seq<char>, role: Role) -> Seq<LineView> {
    wrapping::wrapped(s, BODY_WRAP).map_values(|r: Seq<char>| line::row_of("  "@ + r, role))
}

/// Adds rows of prose.
fn add_prose(lines: &mut Vec<Line>, s: &str, role: Role)
    ensures
        text::views(final(lines)@) == text::views(old(lines)@) + prose(s@, role),
{
    let rows = wrapping::wrap_words(s, BODY_WRAP);
    let ghost had = text::views(lines@);
    let ghost all = prose(s@, role);
    let mut i: usize = 0;
    assert(had + all.take(0) =~= had);
    while i < rows.len()
        invariant
            i <= rows@.len(),
            text::views(rows@) == wrapping::wrapped(s@, BODY_WRAP),
            all == prose(s@, role),
            all.len() == rows@.len(),
            text::views(lines@) == had + all.take(i as int),
        decreases rows@.len() - i,
    {
        let indented = "  ".to_owned().concat(rows[i].as_str());
        assert(text::views(rows@)[i as int] == rows@[i as int]@);
        line::add_row(lines, indented.as_str(), role);
        i += 1;
        assert(had + all.take(i as int) =~= (had + all.take(i - 1)).push(all[i - 1]));
    }
    assert(all.take(i as int) =~= all);
}

/// Prose takes one terminal row for each of its rows: none is wider than the wrap width and the
/// indent, as long as no single word is wider than the wrap width.
pub proof fn prose_rows_fit(s: Seq<char>, role: Role)
    requires
        forall|i: int|
            0 <= i < text::words_of(s).len() ==> wrapping::byte_len(#[trigger] text::words_of(s)[i])
                <= BODY_WRAP,
    ensures
        forall|i: int|
            0 <= i < prose(s, role).len() ==> wrapping::byte_len(
                line::line_text(#[trigger] prose(s, role)[i]),
            ) <= BODY_WRAP + 2,
{
    wrapping::wrapped_rows_fit(s, BODY_WRAP);
    let rows = wrapping::wrapped(s, BODY_WRAP);
    assert forall|i: int| 0 <= i < prose(s, role).len() implies wrapping::byte_len(
        line::line_text(#[trigger] prose(s, role)[i]),
    ) <= BODY_WRAP + 2 by {
        let row = prose(s, role)[i];
        assert(row == line::row_of("  "@ + rows[i], role));
        assert(row.drop_last() =~= Seq::<line::SpanView>::empty());
        assert(line::line_text(row.drop_last()) == Seq::<char>::empty());
        assert(line::line_text(row) =~= "  "@ + rows[i]);
        reveal_strlit("  ");
        assert("  "@ =~= seq![' '] + seq![' ']);
        wrapping::a_space_is_one_byte();
        wrapping::byte_len_adds(seq![' '], seq![' ']);
        wrapping::byte_len_adds("  "@, rows[i]);
    }
}

/// The engaged state in words. While the daemon is unreachable the cached value cannot be
/// vouched for, so it is shown as unknown.
pub open spec fn state_words(conn: Conn, engaged: bool) -> (Seq<char>, Role) {
    if conn == Conn::Down {
        ("??  ENGAGED STATE UNKNOWN — daemon unreachable"@, Role::Invalid)
    } else if engaged {
        (
            "▓▓  ENGAGED — a kill while armed would, in a future release, wipe this header"@,
            Role::Invalid,
        )
    } else {
        ("░░  not engaged — a kill will not touch the header"@, Role::Disarmed)
    }
}

/// The engaged-state rows.
pub open spec fn state_rows(conn: Conn, engaged: bool) -> Seq<LineView> {
    prose(state_words(conn, engaged).0, state_words(conn, engaged).1)
}

/// The big colour-*and*-word engaged-state block, wrapped. A downed daemon may have changed
/// the cached value, so it is then shown as unknown.
pub fn state_lines(conn: &Conn, engaged: bool) -> (r: Vec<Line>)
    ensures
        text::views(r@) == state_rows(*conn, engaged),
{
    let mut lines = line::no_lines();
    if *conn == Conn::Down {
        add_prose(&mut lines, "??  ENGAGED STATE UNKNOWN — daemon unreachable", Role::Invalid);
    } else if engaged {
        add_prose(
            &mut lines,
            "▓▓  ENGAGED — a kill while armed would, in a future release, wipe this header",
            Role::Invalid,
        );
    } else {
        add_prose(
            &mut lines,
            "░░  not engaged — a kill will not touch the header",
            Role::Disarmed,
        );
    }
    assert(text::views(lines@) =~= state_rows(*conn, engaged));
    lines
}

/// The one line that says, above the fold, that engaging is inert.
pub open spec fn stub_notice() -> Seq<char> {
    "v1: engaging records intent only — the LUKS header is never touched (the wipe is a stub)."@
}

/// What destruction would do.
pub open spec fn what_it_does() -> Seq<char> {
    "On an unauthorized device change while armed, the daemon powers the machine off so the disk re-locks. With destruction ENGAGED it would additionally overwrite the LUKS header on the target above, making the data unrecoverable even with the passphrase."@
}

/// That it does not do so yet.
pub open spec fn not_implemented() -> Seq<char> {
    "That wipe is NOT implemented in this version — the flag is real, the config and this screen are real, but the header is never actually touched (by design). Engaging it now records intent for a future release; it changes nothing destructive today."@
}

/// That the flag does not outlive the daemon.
pub open spec fn never_saved() -> Seq<char> {
    "The flag is never saved to disk: every daemon restart begins with destruction disengaged."@
}

/// What Enter would do, or why it would not.
pub open spec fn hint_rows(conn: Conn, engaged: bool) -> Seq<LineView> {
    if conn == Conn::Down {
        prose(
            "reconnect to the daemon before changing the engaged state (r to retry)"@,
            Role::Dim,
        )
    } else if engaged {
        prose("▸ press Enter to DISENGAGE — you will be asked to type DESTROY"@, Role::Bold)
    } else {
        prose("▸ press Enter to ENGAGE — you will be asked to type DESTROY"@, Role::Bold)
    }
}

/// The row that names the target.
pub open spec fn target_row(target: Seq<char>) -> LineView {
    seq![
        line::span_of("  target header:  "@, Role::Dim),
        line::span_of(protocol::sanitized(target), Role::Bold),
    ]
}

/// The screen body, already wrapped, so that its length is the number of rows it takes.
pub open spec fn body(app: AppView) -> Seq<LineView> {
    match app.config {
        None => seq![line::row_of("Loading config… press r to retry."@, Role::Plain)],
        Some(cfg) => match cfg.luks_destroy {
            None => seq![
                line::row_of(
                    "LUKS header destruction is not configured. Add an acknowledged [response.luks_destroy] block to the config file first."@,
                    Role::Plain,
                ),
            ],
            Some(luks) => (((((seq![
                line::blank_row(),
                target_row(luks.target_header),
                seq![
                    line::span_of("  acknowledged:   "@, Role::Dim),
                    line::span_of(killbillctl::yes_no_of(luks.acknowledged), Role::Plain),
                ],
                line::blank_row(),
            ] + state_rows(app.conn, luks.engaged)).push(line::blank_row()) + prose(
                stub_notice(),
                Role::Bold,
            )).push(line::blank_row()) + prose(what_it_does(), Role::Plain)).push(line::blank_row())
                + prose(not_implemented(), Role::Plain)).push(line::blank_row()) + prose(
                never_saved(),
                Role::Plain,
            )).push(line::blank_row()) + hint_rows(app.conn, luks.engaged),
        },
    }
}

/// The row that names the target.
fn target_line(target: &str) -> (r: Line)
    ensures
        r@ == target_row(target@),
{
    let mut line = line::row("  target header:  ", Role::Dim);
    line.add_span(protocol::sanitize_device_string(target).as_str(), Role::Bold);
    assert(line@ =~= target_row(target@));
    line
}

/// The screen body as rows, already wrapped to [`BODY_WRAP`], so that its length is the
/// number of rows it takes. Shared by the screen and by [`line_count`], so the scroll clamp
/// can never drift from what is drawn.
pub fn body_lines<C: Client>(app: &App<C>) -> (r: Vec<Line>)
    ensures
        text::views(r@) == body(app@),
{
    let mut lines = line::no_lines();
    match &app.config {
        None => {
            line::add_row(&mut lines, "Loading config… press r to retry.", Role::Plain);
            assert(text::views(lines@) =~= body(app@));
        },
        Some(cfg) => match &cfg.luks_destroy {
            None => {
                line::add_row(
                    &mut lines,
                    "LUKS header destruction is not configured. Add an acknowledged [response.luks_destroy] block to the config file first.",
                    Role::Plain,
                );
                assert(text::views(lines@) =~= body(app@));
            },
            Some(luks) => {
                line::add_blank(&mut lines);
                line::add_line(&mut lines, target_line(luks.target_header.as_str()));
                let mut acknowledged = line::row("  acknowledged:   ", Role::Dim);
                acknowledged.add_span(killbillctl::yes_no(luks.acknowledged), Role::Plain);
                assert(acknowledged@ =~= seq![
                    line::span_of("  acknowledged:   "@, Role::Dim),
                    line::span_of(killbillctl::yes_no_of(luks.acknowledged), Role::Plain),
                ]);
                line::add_line(&mut lines, acknowledged);
                line::add_blank(&mut lines);
                let mut state = state_lines(&app.conn, luks.engaged);
                let ghost had = text::views(lines@);
                let ghost more = text::views(state@);
                lines.append(&mut state);
                assert(text::views(lines@) =~= had + more);
                line::add_blank(&mut lines);
                add_prose(
                    &mut lines,
                    "v1: engaging records intent only — the LUKS header is never touched (the wipe is a stub).",
                    Role::Bold,
                );
                line::add_blank(&mut lines);
                add_prose(
                    &mut lines,
                    "On an unauthorized device change while armed, the daemon powers the machine off so the disk re-locks. With destruction ENGAGED it would additionally overwrite the LUKS header on the target above, making the data unrecoverable even with the passphrase.",
                    Role::Plain,
                );
                line::add_blank(&mut lines);
                add_prose(
                    &mut lines,
                    "That wipe is NOT implemented in this version — the flag is real, the config and this screen are real, but the header is never actually touched (by design). Engaging it now records intent for a future release; it changes nothing destructive today.",
                    Role::Plain,
                );
                line::add_blank(&mut lines);
                add_prose(
                    &mut lines,
                    "The flag is never saved to disk: every daemon restart begins with destruction disengaged.",
                    Role::Plain,
                );
                line::add_blank(&mut lines);
                if app.conn == Conn::Down {
                    add_prose(
                        &mut lines,
                        "reconnect to the daemon before changing the engaged state (r to retry)",
                        Role::Dim,
                    );
                } else if luks.engaged {
                    add_prose(
                        &mut lines,
                        "▸ press Enter to DISENGAGE — you will be asked to type DESTROY",
                        Role::Bold,
                    );
                } else {
                    add_prose(
                        &mut lines,
                        "▸ press Enter to ENGAGE — you will be asked to type DESTROY",
                        Role::Bold,
                    );
                }
            },
        },
    }
    lines
}

/// How many rows the body takes: the reducer keeps the scroll offset below it.
pub fn line_count<C: Client>(app: &App<C>) -> (r: u16)
    ensures
        r == body(app@).len() as u16,
{
    let lines = body_lines(app);
    assert(text::views(lines@).len() == lines@.len());
    #[verifier::truncate]
    let n: u16 = lines.len() as u16;
    n
}

/// The screen: a hazard frame in every state, so that it is never mistaken for an ordinary
/// one, and the stale mark while the daemon is unreachable.
pub open spec fn screen(app: AppView) -> PaneView {
    PaneView {
        title: if app.conn == Conn::Down {
            seq![line::span_of(" ☠  LUKS HEADER DESTRUCTION "@, Role::Invalid), pane::stale_mark()]
        } else {
            line::row_of(" ☠  LUKS HEADER DESTRUCTION "@, Role::Invalid)
        },
        body: BodyView::Text { lines: body(app), wrap: true, scroll: app.destroy_scroll },
        hazard: true,
    }
}

/// The screen.
pub fn render<C: Client>(app: &App<C>) -> (r: Pane)
    ensures
        r@ == screen(app@),
{
    let mut title = line::row(" ☠  LUKS HEADER DESTRUCTION ", Role::Invalid);
    if app.conn == Conn::Down {
        title.add_span("— STALE (daemon unreachable) ", Role::Warn);
    }
    assert(title@ =~= screen(app@).title);
    Pane {
        title,
        body: Body::Text { lines: body_lines(app), wrap: true, scroll: app.destroy_scroll },
        hazard: true,
    }
}

/// The rows that name the target in the fence: the one captured when it opened, which is held
/// against the config before anything is sent.
pub open spec fn target_rows(target: Option<Seq<char>>) -> Seq<LineView> {
    match target {
        Some(t) => seq![target_row(t), line::blank_row()],
        None => Seq::empty(),
    }
}

/// Adds the rows that name the target.
fn add_target(lines: &mut Vec<Line>, target: &Option<String>)
    ensures
        text::views(final(lines)@) == text::views(old(lines)@) + target_rows(
            text::opt_view(*target),
        ),
{
    let ghost had = text::views(lines@);
    if let Some(t) = target {
        line::add_line(lines, target_line(t.as_str()));
        line::add_blank(lines);
    }
    assert(text::views(lines@) =~= had + target_rows(text::opt_view(*target)));
}

/// Step one of the fence: the rows around the `DESTROY` text field.
pub open spec fn text_rows(app: AppView, engage: bool) -> Seq<LineView> {
    (seq![
        line::row_of(
            if engage {
                "Engage LUKS header destruction"@
            } else {
                "Disengage LUKS header destruction"@
            },
            Role::Invalid,
        ),
        line::blank_row(),
    ] + target_rows(app.destroy_target)).push(
        line::row_of(
            "Type the word  DESTROY  (exactly, capitals) and press Enter."@,
            Role::Plain,
        ),
    ).push(line::row_of("Anything else cancels and changes nothing."@, Role::Dim)).push(
        line::blank_row(),
    ).push(
        seq![
            line::span_of("  > "@, Role::Plain),
            line::span_of(app.input + "_"@, Role::Selected),
        ],
    )
}

/// Step one of the fence.
pub fn text_modal<C: Client>(app: &App<C>, area: Rect, engage: bool) -> (r: Overlay)
    requires
        area.wf(),
    ensures
        r@ == pane::box_of(
            area,
            " Confirm — 1 of 2 "@,
            66,
            text_rows(app@, engage),
            Frame::Fence,
        ),
{
    let mut lines = line::no_lines();
    if engage {
        line::add_row(&mut lines, "Engage LUKS header destruction", Role::Invalid);
    } else {
        line::add_row(&mut lines, "Disengage LUKS header destruction", Role::Invalid);
    }
    line::add_blank(&mut lines);
    proof {
        let head = seq![
            line::row_of(
                if engage {
                    "Engage LUKS header destruction"@
                } else {
                    "Disengage LUKS header destruction"@
                },
                Role::Invalid,
            ),
            line::blank_row(),
        ];
        assert(text::views(lines@) =~= head);
    }
    add_target(&mut lines, &app.destroy_target);
    line::add_row(
        &mut lines,
        "Type the word  DESTROY  (exactly, capitals) and press Enter.",
        Role::Plain,
    );
    line::add_row(&mut lines, "Anything else cancels and changes nothing.", Role::Dim);
    line::add_blank(&mut lines);
    let mut field = line::row("  > ", Role::Plain);
    field.add_span(app.input.clone().concat("_").as_str(), Role::Selected);
    assert(field@ =~= seq![
        line::span_of("  > "@, Role::Plain),
        line::span_of(app.input@ + "_"@, Role::Selected),
    ]);
    line::add_line(&mut lines, field);
    pane::modal_box(area, " Confirm — 1 of 2 ", 66, lines, Frame::Fence)
}

/// Step two of the fence: the rows of the final question.
pub open spec fn confirm_rows(app: AppView, engage: bool) -> Seq<LineView> {
    (seq![
        line::row_of(
            if engage {
                "ENGAGE LUKS header destruction now?"@
            } else {
                "Disengage LUKS header destruction now?"@
            },
            Role::Invalid,
        ),
        line::blank_row(),
    ] + target_rows(app.destroy_target)).push(
        line::row_of("Press  y  to confirm.  Any other key cancels."@, Role::Plain),
    )
}

/// Step two of the fence.
pub fn confirm_modal<C: Client>(app: &App<C>, area: Rect, engage: bool) -> (r: Overlay)
    requires
        area.wf(),
    ensures
        r@ == pane::box_of(
            area,
            " Confirm — 2 of 2 "@,
            66,
            confirm_rows(app@, engage),
            Frame::Fence,
        ),
{
    let mut lines = line::no_lines();
    if engage {
        line::add_row(&mut lines, "ENGAGE LUKS header destruction now?", Role::Invalid);
    } else {
        line::add_row(&mut lines, "Disengage LUKS header destruction now?", Role::Invalid);
    }
    line::add_blank(&mut lines);
    proof {
        let head = seq![
            line::row_of(
                if engage {
                    "ENGAGE LUKS header destruction now?"@
                } else {
                    "Disengage LUKS header destruction now?"@
                },
                Role::Invalid,
            ),
            line::blank_row(),
        ];
        assert(text::views(lines@) =~= head);
    }
    add_target(&mut lines, &app.destroy_target);
    line::add_row(&mut lines, "Press  y  to confirm.  Any other key cancels.", Role::Plain);
    pane::modal_box(area, " Confirm — 2 of 2 ", 66, lines, Frame::Fence)
}

/// While the daemon is unreachable the cached engaged state has no bearing on what is shown.
pub proof fn a_downed_daemon_hides_the_engaged_state(a: bool, b: bool)
    ensures
        state_rows(Conn::Down, a) == state_rows(Conn::Down, b),
        hint_rows(Conn::Down, a) == hint_rows(Conn::Down, b),
{
}

} // verus!
