//! The persistent one-line armed-state band.
//!
//! Shown on every screen. The state is carried by a glyph *and* a word, not colour alone.

use crate::proto::action::PowerAction;
use crate::proto::protocol::{StatusPayload, StatusView};
use crate::text;
use crate::tui::app::App;
use crate::tui::client::Client;
use crate::tui::state::{AppView, Conn};
use crate::tui::ui::line;
use crate::tui::ui::line::{Line, LineView, Role};
use vstd::prelude::*;

verus! {

/// The headline. While the daemon is unreachable the last-known word is shown as just that: the
/// daemon may have changed state since.
pub open spec fn headline(conn: Conn, status: Option<StatusView>) -> (Seq<char>, Role) {
    match (conn, status) {
        (Conn::Connecting, _) => (" … CONNECTING "@, Role::Dim),
        (_, None) => (" … NO STATUS "@, Role::Dim),
        (Conn::Down, Some(s)) => if s.armed {
            (" ? LAST KNOWN: ARMED "@, Role::Warn)
        } else {
            (" ? LAST KNOWN: DISARMED "@, Role::Warn)
        },
        (Conn::Up, Some(s)) => if s.config_error is Some {
            (" ▲ CONFIG INVALID — WILL NOT ARM "@, Role::Invalid)
        } else if s.armed {
            (" ● ARMED "@, Role::Armed)
        } else {
            (" ○ DISARMED "@, Role::Disarmed)
        },
    }
}

/// The details of a status that is believed current. What makes an armed daemon not cut power
/// is tagged, and so is a destructive runtime state.
pub open spec fn details(s: StatusView, engaged: bool) -> LineView {
    line::tag(s.dry_run, "  "@, " DRY-RUN "@, Role::Disarmed) + line::tag(
        s.power_action == PowerAction::NoAction,
        "  "@,
        " POWER: NONE — WILL NOT CUT POWER "@,
        Role::Warn,
    ) + line::tag(
        s.power_action == PowerAction::Halt,
        "  "@,
        " POWER: HALT — WILL NOT CUT POWER "@,
        Role::Warn,
    ) + line::tag(s.sensor_ok, "   "@, "sensor ok"@, Role::Dim) + line::tag(
        !s.sensor_ok,
        "   "@,
        "SENSOR STOPPED"@,
        Role::Warn,
    ) + line::tag(s.events_lost, "   "@, "EVENTS LOST"@, Role::Warn) + line::tag(
        s.config_stale,
        "   "@,
        "CONFIG STALE"@,
        Role::Warn,
    ) + line::tag(engaged, "   "@, "LUKS DESTROY ENGAGED"@, Role::Invalid) + line::after_gap(
        "   "@,
        "whitelist "@ + text::decimal(s.whitelist_len as nat) + " · devices "@ + text::decimal(
            s.device_count as nat,
        ),
        Role::Dim,
    )
}

/// The band.
pub open spec fn band(app: AppView) -> LineView {
    line::row_of(headline(app.conn, app.status).0, headline(app.conn, app.status).1) + match (
        app.conn,
        app.status,
    ) {
        (Conn::Up, Some(s)) => details(s, app.engaged()),
        _ => Seq::empty(),
    } + line::tag(app.conn == Conn::Down, "   "@, "[daemon unreachable]"@, Role::Warn)
}

/// The headline's words and role.
fn head(conn: Conn, status: &Option<StatusPayload>) -> (r: (&'static str, Role))
    ensures
        (r.0@, r.1) == headline(conn, text::opt_view(*status)),
{
    match status {
        None => if conn == Conn::Connecting {
            (" … CONNECTING ", Role::Dim)
        } else {
            (" … NO STATUS ", Role::Dim)
        },
        Some(s) => match conn {
            Conn::Connecting => (" … CONNECTING ", Role::Dim),
            Conn::Down => if s.armed {
                (" ? LAST KNOWN: ARMED ", Role::Warn)
            } else {
                (" ? LAST KNOWN: DISARMED ", Role::Warn)
            },
            Conn::Up => if s.config_error.is_some() {
                (" ▲ CONFIG INVALID — WILL NOT ARM ", Role::Invalid)
            } else if s.armed {
                (" ● ARMED ", Role::Armed)
            } else {
                (" ○ DISARMED ", Role::Disarmed)
            },
        },
    }
}

/// The details, as a row of their own.
fn detail_line(s: &StatusPayload, engaged: bool) -> (r: Line)
    ensures
        r@ == details(s@, engaged),
{
    let mut d = line::blank();
    d.add_tag(s.dry_run, "  ", " DRY-RUN ", Role::Disarmed);
    assert(d@ =~= line::tag(s.dry_run, "  "@, " DRY-RUN "@, Role::Disarmed));
    d.add_tag(
        s.power_action == PowerAction::NoAction,
        "  ",
        " POWER: NONE — WILL NOT CUT POWER ",
        Role::Warn,
    );
    d.add_tag(
        s.power_action == PowerAction::Halt,
        "  ",
        " POWER: HALT — WILL NOT CUT POWER ",
        Role::Warn,
    );
    d.add_tag(s.sensor_ok, "   ", "sensor ok", Role::Dim);
    d.add_tag(!s.sensor_ok, "   ", "SENSOR STOPPED", Role::Warn);
    d.add_tag(s.events_lost, "   ", "EVENTS LOST", Role::Warn);
    d.add_tag(s.config_stale, "   ", "CONFIG STALE", Role::Warn);
    d.add_tag(engaged, "   ", "LUKS DESTROY ENGAGED", Role::Invalid);
    let counts = "whitelist ".to_owned().concat(
        text::decimal_text(s.whitelist_len as u64).as_str(),
    ).concat(" · devices ").concat(text::decimal_text(s.device_count as u64).as_str());
    d.add_after_gap("   ", counts.as_str(), Role::Dim);
    d
}

/// The band. What is shown of a status while the daemon is unreachable is marked as last
/// known, and its details, just as stale, are not shown.
pub fn render<C: Client>(app: &App<C>) -> (r: Line)
    ensures
        r@ == band(app@),
{
    let (words, role) = head(app.conn, &app.status);
    let mut band = line::row(words, role);
    let ghost start = band@;
    if let (Conn::Up, Some(s)) = (app.conn, &app.status) {
        let mut d = detail_line(s, app.luks_engaged());
        let ghost more = d@;
        band.spans.append(&mut d.spans);
        assert(band@ =~= start + more);
    } else {
        assert(start =~= start + Seq::empty());
    }
    band.add_tag(app.conn == Conn::Down, "   ", "[daemon unreachable]", Role::Warn);
    band
}

/// While the daemon is unreachable the band never shows a state as current: its headline is
/// marked as last known, or says that there is none, no detail is shown, and the band ends by
/// saying that the daemon is unreachable.
pub proof fn a_stale_state_is_marked(app: AppView)
    requires
        app.conn == Conn::Down,
    ensures
        band(app).len() == 3,
        band(app)[0].text == (match app.status {
            Some(s) => if s.armed {
                " ? LAST KNOWN: ARMED "@
            } else {
                " ? LAST KNOWN: DISARMED "@
            },
            None => " … NO STATUS "@,
        }),
        band(app)[0].role == Role::Warn || band(app)[0].role == Role::Dim,
        band(app)[2] == line::span_of("[daemon unreachable]"@, Role::Warn),
{
}

/// A status that is believed current, of an armed daemon that will not cut power, is tagged as
/// such.
pub proof fn an_inert_power_action_is_tagged(app: AppView, s: StatusView)
    requires
        app.conn == Conn::Up,
        app.status == Some(s),
        s.power_action != PowerAction::PowerOff,
    ensures
        exists|i: int|
            0 <= i < band(app).len() && (#[trigger] band(app)[i]).role == Role::Warn && (
            band(app)[i].text == " POWER: NONE — WILL NOT CUT POWER "@ || band(app)[i].text
                == " POWER: HALT — WILL NOT CUT POWER "@),
{
    let at: int = if s.dry_run {
        4
    } else {
        2
    };
    assert(band(app)[at].role == Role::Warn);
}

} // verus!
