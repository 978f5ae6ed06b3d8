//! The read-only Config inspector: the whole running config as the daemon reports it, and the
//! full validation report when the file on disk is broken.

use crate::killbillctl;
use crate::proto::action::PowerAction;
use crate::proto::debug;
use crate::proto::protocol;
use crate::proto::protocol::{ConfigPayload, ConfigPayloadView};
use crate::text;
use crate::tui::app::App;
use crate::tui::client::Client;
use crate::tui::state::AppView;
use crate::tui::ui::line;
use crate::tui::ui::line::{Line, LineView, Role};
use crate::tui::ui::pane;
use crate::tui::ui::pane::{Body, Pane, PaneView};
use vstd::prelude::*;

verus! {

/// One field: its name, and its value.
pub open spec fn field_row(name: Seq<char>, value: Seq<char>, role: Role) -> LineView {
    seq![
        line::span_of("  "@ + text::padded(name, 16), Role::Dim),
        line::span_of(value, role),
    ]
}

/// Adds one field.
fn add_field(lines: &mut Vec<Line>, name: &str, value: &str, role: Role)
    ensures
        text::views(final(lines)@) == text::views(old(lines)@).push(
            field_row(name@, value@, role),
        ),
{
    let label = "  ".to_owned().concat(text::pad(name, 16).as_str());
    let mut row = line::row(label.as_str(), Role::Dim);
    row.add_span(value, role);
    assert(row@ =~= field_row(name@, value@, role));
    line::add_line(lines, row);
}

/// What stands above the fields where the config on disk is broken.
pub open spec fn notice(cfg: ConfigPayloadView) -> Seq<LineView> {
    match cfg.validation_error {
        None => Seq::empty(),
        Some(err) => (seq![
            line::row_of(" ▲ CONFIG ON DISK IS INVALID — running last-good "@, Role::Invalid),
            line::blank_row(),
        ] + line::rows_of(text::lines_of(err), Role::Warn)).push(line::blank_row()).push(
            line::row_of(
                "the fields below are the config the daemon is actually running:"@,
                Role::Dim,
            ),
        ).push(line::blank_row()),
    }
}

/// The power action, flagged where it does not cut power.
pub open spec fn power_row(p: PowerAction) -> LineView {
    if p == PowerAction::PowerOff {
        field_row("power action"@, p.word(), Role::Plain)
    } else {
        field_row("power action"@, p.word() + "  (does not cut power)"@, Role::Warn)
    }
}

/// The fields of LUKS destruction.
pub open spec fn luks_rows(cfg: ConfigPayloadView) -> Seq<LineView> {
    match cfg.luks_destroy {
        None => seq![field_row("luks destroy"@, "not configured"@, Role::Dim)],
        Some(l) => seq![
            field_row("luks destroy"@, protocol::sanitized(l.target_header), Role::Warn),
            field_row("  acknowledged"@, killbillctl::yes_no_of(l.acknowledged), Role::Plain),
            if l.engaged {
                field_row(
                    "  engaged"@,
                    "YES  (v1: recorded only — the wipe is a stub, the header is not touched)"@,
                    Role::Invalid,
                )
            } else {
                field_row("  engaged"@, "no"@, Role::Plain)
            },
        ],
    }
}

/// The rows of the screen.
pub open spec fn rows(cfg: ConfigPayloadView) -> Seq<LineView> {
    (notice(cfg).push(
        field_row("armed at boot"@, killbillctl::yes_no_of(cfg.armed_at_boot), Role::Plain),
    ).push(field_row("dry run"@, killbillctl::yes_no_of(cfg.dry_run), Role::Plain)).push(
        power_row(cfg.power_action),
    ).push(field_row("on sensor gap"@, cfg.on_sensor_gap.word(), Role::Plain)).push(
        field_row("sensors"@, debug::commas(cfg.sensors), Role::Plain),
    ) + luks_rows(cfg)).push(line::blank_row()).push(
        line::row_of(
            "  edit dry-run / power-action / armed-at-boot / on-sensor-gap on the"@,
            Role::Dim,
        ),
    ).push(
        line::row_of(
            "  Settings screen; sensors and luks-destroy are killbillctl-only in v1."@,
            Role::Dim,
        ),
    )
}

/// The screen.
pub open spec fn screen(app: AppView) -> PaneView {
    pane::text_pane(
        pane::title_of(app.conn, " Config (read-only) "@),
        match app.config {
            None => seq![line::row_of("Loading config… press r to retry."@, Role::Plain)],
            Some(cfg) => rows(cfg),
        },
    )
}

/// What stands above the fields.
fn notice_lines(cfg: &ConfigPayload) -> (r: Vec<Line>)
    ensures
        text::views(r@) == notice(cfg@),
{
    let mut lines = line::no_lines();
    if let Some(err) = &cfg.validation_error {
        line::add_row(
            &mut lines,
            " ▲ CONFIG ON DISK IS INVALID — running last-good ",
            Role::Invalid,
        );
        line::add_blank(&mut lines);
        assert(text::views(lines@) =~= seq![
            line::row_of(" ▲ CONFIG ON DISK IS INVALID — running last-good "@, Role::Invalid),
            line::blank_row(),
        ]);
        line::add_rows(&mut lines, &text::lines(err.as_str()), Role::Warn);
        line::add_blank(&mut lines);
        line::add_row(
            &mut lines,
            "the fields below are the config the daemon is actually running:",
            Role::Dim,
        );
        line::add_blank(&mut lines);
    }
    lines
}

/// Adds the fields of LUKS destruction.
fn add_luks(lines: &mut Vec<Line>, cfg: &ConfigPayload)
    ensures
        text::views(final(lines)@) == text::views(old(lines)@) + luks_rows(cfg@),
{
    let ghost had = text::views(lines@);
    match &cfg.luks_destroy {
        None => add_field(lines, "luks destroy", "not configured", Role::Dim),
        Some(l) => {
            let target = protocol::sanitize_device_string(l.target_header.as_str());
            add_field(lines, "luks destroy", target.as_str(), Role::Warn);
            add_field(lines, "  acknowledged", killbillctl::yes_no(l.acknowledged), Role::Plain);
            if l.engaged {
                add_field(
                    lines,
                    "  engaged",
                    "YES  (v1: recorded only — the wipe is a stub, the header is not touched)",
                    Role::Invalid,
                );
            } else {
                add_field(lines, "  engaged", "no", Role::Plain);
            }
        },
    }
    assert(text::views(lines@) =~= had + luks_rows(cfg@));
}

/// The rows of the screen.
fn config_lines(cfg: &ConfigPayload) -> (r: Vec<Line>)
    ensures
        text::views(r@) == rows(cfg@),
{
    let mut lines = notice_lines(cfg);
    add_field(
        &mut lines,
        "armed at boot",
        killbillctl::yes_no(cfg.armed_at_boot),
        Role::Plain,
    );
    add_field(&mut lines, "dry run", killbillctl::yes_no(cfg.dry_run), Role::Plain);
    if cfg.power_action == PowerAction::PowerOff {
        add_field(&mut lines, "power action", cfg.power_action.as_str(), Role::Plain);
    } else {
        let words = cfg.power_action.as_str().to_owned().concat("  (does not cut power)");
        add_field(&mut lines, "power action", words.as_str(), Role::Warn);
    }
    add_field(&mut lines, "on sensor gap", cfg.on_sensor_gap.as_str(), Role::Plain);
    let sensors = killbillctl::join_names(&cfg.sensors);
    add_field(&mut lines, "sensors", sensors.as_str(), Role::Plain);
    add_luks(&mut lines, cfg);
    line::add_blank(&mut lines);
    line::add_row(
        &mut lines,
        "  edit dry-run / power-action / armed-at-boot / on-sensor-gap on the",
        Role::Dim,
    );
    line::add_row(
        &mut lines,
        "  Settings screen; sensors and luks-destroy are killbillctl-only in v1.",
        Role::Dim,
    );
    lines
}

/// The screen.
pub fn render<C: Client>(app: &App<C>) -> (r: Pane)
    ensures
        r@ == screen(app@),
{
    let title = pane::screen_title(app.conn, " Config (read-only) ");
    let lines = match &app.config {
        None => {
            let mut lines = line::no_lines();
            line::add_row(&mut lines, "Loading config… press r to retry.", Role::Plain);
            assert(text::views(lines@) =~= seq![
                line::row_of("Loading config… press r to retry."@, Role::Plain),
            ]);
            lines
        },
        Some(cfg) => config_lines(cfg),
    };
    Pane { title, body: Body::Text { lines, wrap: true, scroll: 0 }, hazard: false }
}

} // verus!
