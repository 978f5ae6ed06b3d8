//! The Settings screen: the four editable response-config fields, plus `sensors` and
//! `luks_destroy` read-only. It always shows the *running* config.

use crate::killbillctl;
use crate::proto::debug;
use crate::proto::protocol;
use crate::proto::protocol::{ConfigPayload, ConfigPayloadView};
use crate::text;
use crate::tui::app::App;
use crate::tui::client::Client;
use crate::tui::state::AppView;
use crate::tui::ui::line;
use crate::tui::ui::line::{Line, LineView, Role};
use crate::tui::ui::pane;
use crate::tui::ui::pane::{Body, Pane, PaneView};
use vstd::prelude::*;

verus! {

/// A switch in words.
pub open spec fn on_off_of(b: bool) -> Seq<char> {
    if b {
        "on"@
    } else {
        "off"@
    }
}

/// A switch in words.
fn on_off(b: bool) -> (r: &'static str)
    ensures
        r@ == on_off_of(b),
{
    if b {
        "on"
    } else {
        "off"
    }
}

/// One editable row.
pub open spec fn setting_row(selected: bool, name: Seq<char>, value: Seq<char>) -> LineView {
    if selected {
        line::row_of(" ▸ "@ + text::padded(name, 16) + value, Role::Selected)
    } else {
        line::row_of("   "@ + text::padded(name, 16) + value, Role::Plain)
    }
}

/// Adds one editable row.
fn add_setting(lines: &mut Vec<Line>, selected: bool, name: &str, value: &str)
    ensures
        text::views(final(lines)@) == text::views(old(lines)@).push(
            setting_row(selected, name@, value@),
        ),
{
    let padded = text::pad(name, 16);
    if selected {
        let row = " ▸ ".to_owned().concat(padded.as_str()).concat(value);
        line::add_row(lines, row.as_str(), Role::Selected);
    } else {
        let row = "   ".to_owned().concat(padded.as_str()).concat(value);
        line::add_row(lines, row.as_str(), Role::Plain);
    }
}

/// Whether a row is the selected one: none is while a modal is open.
pub open spec fn is_selected(app: AppView, row: usize) -> bool {
    app.modal is None && app.settings_cursor == row
}

/// What stands above the rows where the config on disk is broken.
pub open spec fn notice(cfg: ConfigPayloadView) -> Seq<LineView> {
    match cfg.validation_error {
        None => Seq::empty(),
        Some(err) => (seq![
            line::row_of(" CONFIG ON DISK IS INVALID — running last-good "@, Role::Invalid),
        ] + line::rows_of(text::lines_of(err), Role::Warn)).push(line::blank_row()),
    }
}

/// The row of LUKS destruction.
pub open spec fn luks_words(cfg: ConfigPayloadView) -> Seq<char> {
    match cfg.luks_destroy {
        Some(l) => "   "@ + text::padded("luks destroy"@, 16) + protocol::sanitized(l.target_header)
            + "  (engaged: "@ + killbillctl::yes_no_of(l.engaged) + ")"@,
        None => "   "@ + text::padded("luks destroy"@, 16) + "not configured"@,
    }
}

/// The rows of the screen.
pub open spec fn rows(app: AppView, cfg: ConfigPayloadView) -> Seq<LineView> {
    notice(cfg).push(setting_row(is_selected(app, 0), "dry run"@, on_off_of(cfg.dry_run))).push(
        setting_row(is_selected(app, 1), "power action"@, cfg.power_action.word()),
    ).push(setting_row(is_selected(app, 2), "armed at boot"@, on_off_of(cfg.armed_at_boot))).push(
        setting_row(is_selected(app, 3), "on sensor gap"@, cfg.on_sensor_gap.word()),
    ).push(line::blank_row()).push(
        line::row_of(
            "   "@ + text::padded("sensors"@, 16) + debug::commas(cfg.sensors),
            Role::Dim,
        ),
    ).push(line::row_of(luks_words(cfg), Role::Dim)).push(
        line::row_of("   (sensors / luks-destroy are edited with killbillctl in v1)"@, Role::Dim),
    ).push(line::blank_row()).push(
        line::row_of("   enter toggles or cycles the selected row"@, Role::Dim),
    )
}

/// The screen.
pub open spec fn screen(app: AppView) -> PaneView {
    pane::text_pane(
        pane::title_of(app.conn, " Settings "@),
        match app.config {
            None => seq![line::row_of("Loading config… press r to retry."@, Role::Plain)],
            Some(cfg) => rows(app, cfg),
        },
    )
}

/// What stands above the rows.
fn notice_lines(cfg: &ConfigPayload) -> (r: Vec<Line>)
    ensures
        text::views(r@) == notice(cfg@),
{
    let mut lines = line::no_lines();
    if let Some(err) = &cfg.validation_error {
        line::add_row(
            &mut lines,
            " CONFIG ON DISK IS INVALID — running last-good ",
            Role::Invalid,
        );
        assert(text::views(lines@) =~= seq![
            line::row_of(" CONFIG ON DISK IS INVALID — running last-good "@, Role::Invalid),
        ]);
        line::add_rows(&mut lines, &text::lines(err.as_str()), Role::Warn);
        line::add_blank(&mut lines);
    }
    lines
}

/// The words of LUKS destruction's row.
fn luks_text(cfg: &ConfigPayload) -> (r: String)
    ensures
        r@ == luks_words(cfg@),
{
    let name = "   ".to_owned().concat(text::pad("luks destroy", 16).as_str());
    match &cfg.luks_destroy {
        Some(l) => name.concat(
            protocol::sanitize_device_string(l.target_header.as_str()).as_str(),
        ).concat("  (engaged: ").concat(killbillctl::yes_no(l.engaged)).concat(")"),
        None => name.concat("not configured"),
    }
}

/// The rows of the screen.
fn setting_lines<C: Client>(app: &App<C>, cfg: &ConfigPayload) -> (r: Vec<Line>)
    ensures
        text::views(r@) == rows(app@, cfg@),
{
    let free = app.modal.is_none();
    let mut lines = notice_lines(cfg);
    add_setting(&mut lines, free && app.settings_cursor == 0, "dry run", on_off(cfg.dry_run));
    add_setting(
        &mut lines,
        free && app.settings_cursor == 1,
        "power action",
        cfg.power_action.as_str(),
    );
    add_setting(
        &mut lines,
        free && app.settings_cursor == 2,
        "armed at boot",
        on_off(cfg.armed_at_boot),
    );
    add_setting(
        &mut lines,
        free && app.settings_cursor == 3,
        "on sensor gap",
        cfg.on_sensor_gap.as_str(),
    );
    line::add_blank(&mut lines);
    let sensors = "   ".to_owned().concat(text::pad("sensors", 16).as_str()).concat(
        killbillctl::join_names(&cfg.sensors).as_str(),
    );
    line::add_row(&mut lines, sensors.as_str(), Role::Dim);
    line::add_row(&mut lines, luks_text(cfg).as_str(), Role::Dim);
    line::add_row(
        &mut lines,
        "   (sensors / luks-destroy are edited with killbillctl in v1)",
        Role::Dim,
    );
    line::add_blank(&mut lines);
    line::add_row(&mut lines, "   enter toggles or cycles the selected row", Role::Dim);
    lines
}

/// The screen.
pub fn render<C: Client>(app: &App<C>) -> (r: Pane)
    ensures
        r@ == screen(app@),
{
    let title = pane::screen_title(app.conn, " Settings ");
    let lines = match &app.config {
        None => {
            let mut lines = line::no_lines();
            line::add_row(&mut lines, "Loading config… press r to retry.", Role::Plain);
            assert(text::views(lines@) =~= seq![
                line::row_of("Loading config… press r to retry."@, Role::Plain),
            ]);
            lines
        },
        Some(cfg) => setting_lines(app, cfg),
    };
    Pane { title, body: Body::Text { lines, wrap: true, scroll: 0 }, hazard: false }
}

} // verus!
