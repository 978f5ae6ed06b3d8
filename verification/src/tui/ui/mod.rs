//! What the terminal UI shows, as styled rows and rectangles. [`draw`] is the whole frame: the
//! status band, the active screen, the hint line, then any modal and any transient box on top.
//!
//! Everything below reads from the app and never mutates it.

pub mod config;
pub mod destroy;
pub mod devices;
pub mod dryrun;
pub mod eventlog;
pub mod help;
pub mod laws;
pub mod line;
pub mod modals;
pub mod pane;
pub mod settings;
pub mod statusbar;
pub mod whitelist;
pub mod wrapping;

use crate::killbillctl;
use crate::text;
use crate::tui::app::App;
use crate::tui::client::Client;
use crate::tui::state;
use crate::tui::state::{AppView, Conn, Modal, Screen};
use crate::tui::ui::line::{Line, LineView, Rect, Role};
use crate::tui::ui::pane::{Frame, Overlay, OverlayView, Pane, PaneView};
use vstd::prelude::*;

verus! {

/// Below this the layout can't be trusted; a single message is shown instead.
pub const MIN_W: u16 = 60;

pub const MIN_H: u16 = 18;

/// The keys that a modal takes.
pub open spec fn modal_keys(modal: Modal) -> Seq<char> {
    match modal {
        Modal::Menu { .. } => "↑↓ move · enter select · esc cancel"@,
        Modal::DeviceAction { .. } => "↑↓ move · enter select · esc cancel"@,
        Modal::WhitelistEntryAction { .. } => "↑↓ move · enter select · esc cancel"@,
        Modal::WhitelistAddCount { .. } => "↑↓ adjust · enter confirm · esc cancel"@,
        Modal::WhitelistCount { .. } => "↑↓ adjust · enter confirm · esc cancel"@,
        Modal::Confirm { .. } => "enter confirm · esc cancel"@,
        Modal::ConfirmConfigSet { .. } => "enter confirm · esc cancel"@,
        Modal::ConfirmRemove { .. } => "enter confirm · esc cancel"@,
        Modal::WhitelistRemoveEntry { .. } => "enter confirm · esc cancel"@,
        Modal::WhitelistAddId => "type vendor:product hex · enter next · esc cancel"@,
        Modal::Report => "enter / esc dismiss"@,
        Modal::DestroyText { .. } => "type DESTROY exactly · enter · esc cancel"@,
        Modal::DestroyConfirm { .. } => "y confirm · any other key cancels"@,
    }
}

/// The keys that a modal takes.
pub fn modal_hint(modal: Modal) -> (r: &'static str)
    ensures
        r@ == modal_keys(modal),
{
    match modal {
        Modal::Menu { .. } | Modal::DeviceAction { .. } | Modal::WhitelistEntryAction { .. } => {
            "↑↓ move · enter select · esc cancel"
        },
        Modal::WhitelistAddCount { .. } | Modal::WhitelistCount { .. } => {
            "↑↓ adjust · enter confirm · esc cancel"
        },
        Modal::Confirm { .. }
        | Modal::ConfirmConfigSet { .. }
        | Modal::ConfirmRemove { .. }
        | Modal::WhitelistRemoveEntry { .. } => "enter confirm · esc cancel",
        Modal::WhitelistAddId => "type vendor:product hex · enter next · esc cancel",
        Modal::Report => "enter / esc dismiss",
        Modal::DestroyText { .. } => "type DESTROY exactly · enter · esc cancel",
        Modal::DestroyConfirm { .. } => "y confirm · any other key cancels",
    }
}

/// The keys that a screen takes.
pub open spec fn screen_keys(app: AppView) -> Seq<char> {
    let base = "m menu · ↑↓ move · enter select · r refresh · ? help · q quit"@;
    match app.screen {
        Screen::Devices => if app.device_cursor < app.devices.len() {
            match app.devices[app.device_cursor as int].id {
                Some(id) => base + "   ·   selected "@ + id.text(),
                None => base,
            }
        } else {
            base
        },
        Screen::Whitelist => "m menu · ↑↓ move · enter select · r refresh · esc back"@,
        Screen::Settings => "m menu · ↑↓ move · enter change · r refresh · esc back"@,
        Screen::DryRun => "m menu · r re-run · esc back"@,
        Screen::EventLog => "m menu · ↑↓ scroll · p follow/pause · esc back"@,
        Screen::Config => "m menu · r refresh · esc back"@,
        Screen::Help => "m menu · ↑↓ scroll · esc back"@,
        Screen::Destroy => "m menu · enter: change engaged state · esc back"@,
    }
}

/// The keys that a screen takes.
pub fn screen_hint<C: Client>(app: &App<C>) -> (r: String)
    ensures
        r@ == screen_keys(app@),
{
    match app.screen {
        Screen::Devices => {
            let base = "m menu · ↑↓ move · enter select · r refresh · ? help · q quit".to_owned();
            if app.device_cursor < app.devices.len() {
                assert(app@.devices[app.device_cursor as int]
                    == app.devices@[app.device_cursor as int]@);
                match app.devices[app.device_cursor].id {
                    Some(id) => base.concat("   ·   selected ").concat(id.to_text().as_str()),
                    None => base,
                }
            } else {
                base
            }
        },
        Screen::Whitelist => "m menu · ↑↓ move · enter select · r refresh · esc back".to_owned(),
        Screen::Settings => "m menu · ↑↓ move · enter change · r refresh · esc back".to_owned(),
        Screen::DryRun => "m menu · r re-run · esc back".to_owned(),
        Screen::EventLog => "m menu · ↑↓ scroll · p follow/pause · esc back".to_owned(),
        Screen::Config => "m menu · r refresh · esc back".to_owned(),
        Screen::Help => "m menu · ↑↓ scroll · esc back".to_owned(),
        Screen::Destroy => "m menu · enter: change engaged state · esc back".to_owned(),
    }
}

/// The hint line.
pub open spec fn hint_row(app: AppView) -> LineView {
    line::row_of(
        match app.modal {
            Some(m) => modal_keys(m),
            None => screen_keys(app),
        },
        Role::Dim,
    )
}

/// The hint line.
pub fn hints<C: Client>(app: &App<C>) -> (r: Line)
    ensures
        r@ == hint_row(app@),
{
    match app.modal {
        Some(m) => line::row(modal_hint(m), Role::Dim),
        None => line::row(screen_hint(app).as_str(), Role::Dim),
    }
}

/// The active screen, in a pane `height` rows high.
#[verifier::opaque]
pub open spec fn pane_of(app: AppView, height: u16) -> PaneView {
    match app.screen {
        Screen::Devices => devices::screen(app),
        Screen::Whitelist => whitelist::screen(app),
        Screen::DryRun => dryrun::screen(app),
        Screen::Settings => settings::screen(app),
        Screen::EventLog => eventlog::screen(app, height),
        Screen::Config => config::screen(app),
        Screen::Help => help::screen(app),
        Screen::Destroy => destroy::screen(app),
    }
}

/// The box of the open modal. One about a device or an entry that is gone shows nothing.
#[verifier::opaque]
pub open spec fn modal_of(app: AppView, area: Rect) -> Option<OverlayView> {
    match app.modal {
        None => None,
        Some(Modal::Menu { cursor }) => Some(
            pane::box_of(
                area,
                " Menu "@,
                38,
                modals::menu_rows(app, cursor, state::MENU_LEN as nat),
                Frame::Plain,
            ),
        ),
        Some(Modal::DeviceAction { device_index, cursor }) => if device_index < app.devices.len() {
            Some(
                pane::box_of(
                    area,
                    " Device "@,
                    44,
                    modals::device_action_rows(app.devices[device_index as int], cursor),
                    Frame::Plain,
                ),
            )
        } else {
            None
        },
        Some(Modal::WhitelistAddCount { device_index, max_count }) => if device_index
            < app.devices.len() {
            Some(
                pane::box_of(
                    area,
                    " Whitelist "@,
                    44,
                    modals::count_rows(
                        "Add to whitelist"@,
                        killbillctl::id_text(app.devices[device_index as int].id),
                        max_count,
                    ),
                    Frame::Plain,
                ),
            )
        } else {
            None
        },
        Some(Modal::ConfirmRemove { device_index }) => if device_index < app.devices.len() {
            Some(
                pane::box_of(
                    area,
                    " Confirm "@,
                    44,
                    modals::remove_rows(
                        killbillctl::id_text(app.devices[device_index as int].id),
                    ),
                    Frame::Plain,
                ),
            )
        } else {
            None
        },
        Some(Modal::Confirm { action }) => Some(modals::confirm_box(area, action)),
        Some(Modal::ConfirmConfigSet { row }) => Some(modals::confirm_config_set_box(area, row)),
        Some(Modal::WhitelistEntryAction { entry_index, cursor }) => if entry_index
            < app.whitelist.len() {
            Some(
                pane::box_of(
                    area,
                    " Whitelist entry "@,
                    48,
                    modals::entry_action_rows(app.whitelist[entry_index as int], cursor),
                    Frame::Plain,
                ),
            )
        } else {
            None
        },
        Some(Modal::WhitelistAddId) => Some(
            pane::box_of(area, " Whitelist "@, 48, modals::add_id_rows(app.input), Frame::Plain),
        ),
        Some(Modal::WhitelistCount { id, max_count, editing }) => Some(
            pane::box_of(
                area,
                " Whitelist "@,
                48,
                modals::count_rows(modals::count_heading(editing), id.text(), max_count),
                Frame::Plain,
            ),
        ),
        Some(Modal::WhitelistRemoveEntry { id }) => Some(
            pane::box_of(
                area,
                " Confirm "@,
                48,
                modals::remove_entry_rows(id.text()),
                Frame::Plain,
            ),
        ),
        Some(Modal::Report) => match app.report {
            Some(report) => Some(modals::report_box(area, report)),
            None => None,
        },
        Some(Modal::DestroyText { engage }) => Some(
            pane::box_of(
                area,
                " Confirm — 1 of 2 "@,
                66,
                destroy::text_rows(app, engage),
                Frame::Fence,
            ),
        ),
        Some(Modal::DestroyConfirm { engage }) => Some(
            pane::box_of(
                area,
                " Confirm — 2 of 2 "@,
                66,
                destroy::confirm_rows(app, engage),
                Frame::Fence,
            ),
        ),
    }
}

/// What stands above the screen, the topmost last: the modal, the toast, and, since nothing
/// the user does is meaningful until the daemon is back, the box that says it is unreachable.
pub open spec fn overlays_of(app: AppView, area: Rect) -> Seq<OverlayView> {
    (match modal_of(app, area) {
        Some(o) => seq![o],
        None => Seq::empty(),
    }) + (match app.toast {
        Some((msg, _)) => seq![modals::toast_box(area, msg)],
        None => Seq::empty(),
    }) + (if app.conn == Conn::Down {
        seq![
            pane::box_of(
                area,
                Seq::empty(),
                56,
                modals::unreachable_rows(app.conn_error),
                Frame::Centered,
            ),
        ]
    } else {
        Seq::empty()
    })
}

/// A whole frame.
#[derive(Debug, PartialEq, Eq)]
pub enum Scene {
    /// The terminal is too small: one centred message over all of it.
    TooSmall { message: Line },
    /// The status band, the active screen, the hint line, and the boxes above them.
    Full {
        status_area: Rect,
        status: Line,
        pane_area: Rect,
        pane: Pane,
        hint_area: Rect,
        hint: Line,
        overlays: Vec<Overlay>,
    },
}

/// What a [`Scene`] holds.
pub enum SceneView {
    TooSmall { message: LineView },
    Full {
        status_area: Rect,
        status: LineView,
        pane_area: Rect,
        pane: PaneView,
        hint_area: Rect,
        hint: LineView,
        overlays: Seq<OverlayView>,
    },
}

impl View for Scene {
    type V = SceneView;

    open spec fn view(&self) -> SceneView {
        match self {
            Scene::TooSmall { message } => SceneView::TooSmall { message: message@ },
            Scene::Full {
                status_area,
                status,
                pane_area,
                pane,
                hint_area,
                hint,
                overlays,
            } => SceneView::Full {
                status_area: *status_area,
                status: status@,
                pane_area: *pane_area,
                pane: pane@,
                hint_area: *hint_area,
                hint: hint@,
                overlays: text::views(overlays@),
            },
        }
    }
}

/// Rows `from` to `from + height` of an area.
pub open spec fn rows_of_area(area: Rect, from: u16, height: u16) -> Rect {
    Rect { x: area.x, y: (area.y + from) as u16, width: area.width, height }
}

/// The frame for a terminal of this size.
pub open spec fn scene(app: AppView, area: Rect) -> SceneView {
    if area.width < MIN_W || area.height < MIN_H {
        SceneView::TooSmall {
            message: line::row_of("Terminal too small — resize to at least 60×18"@, Role::Plain),
        }
    } else {
        let height = (area.height - 2) as u16;
        SceneView::Full {
            status_area: rows_of_area(area, 0, 1),
            status: statusbar::band(app),
            pane_area: rows_of_area(area, 1, height),
            pane: pane_of(app, height),
            hint_area: rows_of_area(area, (area.height - 1) as u16, 1),
            hint: hint_row(app),
            overlays: overlays_of(app, area),
        }
    }
}

/// The active screen, in a pane `height` rows high.
fn active_pane<C: Client>(app: &App<C>, height: u16) -> (r: Pane)
    ensures
        r@ == pane_of(app@, height),
{
    proof {
        reveal(pane_of);
    }
    match app.screen {
        Screen::Devices => devices::render(app),
        Screen::Whitelist => whitelist::render(app),
        Screen::DryRun => dryrun::render(app),
        Screen::Settings => settings::render(app),
        Screen::EventLog => eventlog::render(app, height),
        Screen::Config => config::render(app),
        Screen::Help => help::render(app),
        Screen::Destroy => destroy::render(app),
    }
}

/// The box of the open modal.
fn modal_overlay<C: Client>(app: &App<C>, area: Rect) -> (r: Option<Overlay>)
    requires
        area.wf(),
    ensures
        text::opt_view(r) == modal_of(app@, area),
{
    proof {
        reveal(modal_of);
    }
    assert(app@.devices.len() == app.devices@.len());
    assert(app@.whitelist.len() == app.whitelist@.len());
    match app.modal {
        None => None,
        Some(Modal::Menu { cursor }) => Some(modals::menu(app, area, cursor)),
        Some(Modal::DeviceAction { device_index, cursor }) => {
            if device_index < app.devices.len() {
                assert(app@.devices[device_index as int] == app.devices@[device_index as int]@);
                Some(modals::device_action_modal(&app.devices[device_index], area, cursor))
            } else {
                None
            }
        },
        Some(Modal::WhitelistAddCount { device_index, max_count }) => {
            if device_index < app.devices.len() {
                assert(app@.devices[device_index as int] == app.devices@[device_index as int]@);
                Some(modals::whitelist_add_modal(&app.devices[device_index], area, max_count))
            } else {
                None
            }
        },
        Some(Modal::ConfirmRemove { device_index }) => {
            if device_index < app.devices.len() {
                assert(app@.devices[device_index as int] == app.devices@[device_index as int]@);
                Some(modals::confirm_remove_modal(&app.devices[device_index], area))
            } else {
                None
            }
        },
        Some(Modal::Confirm { action }) => Some(modals::confirm_modal(area, action)),
        Some(Modal::ConfirmConfigSet { row }) => Some(modals::confirm_config_set_modal(area, row)),
        Some(Modal::WhitelistEntryAction { entry_index, cursor }) => {
            if entry_index < app.whitelist.len() {
                Some(modals::whitelist_entry_action_modal(app, area, entry_index, cursor))
            } else {
                None
            }
        },
        Some(Modal::WhitelistAddId) => Some(modals::whitelist_add_id_modal(app, area)),
        Some(Modal::WhitelistCount { id, max_count, editing }) => Some(
            modals::whitelist_count_modal(area, id, max_count, editing),
        ),
        Some(Modal::WhitelistRemoveEntry { id }) => Some(
            modals::whitelist_remove_entry_modal(area, id),
        ),
        Some(Modal::Report) => match &app.report {
            Some(report) => Some(modals::report_modal(area, report.as_str())),
            None => None,
        },
        Some(Modal::DestroyText { engage }) => Some(destroy::text_modal(app, area, engage)),
        Some(Modal::DestroyConfirm { engage }) => Some(destroy::confirm_modal(app, area, engage)),
    }
}

/// What stands above the screen.
fn overlays<C: Client>(app: &App<C>, area: Rect) -> (r: Vec<Overlay>)
    requires
        area.wf(),
    ensures
        text::views(r@) == overlays_of(app@, area),
{
    let mut r: Vec<Overlay> = Vec::new();
    if let Some(o) = modal_overlay(app, area) {
        r.push(o);
    }
    let ghost first = text::views(r@);
    proof {
        assert(first =~= match modal_of(app@, area) {
            Some(o) => seq![o],
            None => Seq::empty(),
        });
    }
    if let Some(t) = &app.toast {
        r.push(modals::toast(area, t.0.as_str()));
    }
    let ghost second = text::views(r@);
    proof {
        assert(second =~= first + match app@.toast {
            Some((msg, _)) => seq![modals::toast_box(area, msg)],
            None => Seq::empty(),
        });
    }
    if app.conn == Conn::Down {
        r.push(modals::unreachable_box(app, area));
    }
    assert(text::views(r@) =~= overlays_of(app@, area));
    r
}

/// The whole frame, for a terminal of this size.
pub fn draw<C: Client>(app: &App<C>, area: Rect) -> (r: Scene)
    requires
        area.wf(),
    ensures
        r@ == scene(app@, area),
{
    if area.width < MIN_W || area.height < MIN_H {
        return Scene::TooSmall {
            message: line::row("Terminal too small — resize to at least 60×18", Role::Plain),
        };
    }
    let height: u16 = area.height - 2;
    Scene::Full {
        status_area: Rect { x: area.x, y: area.y, width: area.width, height: 1 },
        status: statusbar::render(app),
        pane_area: Rect { x: area.x, y: area.y + 1, width: area.width, height },
        pane: active_pane(app, height),
        hint_area: Rect {
            x: area.x,
            y: area.y + (area.height - 1),
            width: area.width,
            height: 1,
        },
        hint: hints(app),
        overlays: overlays(app, area),
    }
}

/// The box of the open modal lies inside the terminal.
proof fn a_modal_fits(app: AppView, area: Rect)
    requires
        area.wf(),
    ensures
        modal_of(app, area) matches Some(o) ==> o.area.inside(area),
{
    assert forall|w: nat, h: nat| (#[trigger] pane::centered_in(area, w, h)).inside(area) by {
        pane::a_centred_box_fits(area, w, h);
    }
    reveal(modal_of);
}

/// The title of every screen that shows the daemon's data is marked while it is unreachable.
proof fn a_stale_title_is_marked(app: AppView, height: u16)
    requires
        app.conn == Conn::Down,
        app.screen != Screen::Help,
    ensures
        pane_of(app, height).title.last() == pane::stale_mark(),
{
    reveal(pane_of);
}

/// The band, the screen and the hint line fill the terminal, one below the other, and every
/// box above them lies inside it.
pub proof fn a_frame_fits_the_terminal(app: AppView, area: Rect)
    requires
        area.wf(),
        area.width >= MIN_W,
        area.height >= MIN_H,
    ensures
        match scene(app, area) {
            SceneView::TooSmall { .. } => false,
            SceneView::Full { status_area, pane_area, hint_area, overlays, .. } => {
                &&& status_area.inside(area) && pane_area.inside(area) && hint_area.inside(area)
                &&& status_area.y == area.y
                &&& pane_area.y == status_area.y + status_area.height
                &&& hint_area.y == pane_area.y + pane_area.height
                &&& hint_area.y + hint_area.height == area.y + area.height
                &&& forall|i: int|
                    0 <= i < overlays.len() ==> (#[trigger] overlays[i]).area.inside(area)
            },
        },
{
    a_modal_fits(app, area);
    pane::a_centred_box_fits(area, 56, modals::unreachable_rows(app.conn_error).len() + 2);
    let all = overlays_of(app, area);
    if let Some((msg, _)) = app.toast {
        assert(modals::toast_box(area, msg).area.inside(area));
    }
    assert forall|i: int| 0 <= i < all.len() implies (#[trigger] all[i]).area.inside(area) by {}
}

/// While the daemon is unreachable, every screen that shows its data says so in the title, the
/// band says so, and the topmost box says so.
pub proof fn an_unreachable_daemon_is_said_everywhere(app: AppView, area: Rect)
    requires
        app.conn == Conn::Down,
        area.width >= MIN_W,
        area.height >= MIN_H,
    ensures
        match scene(app, area) {
            SceneView::TooSmall { .. } => false,
            SceneView::Full { status, pane, overlays, .. } => {
                &&& status.last() == line::span_of("[daemon unreachable]"@, Role::Warn)
                &&& app.screen == Screen::Help || pane.title.last() == pane::stale_mark()
                &&& overlays.len() > 0
                &&& overlays.last().lines[0] == line::row_of(
                    "  ⚠  daemon unreachable  "@,
                    Role::Invalid,
                )
            },
        },
{
    statusbar::a_stale_state_is_marked(app);
    if app.screen != Screen::Help {
        a_stale_title_is_marked(app, (area.height - 2) as u16);
    }
}

} // verus!
