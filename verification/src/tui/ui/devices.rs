//! The Devices list: the home screen.
//!
//! Every currently-tracked USB device, with un-whitelisted ones marked `NEW`.

use crate::killbillctl;
use crate::proto::protocol;
use crate::proto::protocol::{DeviceInfo, DeviceInfoView};
use crate::text;
use crate::tui::app::App;
use crate::tui::client::Client;
use crate::tui::reduce;
use crate::tui::state::{AppView, Conn, Screen};
use crate::tui::ui::line;
use crate::tui::ui::line::{Line, LineView, Role};
use crate::tui::ui::pane;
use crate::tui::ui::pane::{Body, BodyView, Pane, PaneView};
use vstd::prelude::*;

verus! {

/// One device row.
pub open spec fn device_row(d: DeviceInfoView) -> LineView {
    seq![
        line::span_of("  "@, Role::Plain),
        if d.whitelisted {
            line::span_of("ok "@, Role::Dim)
        } else {
            line::span_of("NEW"@, Role::Warn)
        },
        line::span_of("  "@, Role::Plain),
        line::span_of(killbillctl::id_text(d.id), Role::Plain),
        line::span_of("  "@, Role::Plain),
        line::span_of(killbillctl::safe_text(d.label), Role::Plain),
        line::span_of("  "@, Role::Plain),
        line::span_of(killbillctl::safe_text(d.serial), Role::Dim),
    ]
}

/// One device row. `label` and `serial` are USB string descriptors, fully
/// attacker-controlled: they are sanitized here.
pub fn device_line(d: &DeviceInfo) -> (r: Line)
    ensures
        r@ == device_row(d@),
{
    let mut r = line::row("  ", Role::Plain);
    if d.whitelisted {
        r.add_span("ok ", Role::Dim);
    } else {
        r.add_span("NEW", Role::Warn);
    }
    r.add_span("  ", Role::Plain);
    r.add_span(killbillctl::show_id(d.id).as_str(), Role::Plain);
    r.add_span("  ", Role::Plain);
    r.add_span(killbillctl::show_safe(&d.label).as_str(), Role::Plain);
    r.add_span("  ", Role::Plain);
    r.add_span(killbillctl::show_safe(&d.serial).as_str(), Role::Dim);
    assert(r@ =~= device_row(d@));
    r
}

/// The rows of the list.
pub open spec fn device_rows(devices: Seq<DeviceInfoView>) -> Seq<LineView> {
    devices.map_values(|d: DeviceInfoView| device_row(d))
}

/// The screen.
pub open spec fn screen(app: AppView) -> PaneView {
    let title = pane::title_of(
        app.conn,
        " Devices ("@ + text::decimal(app.devices.len()) + ") "@,
    );
    if app.devices.len() == 0 {
        pane::text_pane(
            title,
            seq![
                line::row_of(
                    if app.conn == Conn::Up {
                        "No USB devices tracked. The daemon reports devices seen since it started."@
                    } else {
                        "Waiting for the daemon…"@
                    },
                    Role::Plain,
                ),
            ],
        )
    } else {
        PaneView {
            title,
            body: BodyView::List {
                items: device_rows(app.devices),
                selected: if app.modal is None && app.screen == Screen::Devices {
                    Some(reduce::clamped(app.device_cursor, app.devices.len()))
                } else {
                    None
                },
            },
            hazard: false,
        }
    }
}

/// The screen.
pub fn render<C: Client>(app: &App<C>) -> (r: Pane)
    ensures
        r@ == screen(app@),
{
    let base = " Devices (".to_owned().concat(
        text::decimal_text(app.devices.len() as u64).as_str(),
    ).concat(") ");
    let title = pane::screen_title(app.conn, base.as_str());
    assert(app@.devices.len() == app.devices@.len());
    let mut items = line::no_lines();
    if app.devices.len() == 0 {
        if app.conn == Conn::Up {
            line::add_row(
                &mut items,
                "No USB devices tracked. The daemon reports devices seen since it started.",
                Role::Plain,
            );
        } else {
            line::add_row(&mut items, "Waiting for the daemon…", Role::Plain);
        }
        return Pane {
            title,
            body: Body::Text { lines: items, wrap: true, scroll: 0 },
            hazard: false,
        };
    }
    let ghost all = device_rows(app@.devices);
    let mut i: usize = 0;
    assert(all.take(0) =~= Seq::<LineView>::empty());
    while i < app.devices.len()
        invariant
            i <= app.devices@.len(),
            all == device_rows(app@.devices),
            app@.devices.len() == app.devices@.len(),
            text::views(items@) == all.take(i as int),
        decreases app.devices@.len() - i,
    {
        assert(app@.devices[i as int] == app.devices@[i as int]@);
        line::add_line(&mut items, device_line(&app.devices[i]));
        i += 1;
        assert(all.take(i as int) =~= all.take(i - 1).push(all[i - 1]));
    }
    assert(all.take(i as int) =~= all);
    let selected = if app.modal.is_none() && app.screen == Screen::Devices {
        let last: usize = app.devices.len() - 1;
        if app.device_cursor < last {
            Some(app.device_cursor)
        } else {
            Some(last)
        }
    } else {
        None
    };
    Pane { title, body: Body::List { items, selected }, hazard: false }
}

/// Whatever a device calls itself, its row is safe to show: nothing in it but printable ASCII,
/// the space and U+FFFD.
pub proof fn a_device_row_is_safe(d: DeviceInfoView)
    ensures
        forall|i: int|
            0 <= i < device_row(d).len() ==> protocol::is_safe((#[trigger] device_row(d)[i]).text),
{
    reveal_strlit("  ");
    reveal_strlit("ok ");
    reveal_strlit("NEW");
    reveal_strlit("????:????");
    reveal_strlit("");
    assert(protocol::is_safe(killbillctl::id_text(d.id)));
    assert(protocol::is_safe(killbillctl::safe_text(d.label)));
    assert(protocol::is_safe(killbillctl::safe_text(d.serial)));
}

} // verus!
