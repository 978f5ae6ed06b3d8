//! The boxes above the active screen.

use crate::killbillctl;
use crate::proto::protocol::{DeviceInfo, DeviceInfoView, WhitelistEntryView};
use crate::proto::sensor_event::UsbId;
use crate::text;
use crate::tui::app::App;
use crate::tui::client::Client;
use crate::tui::state;
use crate::tui::state::{AppView, ConfirmAction, Conn, MenuItem};
use crate::tui::ui::line;
use crate::tui::ui::line::{Line, LineView, Rect, Role};
use crate::tui::ui::pane;
use crate::tui::ui::pane::{Frame, Overlay, OverlayView};
use crate::tui::ui::whitelist;
use vstd::prelude::*;

verus! {

// --- menu ---

/// Whether the config that the daemon holds is known to be invalid.
pub open spec fn config_invalid(app: AppView) -> bool {
    match app.status {
        Some(s) => s.config_error is Some,
        None => false,
    }
}

/// Whether LUKS destruction is known not to be configured.
pub open spec fn luks_unconfigured(app: AppView) -> bool {
    match app.config {
        Some(c) => c.luks_destroy is None,
        None => false,
    }
}

/// Whether a menu item is greyed.
pub open spec fn disabled(app: AppView, item: MenuItem) -> bool {
    (item == MenuItem::Arm && config_invalid(app)) || (item == MenuItem::LuksDestroy
        && luks_unconfigured(app))
}

/// What follows a menu item's label. A destructive state is said without opening the screen;
/// while the daemon is unreachable it is not said as a fact.
pub open spec fn suffix(app: AppView, item: MenuItem) -> Seq<char> {
    if disabled(app, item) {
        if item == MenuItem::LuksDestroy {
            "   (not configured)"@
        } else {
            "   (config invalid)"@
        }
    } else if item == MenuItem::LuksDestroy && app.engaged() {
        if app.conn == Conn::Down {
            "   (engaged? — daemon unreachable)"@
        } else {
            "   (ENGAGED)"@
        }
    } else {
        Seq::empty()
    }
}

/// How a menu item is shown.
pub open spec fn item_role(app: AppView, item: MenuItem, selected: bool) -> Role {
    if disabled(app, item) {
        Role::Dim
    } else if selected {
        Role::Selected
    } else if item == MenuItem::LuksDestroy && app.engaged() {
        if app.conn == Conn::Down {
            Role::Warn
        } else {
            Role::Invalid
        }
    } else {
        Role::Plain
    }
}

/// The mark before a row that can be selected.
pub open spec fn marker_of(selected: bool) -> Seq<char> {
    if selected {
        " ▸ "@
    } else {
        "   "@
    }
}

/// The mark before a row that can be selected.
fn marker(selected: bool) -> (r: &'static str)
    ensures
        r@ == marker_of(selected),
{
    if selected {
        " ▸ "
    } else {
        "   "
    }
}

/// The row of a menu item.
pub open spec fn item_row(app: AppView, item: MenuItem, selected: bool) -> LineView {
    line::row_of(
        marker_of(selected) + item.words() + suffix(app, item),
        item_role(app, item, selected),
    )
}

/// The rows of the first `n` menu items: a separator stands before each that starts a group.
pub open spec fn menu_rows(app: AppView, cursor: usize, n: nat) -> Seq<LineView>
    decreases n,
{
    if n == 0 {
        Seq::empty()
    } else {
        let item = state::menu_order()[n - 1];
        let before = menu_rows(app, cursor, (n - 1) as nat);
        let row = item_row(app, item, n - 1 == cursor);
        if item == MenuItem::Arm || item == MenuItem::Help {
            before.push(line::row_of("──────────────"@, Role::Dim)).push(row)
        } else {
            before.push(row)
        }
    }
}

/// The row of a menu item.
fn item_line<C: Client>(app: &App<C>, item: MenuItem, selected: bool) -> (r: Line)
    ensures
        r@ == item_row(app@, item, selected),
{
    let invalid = match &app.status {
        Some(s) => s.config_error.is_some(),
        None => false,
    };
    let unconfigured = match &app.config {
        Some(c) => c.luks_destroy.is_none(),
        None => false,
    };
    let is_luks = item == MenuItem::LuksDestroy;
    let off = (item == MenuItem::Arm && invalid) || (is_luks && unconfigured);
    let engaged = is_luks && app.luks_engaged();
    let down = app.conn == Conn::Down;
    let after: &str = if off {
        if is_luks {
            "   (not configured)"
        } else {
            "   (config invalid)"
        }
    } else if engaged {
        if down {
            "   (engaged? — daemon unreachable)"
        } else {
            "   (ENGAGED)"
        }
    } else {
        ""
    };
    let role = if off {
        Role::Dim
    } else if selected {
        Role::Selected
    } else if engaged {
        if down {
            Role::Warn
        } else {
            Role::Invalid
        }
    } else {
        Role::Plain
    };
    proof {
        reveal_strlit("");
        assert(""@ =~= Seq::<char>::empty());
    }
    let words = marker(selected).to_owned().concat(item.label()).concat(after);
    line::row(words.as_str(), role)
}

/// The main menu.
pub fn menu<C: Client>(app: &App<C>, area: Rect, cursor: usize) -> (r: Overlay)
    requires
        area.wf(),
    ensures
        r@ == pane::box_of(
            area,
            " Menu "@,
            38,
            menu_rows(app@, cursor, state::MENU_LEN as nat),
            Frame::Plain,
        ),
{
    let mut lines = line::no_lines();
    let items = MenuItem::ORDER;
    assert(items@ =~= state::menu_order());
    let mut i: usize = 0;
    while i < state::MENU_LEN
        invariant
            i <= state::MENU_LEN,
            items@ == state::menu_order(),
            items@.len() == state::MENU_LEN,
            text::views(lines@) == menu_rows(app@, cursor, i as nat),
        decreases state::MENU_LEN - i,
    {
        let item = items[i];
        if item.starts_group() {
            line::add_row(&mut lines, "──────────────", Role::Dim);
        }
        line::add_line(&mut lines, item_line(app, item, i == cursor));
        i += 1;
    }
    pane::modal_box(area, " Menu ", 38, lines, Frame::Plain)
}

// --- lists of options ---

/// The rows of some options, one of them under the cursor.
pub open spec fn option_rows(options: Seq<Seq<char>>, cursor: usize) -> Seq<LineView> {
    Seq::new(
        options.len(),
        |i: int|
            line::row_of(
                marker_of(i == cursor) + options[i],
                if i == cursor {
                    Role::Selected
                } else {
                    Role::Plain
                },
            ),
    )
}

/// Adds the row of one option.
fn add_option(lines: &mut Vec<Line>, option: &str, selected: bool)
    ensures
        text::views(final(lines)@) == text::views(old(lines)@).push(
            line::row_of(
                marker_of(selected) + option@,
                if selected {
                    Role::Selected
                } else {
                    Role::Plain
                },
            ),
        ),
{
    let words = marker(selected).to_owned().concat(option);
    line::add_row(
        lines,
        words.as_str(),
        if selected {
            Role::Selected
        } else {
            Role::Plain
        },
    );
}

/// The rows of the device action modal.
pub open spec fn device_action_rows(d: DeviceInfoView, cursor: usize) -> Seq<LineView> {
    seq![
        line::row_of(
            killbillctl::id_text(d.id) + "  "@ + killbillctl::safe_text(d.label) + "  ["@ + (
            if d.whitelisted {
                "whitelisted"@
            } else {
                "NEW — not whitelisted"@
            }) + "]"@,
            Role::Bold,
        ),
        line::blank_row(),
    ] + option_rows(state::device_action_words(d.whitelisted), cursor)
}

/// The device action modal: what can be done with one device.
pub fn device_action_modal(d: &DeviceInfo, area: Rect, cursor: usize) -> (r: Overlay)
    requires
        area.wf(),
    ensures
        r@ == pane::box_of(area, " Device "@, 44, device_action_rows(d@, cursor), Frame::Plain),
{
    let mut lines = line::no_lines();
    let head = killbillctl::show_id(d.id).concat("  ").concat(
        killbillctl::show_safe(&d.label).as_str(),
    ).concat("  [").concat(
        if d.whitelisted {
            "whitelisted"
        } else {
            "NEW — not whitelisted"
        },
    ).concat("]");
    line::add_row(&mut lines, head.as_str(), Role::Bold);
    line::add_blank(&mut lines);
    let labels = state::device_action_labels(d.whitelisted);
    let ghost words = labels@.map_values(|s: &'static str| s@);
    assert(words[0] == labels@[0]@);
    assert(words[1] == labels@[1]@);
    add_option(&mut lines, labels[0], cursor == 0);
    add_option(&mut lines, labels[1], cursor == 1);
    assert(text::views(lines@) =~= device_action_rows(d@, cursor));
    pane::modal_box(area, " Device ", 44, lines, Frame::Plain)
}

/// The rows of the whitelist-entry action modal.
pub open spec fn entry_action_rows(e: WhitelistEntryView, cursor: usize) -> Seq<LineView> {
    seq![
        line::row_of(
            e.id.text() + "  max "@ + text::decimal(whitelist::allowed(e.max_count) as nat) + "  "@
                + killbillctl::safe_text(e.label),
            Role::Bold,
        ),
        line::blank_row(),
    ] + option_rows(state::whitelist_entry_action_words(), cursor)
}

/// The whitelist-entry action modal: what can be done with one entry.
pub fn whitelist_entry_action_modal<C: Client>(
    app: &App<C>,
    area: Rect,
    entry_index: usize,
    cursor: usize,
) -> (r: Overlay)
    requires
        area.wf(),
        entry_index < app@.whitelist.len(),
    ensures
        r@ == pane::box_of(
            area,
            " Whitelist entry "@,
            48,
            entry_action_rows(app@.whitelist[entry_index as int], cursor),
            Frame::Plain,
        ),
{
    let e = &app.whitelist[entry_index];
    assert(app@.whitelist[entry_index as int] == e@);
    let mut lines = line::no_lines();
    let head = e.id.to_text().concat("  max ").concat(
        text::decimal_text(whitelist::allowed_count(e.max_count) as u64).as_str(),
    ).concat("  ").concat(killbillctl::show_safe(&e.label).as_str());
    line::add_row(&mut lines, head.as_str(), Role::Bold);
    line::add_blank(&mut lines);
    let labels = state::whitelist_entry_action_labels();
    let ghost words = labels@.map_values(|s: &'static str| s@);
    assert(words[0] == labels@[0]@);
    assert(words[1] == labels@[1]@);
    assert(words[2] == labels@[2]@);
    add_option(&mut lines, labels[0], cursor == 0);
    add_option(&mut lines, labels[1], cursor == 1);
    add_option(&mut lines, labels[2], cursor == 2);
    assert(text::views(lines@) =~= entry_action_rows(e@, cursor));
    pane::modal_box(area, " Whitelist entry ", 48, lines, Frame::Plain)
}

// --- counts and ids ---

/// The rows of a count picker.
pub open spec fn count_rows(heading: Seq<char>, id: Seq<char>, max_count: u32) -> Seq<LineView> {
    seq![
        line::row_of(heading, Role::Bold),
        line::blank_row(),
        line::row_of(id, Role::Plain),
        line::blank_row(),
        seq![
            line::span_of("max connected at once:  "@, Role::Plain),
            line::span_of(text::decimal(max_count as nat), Role::Selected),
        ],
    ]
}

/// A count picker.
fn count_modal(area: Rect, w: usize, heading: &str, id: &str, max_count: u32) -> (r: Overlay)
    requires
        area.wf(),
    ensures
        r@ == pane::box_of(
            area,
            " Whitelist "@,
            w as nat,
            count_rows(heading@, id@, max_count),
            Frame::Plain,
        ),
{
    let mut lines = line::no_lines();
    line::add_row(&mut lines, heading, Role::Bold);
    line::add_blank(&mut lines);
    line::add_row(&mut lines, id, Role::Plain);
    line::add_blank(&mut lines);
    let mut count = line::row("max connected at once:  ", Role::Plain);
    count.add_span(text::decimal_text(max_count as u64).as_str(), Role::Selected);
    assert(count@ =~= count_rows(heading@, id@, max_count)[4]);
    line::add_line(&mut lines, count);
    assert(text::views(lines@) =~= count_rows(heading@, id@, max_count));
    pane::modal_box(area, " Whitelist ", w, lines, Frame::Plain)
}

/// The count picker for a device that is being added.
pub fn whitelist_add_modal(d: &DeviceInfo, area: Rect, max_count: u32) -> (r: Overlay)
    requires
        area.wf(),
    ensures
        r@ == pane::box_of(
            area,
            " Whitelist "@,
            44,
            count_rows("Add to whitelist"@, killbillctl::id_text(d@.id), max_count),
            Frame::Plain,
        ),
{
    count_modal(area, 44, "Add to whitelist", killbillctl::show_id(d.id).as_str(), max_count)
}

/// The heading of the count picker.
pub open spec fn count_heading(editing: bool) -> Seq<char> {
    if editing {
        "Edit max count"@
    } else {
        "Add to whitelist"@
    }
}

/// The count picker for an entry that is being added or edited.
pub fn whitelist_count_modal(area: Rect, id: UsbId, max_count: u32, editing: bool) -> (r: Overlay)
    requires
        area.wf(),
    ensures
        r@ == pane::box_of(
            area,
            " Whitelist "@,
            48,
            count_rows(count_heading(editing), id.text(), max_count),
            Frame::Plain,
        ),
{
    let heading = if editing {
        "Edit max count"
    } else {
        "Add to whitelist"
    };
    count_modal(area, 48, heading, id.to_text().as_str(), max_count)
}

/// The rows around the id field.
pub open spec fn add_id_rows(input: Seq<char>) -> Seq<LineView> {
    seq![
        line::row_of("Add whitelist entry"@, Role::Bold),
        line::blank_row(),
        seq![
            line::span_of("vendor:product  "@, Role::Plain),
            line::span_of(input + "_"@, Role::Selected),
        ],
        line::blank_row(),
        line::row_of("hex digits and one colon, e.g. 1050:0407"@, Role::Dim),
    ]
}

/// The id field of a new entry.
pub fn whitelist_add_id_modal<C: Client>(app: &App<C>, area: Rect) -> (r: Overlay)
    requires
        area.wf(),
    ensures
        r@ == pane::box_of(area, " Whitelist "@, 48, add_id_rows(app@.input), Frame::Plain),
{
    let mut lines = line::no_lines();
    line::add_row(&mut lines, "Add whitelist entry", Role::Bold);
    line::add_blank(&mut lines);
    let mut field = line::row("vendor:product  ", Role::Plain);
    field.add_span(app.input.clone().concat("_").as_str(), Role::Selected);
    assert(field@ =~= add_id_rows(app@.input)[2]);
    line::add_line(&mut lines, field);
    line::add_blank(&mut lines);
    line::add_row(&mut lines, "hex digits and one colon, e.g. 1050:0407", Role::Dim);
    assert(text::views(lines@) =~= add_id_rows(app@.input));
    pane::modal_box(area, " Whitelist ", 48, lines, Frame::Plain)
}

// --- confirmations ---

/// The rows that ask whether a device is to be removed.
pub open spec fn remove_rows(id: Seq<char>) -> Seq<LineView> {
    seq![
        line::row_of("Remove from whitelist?"@, Role::Warn),
        line::blank_row(),
        line::row_of(id, Role::Plain),
    ]
}

/// Asks whether a device is to be removed from the whitelist.
pub fn confirm_remove_modal(d: &DeviceInfo, area: Rect) -> (r: Overlay)
    requires
        area.wf(),
    ensures
        r@ == pane::box_of(
            area,
            " Confirm "@,
            44,
            remove_rows(killbillctl::id_text(d@.id)),
            Frame::Plain,
        ),
{
    let mut lines = line::no_lines();
    line::add_row(&mut lines, "Remove from whitelist?", Role::Warn);
    line::add_blank(&mut lines);
    line::add_row(&mut lines, killbillctl::show_id(d.id).as_str(), Role::Plain);
    assert(text::views(lines@) =~= remove_rows(killbillctl::id_text(d@.id)));
    pane::modal_box(area, " Confirm ", 44, lines, Frame::Plain)
}

/// The rows that ask whether an entry is to be removed.
pub open spec fn remove_entry_rows(id: Seq<char>) -> Seq<LineView> {
    remove_rows(id) + seq![
        line::blank_row(),
        line::row_of("this device becomes unknown while armed"@, Role::Dim),
    ]
}

/// Asks whether an entry is to be removed from the whitelist.
pub fn whitelist_remove_entry_modal(area: Rect, id: UsbId) -> (r: Overlay)
    requires
        area.wf(),
    ensures
        r@ == pane::box_of(area, " Confirm "@, 48, remove_entry_rows(id.text()), Frame::Plain),
{
    let mut lines = line::no_lines();
    line::add_row(&mut lines, "Remove from whitelist?", Role::Warn);
    line::add_blank(&mut lines);
    line::add_row(&mut lines, id.to_text().as_str(), Role::Plain);
    line::add_blank(&mut lines);
    line::add_row(&mut lines, "this device becomes unknown while armed", Role::Dim);
    assert(text::views(lines@) =~= remove_entry_rows(id.text()));
    pane::modal_box(area, " Confirm ", 48, lines, Frame::Plain)
}

/// The title of a confirmation, and how its question is shown.
pub open spec fn confirm_style(action: ConfirmAction) -> (Seq<char>, Role) {
    match action {
        ConfirmAction::Arm => (" Arm "@, Role::Armed),
        ConfirmAction::Disarm => (" Disarm "@, Role::Warn),
        ConfirmAction::Reload => (" Reload "@, Role::Disarmed),
    }
}

/// The confirmation of a menu action.
pub open spec fn confirm_box(area: Rect, action: ConfirmAction) -> OverlayView {
    OverlayView {
        area: pane::centered_in(area, 58, 8),
        title: confirm_style(action).0,
        lines: seq![
            line::row_of(action.question(), confirm_style(action).1),
            line::blank_row(),
            line::row_of("enter confirm · esc cancel"@, Role::Dim),
        ],
        frame: Frame::Centered,
    }
}

/// The confirmation of a menu action.
pub fn confirm_modal(area: Rect, action: ConfirmAction) -> (r: Overlay)
    requires
        area.wf(),
    ensures
        r@ == confirm_box(area, action),
{
    let (title, role) = match action {
        ConfirmAction::Arm => (" Arm ", Role::Armed),
        ConfirmAction::Disarm => (" Disarm ", Role::Warn),
        ConfirmAction::Reload => (" Reload ", Role::Disarmed),
    };
    let mut lines = line::no_lines();
    line::add_row(&mut lines, action.prompt(), role);
    line::add_blank(&mut lines);
    line::add_row(&mut lines, "enter confirm · esc cancel", Role::Dim);
    assert(text::views(lines@) =~= confirm_box(area, action).lines);
    Overlay {
        area: pane::centered(area, 58, 8),
        title: title.to_owned(),
        lines,
        frame: Frame::Centered,
    }
}

/// What a Settings row would lower.
pub open spec fn lowering(row: usize) -> Seq<char> {
    if row == 0 {
        "Enable dry-run while ARMED? A kill would then only be logged, not carried out."@
    } else if row == 1 {
        "Change the power action while ARMED? A kill may no longer cut power."@
    } else if row == 3 {
        "Set on-sensor-gap to 'warn' while ARMED? A sensor blackout would no longer fire a kill."@
    } else {
        "Apply this change while ARMED?"@
    }
}

/// The confirmation of a Settings change that lowers protection.
pub open spec fn confirm_config_set_box(area: Rect, row: usize) -> OverlayView {
    OverlayView {
        area: pane::centered_in(area, 60, 9),
        title: " Confirm "@,
        lines: seq![
            line::row_of("Lower protection while ARMED?"@, Role::Warn),
            line::blank_row(),
            line::row_of(lowering(row), Role::Plain),
            line::blank_row(),
            line::row_of("enter confirm · esc cancel"@, Role::Dim),
        ],
        frame: Frame::Centered,
    }
}

/// The confirmation of a Settings change that lowers protection.
pub fn confirm_config_set_modal(area: Rect, row: usize) -> (r: Overlay)
    requires
        area.wf(),
    ensures
        r@ == confirm_config_set_box(area, row),
{
    let what = if row == 0 {
        "Enable dry-run while ARMED? A kill would then only be logged, not carried out."
    } else if row == 1 {
        "Change the power action while ARMED? A kill may no longer cut power."
    } else if row == 3 {
        "Set on-sensor-gap to 'warn' while ARMED? A sensor blackout would no longer fire a kill."
    } else {
        "Apply this change while ARMED?"
    };
    let mut lines = line::no_lines();
    line::add_row(&mut lines, "Lower protection while ARMED?", Role::Warn);
    line::add_blank(&mut lines);
    line::add_row(&mut lines, what, Role::Plain);
    line::add_blank(&mut lines);
    line::add_row(&mut lines, "enter confirm · esc cancel", Role::Dim);
    assert(text::views(lines@) =~= confirm_config_set_box(area, row).lines);
    Overlay {
        area: pane::centered(area, 60, 9),
        title: " Confirm ".to_owned(),
        lines,
        frame: Frame::Centered,
    }
}

// --- reports ---

/// The rows of a rejected change: the daemon's full validation report.
pub open spec fn report_rows(report: Seq<char>) -> Seq<LineView> {
    (seq![
        line::row_of("Change rejected — config unchanged"@, Role::Invalid),
        line::blank_row(),
    ] + line::rows_of(text::lines_of(report), Role::Plain)).push(line::blank_row()).push(
        line::row_of("enter / esc dismiss"@, Role::Dim),
    )
}

/// The smaller of a size and a limit.
pub open spec fn at_most(a: nat, b: nat) -> nat {
    if a < b {
        a
    } else {
        b
    }
}

/// The box of a rejected change: as wide as the terminal allows, up to a limit, and as high
/// as the report, less a margin.
pub open spec fn report_box(area: Rect, report: Seq<char>) -> OverlayView {
    let lines = report_rows(report);
    let w = if area.width < 8 {
        0
    } else {
        at_most((area.width - 8) as nat, 84)
    };
    let h = if area.height < 2 {
        0
    } else {
        at_most(lines.len() + 2, (area.height - 2) as nat)
    };
    OverlayView {
        area: pane::centered_in(area, w, h),
        title: " Rejected "@,
        lines,
        frame: Frame::Report,
    }
}

/// The report of a rejected change.
pub fn report_modal(area: Rect, report: &str) -> (r: Overlay)
    requires
        area.wf(),
    ensures
        r@ == report_box(area, report@),
{
    let mut lines = line::no_lines();
    line::add_row(&mut lines, "Change rejected — config unchanged", Role::Invalid);
    line::add_blank(&mut lines);
    assert(text::views(lines@) =~= seq![
        line::row_of("Change rejected — config unchanged"@, Role::Invalid),
        line::blank_row(),
    ]);
    line::add_rows(&mut lines, &text::lines(report), Role::Plain);
    line::add_blank(&mut lines);
    line::add_row(&mut lines, "enter / esc dismiss", Role::Dim);
    assert(text::views(lines@).len() == lines@.len());
    let room: usize = if area.width < 8 {
        0
    } else {
        (area.width - 8) as usize
    };
    let w: usize = if room < 84 {
        room
    } else {
        84
    };
    let top: usize = if area.height < 2 {
        0
    } else {
        (area.height - 2) as usize
    };
    let h: usize = if lines.len() < top && lines.len() + 2 < top {
        lines.len() + 2
    } else {
        top
    };
    Overlay {
        area: pane::centered(area, w, h),
        title: " Rejected ".to_owned(),
        lines,
        frame: Frame::Report,
    }
}

/// The rows of the box that says the daemon is unreachable.
pub open spec fn unreachable_rows(why: Option<Seq<char>>) -> Seq<LineView> {
    let head = seq![
        line::row_of("  ⚠  daemon unreachable  "@, Role::Invalid),
        line::blank_row(),
    ];
    (match why {
        Some(w) => head.push(line::row_of(w, Role::Plain)).push(line::blank_row()),
        None => head,
    }).push(line::row_of("retrying every 2s — r to retry now, q to quit"@, Role::Dim))
}

/// The box that says the daemon is unreachable.
pub fn unreachable_box<C: Client>(app: &App<C>, area: Rect) -> (r: Overlay)
    requires
        area.wf(),
    ensures
        r@ == pane::box_of(
            area,
            Seq::empty(),
            56,
            unreachable_rows(app@.conn_error),
            Frame::Centered,
        ),
{
    let mut lines = line::no_lines();
    line::add_row(&mut lines, "  ⚠  daemon unreachable  ", Role::Invalid);
    line::add_blank(&mut lines);
    if let Some(why) = &app.conn_error {
        line::add_row(&mut lines, why.as_str(), Role::Plain);
        line::add_blank(&mut lines);
    }
    line::add_row(&mut lines, "retrying every 2s — r to retry now, q to quit", Role::Dim);
    proof {
        assert(text::views(lines@) =~= unreachable_rows(app@.conn_error));
        reveal_strlit("");
        assert(""@ =~= Seq::<char>::empty());
    }
    pane::modal_box(area, "", 56, lines, Frame::Centered)
}

/// The box of a toast: at the lower right.
pub open spec fn toast_box(area: Rect, msg: Seq<char>) -> OverlayView {
    let width = pane::least(msg.len() + 4, area.width);
    OverlayView {
        area: Rect {
            x: (area.x + (area.width - width)) as u16,
            y: (area.y + (if area.height < 4 {
                0
            } else {
                area.height - 4
            })) as u16,
            width,
            height: 3,
        },
        title: Seq::empty(),
        lines: seq![line::row_of(msg, Role::Selected)],
        frame: Frame::Toast,
    }
}

/// The box of a toast.
pub fn toast(area: Rect, msg: &str) -> (r: Overlay)
    requires
        area.wf(),
    ensures
        r@ == toast_box(area, msg@),
{
    let len: usize = msg.unicode_len();
    let width: u16 = if len < area.width as usize && len + 4 < area.width as usize {
        (len + 4) as u16
    } else {
        area.width
    };
    let down: u16 = if area.height < 4 {
        0
    } else {
        area.height - 4
    };
    let mut lines = line::no_lines();
    line::add_row(&mut lines, msg, Role::Selected);
    proof {
        assert(text::views(lines@) =~= toast_box(area, msg@).lines);
    }
    Overlay {
        area: Rect { x: area.x + (area.width - width), y: area.y + down, width, height: 3 },
        title: String::new(),
        lines,
        frame: Frame::Toast,
    }
}

/// While the daemon is unreachable the menu never says as a fact that destruction is engaged.
pub proof fn a_stale_menu_claims_nothing(app: AppView)
    requires
        app.conn == Conn::Down,
        app.engaged(),
    ensures
        suffix(app, MenuItem::LuksDestroy) == "   (engaged? — daemon unreachable)"@,
{
}

} // verus!
