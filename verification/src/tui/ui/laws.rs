//! What the screens say, in terms of what the app holds.

use crate::proto::action::{KillReason, PowerAction};
use crate::proto::protocol;
use crate::proto::protocol::{
    ConfigPayloadView, DeviceInfoView, EventView, OnSensorGap, StatusView, StreamEventView,
};
use crate::text;
use crate::tui::state;
use crate::tui::state::{AppView, Conn, MenuItem, Modal, Screen};
use crate::tui::ui;
use crate::tui::ui::config;
use crate::tui::ui::destroy;
use crate::tui::ui::devices;
use crate::tui::ui::dryrun;
use crate::tui::ui::eventlog;
use crate::tui::ui::line;
use crate::tui::ui::line::{LineView, Rect, Role};
use crate::tui::ui::modals;
use crate::tui::ui::pane;
use crate::tui::ui::pane::BodyView;
use crate::tui::ui::settings;
use crate::tui::ui::statusbar;
use crate::tui::ui::whitelist;
use vstd::prelude::*;

verus! {

/// Whether a row has a piece of this text.
pub open spec fn has(row: LineView, s: Seq<char>) -> bool {
    exists|i: int| 0 <= i < row.len() && (#[trigger] row[i]).text == s
}

/// A device's row is marked `NEW`, as a warning, exactly where the device is not whitelisted, and
/// `ok ` where it is; it shows the id, the label and the serial, made safe.
pub proof fn a_device_row_says_what_the_device_is(d: DeviceInfoView)
    ensures
        ({
            let row = devices::device_row(d);
            &&& row.len() == 8
            &&& !d.whitelisted ==> row[1].text == "NEW"@ && row[1].role == Role::Warn
            &&& d.whitelisted ==> row[1].text == "ok "@ && row[1].role == Role::Dim
            &&& d.id matches Some(id) ==> row[3].text == id.text()
            &&& d.id is None ==> row[3].text == "????:????"@
            &&& d.label matches Some(l) ==> row[5].text == protocol::sanitized(l)
            &&& d.serial matches Some(n) ==> row[7].text == protocol::sanitized(n)
            &&& d.label is None ==> row[5].text.len() == 0
            &&& d.serial is None ==> row[7].text.len() == 0
        }),
{
    reveal_strlit("");
}

/// The devices are shown in order, one row each, with the cursor's row selected while nothing is
/// open above them; the whitelist in order below the row for adding, each entry marked by whether a
/// device with its id is connected, with its count, one if it has none.
pub proof fn lists_are_shown_in_order(app: AppView, i: int)
    requires
        app.wf(),
    ensures
        app.devices.len() > 0 ==> (devices::screen(app).body matches BodyView::List {
            items,
            selected,
        } && {
            &&& items.len() == app.devices.len()
            &&& 0 <= i < items.len() ==> items[i] == devices::device_row(app.devices[i])
            &&& app.modal is None && app.screen == Screen::Devices ==> selected == Some(
                app.device_cursor,
            )
            &&& app.modal is Some ==> selected is None
        }),
        whitelist::screen(app).body matches BodyView::List { items, selected } && {
            &&& items.len() == app.whitelist.len() + 1
            &&& app.modal is None ==> selected == Some(app.whitelist_cursor)
            &&& 0 <= i < app.whitelist.len() ==> {
                let e = app.whitelist[i];
                let row = items[i + 1];
                &&& row.len() == 8
                &&& (exists|k: int|
                    0 <= k < app.devices.len() && (#[trigger] app.devices[k]).id == Some(e.id))
                    ==> row[1].text == "connected"@
                &&& !(exists|k: int|
                    0 <= k < app.devices.len() && (#[trigger] app.devices[k]).id == Some(e.id))
                    ==> row[1].text == "absent   "@
                &&& row[3].text == e.id.text()
                &&& e.max_count matches Some(n) ==> row[5].text == "max "@ + text::decimal(n as nat)
                &&& e.max_count is None ==> row[5].text == "max "@ + text::decimal(1)
                &&& e.label matches Some(l) ==> row[7].text == protocol::sanitized(l)
            }
        },
{
}

/// What the band says of a daemon that answers: whether it is armed, or that its config keeps it
/// from arming; and, each exactly where it holds, that it only runs dry, that it will not cut the
/// power, whether its sensor watches, that events were lost, that its config is stale, and that
/// destruction is engaged; and how many rules and devices there are.
pub proof fn the_band_says_what_the_daemon_is(app: AppView, s: StatusView)
    requires
        app.conn == Conn::Up,
        app.status == Some(s),
    ensures
        ({
            let band = statusbar::band(app);
            &&& s.config_error is Some ==> band[0].text == " ▲ CONFIG INVALID — WILL NOT ARM "@
                && band[0].role == Role::Invalid
            &&& s.config_error is None && s.armed ==> band[0].text == " ● ARMED "@ && band[0].role
                == Role::Armed
            &&& s.config_error is None && !s.armed ==> band[0].text == " ○ DISARMED "@
                && band[0].role == Role::Disarmed
            &&& s.dry_run ==> has(band, " DRY-RUN "@)
            &&& s.power_action == PowerAction::NoAction ==> has(
                band,
                " POWER: NONE — WILL NOT CUT POWER "@,
            )
            &&& s.power_action == PowerAction::Halt ==> has(
                band,
                " POWER: HALT — WILL NOT CUT POWER "@,
            )
            &&& s.sensor_ok ==> has(band, "sensor ok"@)
            &&& !s.sensor_ok ==> has(band, "SENSOR STOPPED"@)
            &&& s.events_lost ==> has(band, "EVENTS LOST"@)
            &&& s.config_stale ==> has(band, "CONFIG STALE"@)
            &&& (app.config matches Some(c) && c.luks_destroy matches Some(l) && l.engaged) ==> has(
                band,
                "LUKS DESTROY ENGAGED"@,
            )
            &&& band.last().text == "whitelist "@ + text::decimal(s.whitelist_len as nat)
                + " · devices "@ + text::decimal(s.device_count as nat)
            &&& band.len() == 5 + 2 * (one(s.dry_run) + one(s.power_action
                != PowerAction::PowerOff) + one(s.events_lost) + one(s.config_stale) + one(
                app.config matches Some(c) && c.luks_destroy matches Some(l) && l.engaged,
            ))
        }),
{
    let g0 = line::tag(s.dry_run, "  "@, " DRY-RUN "@, Role::Disarmed);
    let g1 = line::tag(s.power_action == PowerAction::NoAction, "  "@, " POWER: NONE — WILL NOT CUT POWER "@, Role::Warn);
    let g2 = line::tag(s.power_action == PowerAction::Halt, "  "@, " POWER: HALT — WILL NOT CUT POWER "@, Role::Warn);
    let g3 = line::tag(s.sensor_ok, "   "@, "sensor ok"@, Role::Dim);
    let g4 = line::tag(!s.sensor_ok, "   "@, "SENSOR STOPPED"@, Role::Warn);
    let g5 = line::tag(s.events_lost, "   "@, "EVENTS LOST"@, Role::Warn);
    let g6 = line::tag(s.config_stale, "   "@, "CONFIG STALE"@, Role::Warn);
    let g7 = line::tag(app.engaged(), "   "@, "LUKS DESTROY ENGAGED"@, Role::Invalid);
    let counts = line::after_gap(
        "   "@,
        "whitelist "@ + text::decimal(s.whitelist_len as nat) + " · devices "@ + text::decimal(
            s.device_count as nat,
        ),
        Role::Dim,
    );
    let d0 = g0;
    let d1 = d0 + g1;
    let d2 = d1 + g2;
    let d3 = d2 + g3;
    let d4 = d3 + g4;
    let d5 = d4 + g5;
    let d6 = d5 + g6;
    let d7 = d6 + g7;
    let all = d7 + counts;
    assert(all == statusbar::details(s, app.engaged()));
    let head = line::row_of(
        statusbar::headline(app.conn, app.status).0,
        statusbar::headline(app.conn, app.status).1,
    );
    let band = statusbar::band(app);
    assert(band =~= head + all);
    assert(band[0] == head[0]);
    assert(band.last() == counts[1]);
    if s.dry_run {
        assert(g0[1].text == " DRY-RUN "@);
        what_is_had_stays(d0, g1, " DRY-RUN "@);
        what_is_had_stays(d1, g2, " DRY-RUN "@);
        what_is_had_stays(d2, g3, " DRY-RUN "@);
        what_is_had_stays(d3, g4, " DRY-RUN "@);
        what_is_had_stays(d4, g5, " DRY-RUN "@);
        what_is_had_stays(d5, g6, " DRY-RUN "@);
        what_is_had_stays(d6, g7, " DRY-RUN "@);
        what_is_had_stays(d7, counts, " DRY-RUN "@);
        what_is_had_stays(head, all, " DRY-RUN "@);
    }
    if s.power_action == PowerAction::NoAction {
        a_tag_is_had(d0, g1, " POWER: NONE — WILL NOT CUT POWER "@);
        what_is_had_stays(d1, g2, " POWER: NONE — WILL NOT CUT POWER "@);
        what_is_had_stays(d2, g3, " POWER: NONE — WILL NOT CUT POWER "@);
        what_is_had_stays(d3, g4, " POWER: NONE — WILL NOT CUT POWER "@);
        what_is_had_stays(d4, g5, " POWER: NONE — WILL NOT CUT POWER "@);
        what_is_had_stays(d5, g6, " POWER: NONE — WILL NOT CUT POWER "@);
        what_is_had_stays(d6, g7, " POWER: NONE — WILL NOT CUT POWER "@);
        what_is_had_stays(d7, counts, " POWER: NONE — WILL NOT CUT POWER "@);
        what_is_had_stays(head, all, " POWER: NONE — WILL NOT CUT POWER "@);
    }
    if s.power_action == PowerAction::Halt {
        a_tag_is_had(d1, g2, " POWER: HALT — WILL NOT CUT POWER "@);
        what_is_had_stays(d2, g3, " POWER: HALT — WILL NOT CUT POWER "@);
        what_is_had_stays(d3, g4, " POWER: HALT — WILL NOT CUT POWER "@);
        what_is_had_stays(d4, g5, " POWER: HALT — WILL NOT CUT POWER "@);
        what_is_had_stays(d5, g6, " POWER: HALT — WILL NOT CUT POWER "@);
        what_is_had_stays(d6, g7, " POWER: HALT — WILL NOT CUT POWER "@);
        what_is_had_stays(d7, counts, " POWER: HALT — WILL NOT CUT POWER "@);
        what_is_had_stays(head, all, " POWER: HALT — WILL NOT CUT POWER "@);
    }
    if s.sensor_ok {
        a_tag_is_had(d2, g3, "sensor ok"@);
        what_is_had_stays(d3, g4, "sensor ok"@);
        what_is_had_stays(d4, g5, "sensor ok"@);
        what_is_had_stays(d5, g6, "sensor ok"@);
        what_is_had_stays(d6, g7, "sensor ok"@);
        what_is_had_stays(d7, counts, "sensor ok"@);
        what_is_had_stays(head, all, "sensor ok"@);
    }
    if !s.sensor_ok {
        a_tag_is_had(d3, g4, "SENSOR STOPPED"@);
        what_is_had_stays(d4, g5, "SENSOR STOPPED"@);
        what_is_had_stays(d5, g6, "SENSOR STOPPED"@);
        what_is_had_stays(d6, g7, "SENSOR STOPPED"@);
        what_is_had_stays(d7, counts, "SENSOR STOPPED"@);
        what_is_had_stays(head, all, "SENSOR STOPPED"@);
    }
    if s.events_lost {
        a_tag_is_had(d4, g5, "EVENTS LOST"@);
        what_is_had_stays(d5, g6, "EVENTS LOST"@);
        what_is_had_stays(d6, g7, "EVENTS LOST"@);
        what_is_had_stays(d7, counts, "EVENTS LOST"@);
        what_is_had_stays(head, all, "EVENTS LOST"@);
    }
    if s.config_stale {
        a_tag_is_had(d5, g6, "CONFIG STALE"@);
        what_is_had_stays(d6, g7, "CONFIG STALE"@);
        what_is_had_stays(d7, counts, "CONFIG STALE"@);
        what_is_had_stays(head, all, "CONFIG STALE"@);
    }
    if app.engaged() {
        a_tag_is_had(d6, g7, "LUKS DESTROY ENGAGED"@);
        what_is_had_stays(d7, counts, "LUKS DESTROY ENGAGED"@);
        what_is_had_stays(head, all, "LUKS DESTROY ENGAGED"@);
    }
}

proof fn a_tag_is_had(a: LineView, tag: LineView, s: Seq<char>)
    requires
        tag.len() == 2,
        tag[1].text == s,
    ensures
        has(a + tag, s),
{
    assert((a + tag)[a.len() as int + 1].text == s);
}

proof fn what_is_had_stays(a: LineView, b: LineView, s: Seq<char>)
    ensures
        has(a, s) || has(b, s) ==> has(a + b, s),
{
    if has(a, s) {
        let i = choose|i: int| 0 <= i < a.len() && (#[trigger] a[i]).text == s;
        assert((a + b)[i].text == s);
    }
    if has(b, s) {
        let i = choose|i: int| 0 <= i < b.len() && (#[trigger] b[i]).text == s;
        assert((a + b)[a.len() + i].text == s);
    }
}

/// One for what holds, and nothing for what does not.
pub open spec fn one(b: bool) -> int {
    if b {
        1
    } else {
        0
    }
}

/// What the settings show is what runs, each on its row, with the cursor's row marked while nothing
/// is open above them.
pub proof fn settings_are_shown_as_they_are(app: AppView, cfg: ConfigPayloadView)
    requires
        cfg.validation_error is None,
    ensures
        ({
            let rows = settings::rows(app, cfg);
            let mark = |r: usize|
                if app.modal is None && app.settings_cursor == r {
                    " ▸ "@
                } else {
                    "   "@
                };
            let word = |b: bool|
                if b {
                    "on"@
                } else {
                    "off"@
                };
            &&& rows.len() == 10
            &&& rows[0][0].text == mark(0) + text::padded("dry run"@, 16) + word(cfg.dry_run)
            &&& rows[1][0].text == mark(1) + text::padded("power action"@, 16) + (
            match cfg.power_action {
                PowerAction::PowerOff => "poweroff"@,
                PowerAction::Halt => "halt"@,
                PowerAction::NoAction => "none"@,
            })
            &&& rows[2][0].text == mark(2) + text::padded("armed at boot"@, 16) + word(
                cfg.armed_at_boot,
            )
            &&& rows[3][0].text == mark(3) + text::padded("on sensor gap"@, 16) + (
            match cfg.on_sensor_gap {
                OnSensorGap::Warn => "warn"@,
                OnSensorGap::Kill => "kill"@,
            })
            &&& cfg.luks_destroy is None ==> rows[6][0].text == "   "@ + text::padded(
                "luks destroy"@,
                16,
            ) + "not configured"@
            &&& cfg.luks_destroy matches Some(l) ==> rows[6][0].text == "   "@ + text::padded(
                "luks destroy"@,
                16,
            ) + protocol::sanitized(l.target_header) + "  (engaged: "@ + (if l.engaged {
                "yes"@
            } else {
                "no"@
            }) + ")"@
        }),
{
}

/// A config that is broken on disk is said to be so, above the settings and above the config.
pub proof fn a_broken_file_is_shown(app: AppView, cfg: ConfigPayloadView)
    requires
        cfg.validation_error is Some,
    ensures
        settings::rows(app, cfg)[0][0].text == " CONFIG ON DISK IS INVALID — running last-good "@,
        config::rows(cfg)[0][0].text == " ▲ CONFIG ON DISK IS INVALID — running last-good "@,
{
}

/// What the config screen shows is what runs; a power action that does not cut the power is flagged.
pub proof fn the_config_is_shown_as_it_is(cfg: ConfigPayloadView)
    requires
        cfg.validation_error is None,
    ensures
        ({
            let rows = config::rows(cfg);
            let word = |b: bool|
                if b {
                    "yes"@
                } else {
                    "no"@
                };
            &&& rows[0][1].text == word(cfg.armed_at_boot)
            &&& rows[1][1].text == word(cfg.dry_run)
            &&& cfg.power_action == PowerAction::PowerOff ==> rows[2][1].text == "poweroff"@
                && rows[2][1].role == Role::Plain
            &&& cfg.power_action == PowerAction::Halt ==> rows[2][1].text == "halt"@
                + "  (does not cut power)"@ && rows[2][1].role == Role::Warn
            &&& cfg.power_action == PowerAction::NoAction ==> rows[2][1].text == "none"@
                + "  (does not cut power)"@ && rows[2][1].role == Role::Warn
            &&& cfg.on_sensor_gap == OnSensorGap::Kill ==> rows[3][1].text == "kill"@
            &&& cfg.on_sensor_gap == OnSensorGap::Warn ==> rows[3][1].text == "warn"@
            &&& cfg.luks_destroy is None ==> rows[5][1].text == "not configured"@
            &&& cfg.luks_destroy matches Some(l) ==> {
                &&& rows[5][1].text == protocol::sanitized(l.target_header)
                &&& rows[6][1].text == word(l.acknowledged)
                &&& l.engaged ==> rows[7][1].role == Role::Invalid
                &&& !l.engaged ==> rows[7][1].text == "no"@ && rows[7][1].role == Role::Plain
            }
        }),
{
}

/// What a dry run shows: nothing to fear exactly where there is no reason; else how many there are,
/// and each, in order.
pub proof fn a_dry_run_is_shown_as_it_is(reasons: Seq<KillReason>, i: int)
    ensures
        ({
            let rows = dryrun::rows(Some(reasons));
            &&& reasons.len() == 0 <==> rows[0][0].text
                == "Nothing currently connected would trigger a kill."@ && rows[0][0].role
                == Role::Disarmed
            &&& reasons.len() > 0 ==> rows[0][0].text == text::decimal(reasons.len())
                + " device(s) would trigger a kill:"@ && rows[0][0].role == Role::Warn
            &&& 0 <= i < reasons.len() ==> rows[i + 2][0].text == "  - "@ + reasons[i].text()
        }),
{
}

/// A line of the event log has the daemon's time stamp and tells the events apart.
pub proof fn a_log_line_says_what_happened(e: StreamEventView)
    ensures
        ({
            let row = eventlog::event_row(e);
            &&& row.len() == 3
            &&& row[0].text == e.at + "  "@
            &&& e.event matches EventView::DeviceAdded(d) ==> row[2].text == "device "@ + (
            match d.id {
                Some(id) => id.text(),
                None => "????:????"@,
            }) + " connected"@
            &&& e.event matches EventView::DeviceRemoved(d) ==> row[2].text == "device "@ + (
            match d.id {
                Some(id) => id.text(),
                None => "????:????"@,
            }) + " disconnected"@
            &&& e.event is Armed ==> row[2].text == "armed"@
            &&& e.event is Disarmed ==> row[2].text == "disarmed"@
            &&& e.event matches EventView::WouldKill(r) ==> row[2].text == "would kill: "@
                + r.text() && row[2].role == Role::Warn
            &&& e.event matches EventView::ReloadFailed(why) ==> row[2].text == "reload failed: "@
                + why && row[2].role == Role::Warn
            &&& e.event is EventsLost ==> row[2].text
                == "USB events lost — some device changes were missed"@ && row[2].role == Role::Warn
            &&& e.event is SensorStopped ==> row[2].text == "USB sensor stopped"@ && row[2].role
                == Role::Warn
            &&& e.event is WhitelistChanged ==> row[2].text == "whitelist changed"@
            &&& e.event is ConfigChanged ==> row[2].text == "config changed"@
        }),
{
}

/// The log's window ends as many lines before the newest as it is scrolled back, and goes back from
/// there as far as the pane has room; so it follows the newest line where it is not scrolled.
pub proof fn the_window_ends_where_it_is_scrolled_to(app: AppView, height: u16, i: int)
    requires
        app.wf(),
        app.events.len() > 0,
        height > 2,
    ensures
        ({
            let w = eventlog::window(app.events, app.event_scroll, height);
            let end = app.events.len() - app.event_scroll;
            &&& w.len() == (if end < height - 2 {
                end
            } else {
                height - 2
            })
            &&& 0 <= i < w.len() ==> w[i] == eventlog::event_row(app.events[end - w.len() + i])
            &&& app.event_scroll == 0 ==> w.last() == eventlog::event_row(app.events.last())
        }),
{
}

/// The menu has its items in order, each on a row with its own words, the cursor's marked; arming is
/// greyed where the config is invalid, and destruction where it is not configured.
pub proof fn a_menu_row_says_its_item(app: AppView, item: MenuItem, selected: bool)
    ensures
        ({
            let row = modals::item_row(app, item, selected);
            &&& row.len() == 1
            &&& text::shows(row[0].text, item.words())
            &&& (item == MenuItem::Arm && app.status is Some && app.status->0.config_error is Some)
                ==> row[0].role == Role::Dim && text::shows(row[0].text, "   (config invalid)"@)
            &&& (item == MenuItem::LuksDestroy && app.config is Some
                && app.config->0.luks_destroy is None) ==> row[0].role == Role::Dim && text::shows(
                row[0].text,
                "   (not configured)"@,
            )
            &&& (item != MenuItem::Arm && item != MenuItem::LuksDestroy) ==> row[0].role == (
            if selected {
                Role::Selected
            } else {
                Role::Plain
            })
        }),
{
    let mark = modals::marker_of(selected);
    let tail = modals::suffix(app, item);
    text::what_is_added_shows(mark, item.words(), Seq::empty());
    text::what_shows_stays(mark + item.words(), item.words(), tail);
    text::what_is_added_shows(mark + item.words(), tail, Seq::empty());
}

/// What can be done with a device is what its row says: a stranger can be added, a listed device
/// removed, and both can be left alone.
pub proof fn a_devices_options_fit_it(d: DeviceInfoView, cursor: usize)
    ensures
        ({
            let rows = modals::device_action_rows(d, cursor);
            &&& rows.len() == 4
            &&& d.whitelisted ==> text::shows(rows[2][0].text, "Remove from whitelist"@)
                && text::shows(rows[0][0].text, "  ["@ + "whitelisted"@)
            &&& !d.whitelisted ==> text::shows(rows[2][0].text, "Add to whitelist…"@)
                && text::shows(rows[0][0].text, "  ["@ + "NEW — not whitelisted"@)
            &&& text::shows(rows[3][0].text, "Cancel"@)
            &&& d.id matches Some(id) ==> text::shows_at(rows[0][0].text, id.text(), 0)
        }),
{
    let rows = modals::device_action_rows(d, cursor);
    let words = state::device_action_words(d.whitelisted);
    text::what_is_added_shows(modals::marker_of(0 == cursor), words[0], Seq::empty());
    text::what_is_added_shows(modals::marker_of(1 == cursor), words[1], Seq::empty());
    let id = crate::killbillctl::id_text(d.id);
    let label = crate::killbillctl::safe_text(d.label);
    let what = if d.whitelisted {
        "whitelisted"@
    } else {
        "NEW — not whitelisted"@
    };
    let front = id + "  "@ + label;
    assert(rows[0][0].text == front + "  ["@ + what + "]"@);
    text::what_is_added_shows(front, "  ["@, what);
    text::what_shows_stays(front + "  ["@ + what, "  ["@ + what, "]"@);
    assert(rows[0][0].text.subrange(0, id.len() as int) =~= id);
}

/// What is asked before a command is sent is about that command.
pub proof fn a_question_is_about_its_command(action: state::ConfirmAction)
    ensures
        action.command() is Arm <==> action.question() == "Arm protection now?"@,
        action.command() is Disarm <==> action.question()
            == "Disarm protection? This lowers protection until you re-arm."@,
        action.command() is ReloadConfig <==> action.question()
            == "Reload the config from disk?"@,
{
    reveal_strlit("Arm protection now?");
    reveal_strlit("Disarm protection? This lowers protection until you re-arm.");
    reveal_strlit("Reload the config from disk?");
    assert("Arm protection now?"@.len() == 19);
    assert("Disarm protection? This lowers protection until you re-arm."@.len() == 59);
    assert("Reload the config from disk?"@.len() == 28);
}

/// The destruction screen names its target, and says of the engaged state what is known: that it is
/// engaged, that it is not, or, with the daemon out of reach, neither.
pub proof fn the_destruction_screen_says_what_is_known(conn: Conn, engaged: bool, target: Seq<char>)
    ensures
        destroy::target_row(target)[1].text == protocol::sanitized(target),
        ({
            let (words, role) = destroy::state_words(conn, engaged);
            &&& conn == Conn::Down ==> text::shows_at(words, "??  ENGAGED STATE UNKNOWN"@, 0)
            &&& conn != Conn::Down && engaged ==> text::shows_at(words, "▓▓  ENGAGED"@, 0) && role
                == Role::Invalid
            &&& conn != Conn::Down && !engaged ==> text::shows_at(words, "░░  not engaged"@, 0)
                && role == Role::Disarmed
        }),
{
    reveal_strlit("??  ENGAGED STATE UNKNOWN");
    reveal_strlit("▓▓  ENGAGED");
    reveal_strlit("░░  not engaged");
    reveal_strlit("??  ENGAGED STATE UNKNOWN — daemon unreachable");
    reveal_strlit("▓▓  ENGAGED — a kill while armed would, in a future release, wipe this header");
    reveal_strlit("░░  not engaged — a kill will not touch the header");
    assert("??  ENGAGED STATE UNKNOWN — daemon unreachable"@.subrange(0, 25)
        =~= "??  ENGAGED STATE UNKNOWN"@);
    assert("▓▓  ENGAGED — a kill while armed would, in a future release, wipe this header"@.subrange(
        0,
        11,
    ) =~= "▓▓  ENGAGED"@);
    assert("░░  not engaged — a kill will not touch the header"@.subrange(0, 15)
        =~= "░░  not engaged"@);
}

/// The frame shows the screen that is active, with the armed state above it, on every screen and
/// whatever is open.
pub proof fn the_active_screen_is_shown(app: AppView, area: Rect)
    requires
        area.width >= 60,
        area.height >= 18,
    ensures
        ui::scene(app, area) matches ui::SceneView::Full { status, pane, .. } && {
            &&& status == statusbar::band(app)
            &&& app.screen == Screen::Devices ==> pane == devices::screen(app)
            &&& app.screen == Screen::Whitelist ==> pane == whitelist::screen(app)
            &&& app.screen == Screen::Settings ==> pane == settings::screen(app)
            &&& app.screen == Screen::DryRun ==> pane == dryrun::screen(app)
            &&& app.screen == Screen::Config ==> pane == config::screen(app)
            &&& app.screen == Screen::Destroy ==> pane == destroy::screen(app)
        },
{
    reveal(ui::pane_of);
}

/// What is open above the screen is about what it will do: the count that is set and the id it is
/// for, the id that is to be removed, the text as it is typed, the question of the action that is to
/// be confirmed, what a setting would lower, and the whole report of a rejected change.
pub proof fn what_is_open_says_what_it_is_about(app: AppView, area: Rect)
    ensures
        app.modal is None ==> ui::modal_of(app, area) is None,
        app.modal matches Some(Modal::WhitelistCount { id, max_count, .. }) ==> (ui::modal_of(
            app,
            area,
        ) matches Some(o) && o.lines[2][0].text == id.text() && o.lines[4][1].text
            == text::decimal(max_count as nat)),
        app.modal matches Some(Modal::WhitelistRemoveEntry { id }) ==> (ui::modal_of(
            app,
            area,
        ) matches Some(o) && o.lines[2][0].text == id.text() && o.lines[0][0].text
            == "Remove from whitelist?"@),
        app.modal == Some(Modal::WhitelistAddId) ==> (ui::modal_of(app, area) matches Some(o)
            && o.lines[2][1].text == app.input + "_"@),
        app.modal matches Some(Modal::Confirm { action }) ==> (ui::modal_of(app, area) matches Some(
            o,
        ) && o.lines[0][0].text == action.question()),
        app.modal matches Some(Modal::ConfirmConfigSet { row }) ==> (ui::modal_of(
            app,
            area,
        ) matches Some(o) && o.lines[2][0].text == modals::lowering(row)),
        app.modal matches Some(Modal::DestroyText { engage }) ==> (ui::modal_of(
            app,
            area,
        ) matches Some(o) && o.lines[0][0].text == (if engage {
            "Engage LUKS header destruction"@
        } else {
            "Disengage LUKS header destruction"@
        })),
        app.modal matches Some(Modal::DestroyConfirm { engage }) ==> (ui::modal_of(
            app,
            area,
        ) matches Some(o) && o.lines[0][0].text == (if engage {
            "ENGAGE LUKS header destruction now?"@
        } else {
            "Disengage LUKS header destruction now?"@
        })),
{
    reveal(ui::modal_of);
}

/// What a setting would lower is said of that setting.
pub proof fn what_is_lowered_is_said(row: usize)
    ensures
        row == 0 ==> modals::lowering(row)
            == "Enable dry-run while ARMED? A kill would then only be logged, not carried out."@,
        row == 1 ==> modals::lowering(row)
            == "Change the power action while ARMED? A kill may no longer cut power."@,
        row == 3 ==> modals::lowering(row)
            == "Set on-sensor-gap to 'warn' while ARMED? A sensor blackout would no longer fire a kill."@,
{
}

/// A rejected change is shown with every line of the daemon's report, in order.
pub proof fn a_report_is_shown_in_full(report: Seq<char>, i: int)
    ensures
        ({
            let rows = modals::report_rows(report);
            &&& rows[0][0].text == "Change rejected — config unchanged"@
            &&& rows.len() == text::lines_of(report).len() + 4
            &&& 0 <= i < text::lines_of(report).len() ==> rows[i + 2][0].text == text::lines_of(
                report,
            )[i]
        }),
{
}

/// A centred box has the same room on either side, but for one cell, and so above and below.
pub proof fn a_box_is_centred(area: Rect, w: nat, h: nat)
    requires
        area.wf(),
    ensures
        ({
            let r = pane::centered_in(area, w, h);
            let left = r.x - area.x;
            let right = area.width - r.width - left;
            let above = r.y - area.y;
            let below = area.height - r.height - above;
            &&& 0 <= left <= right <= left + 1
            &&& 0 <= above <= below <= above + 1
            &&& w <= area.width ==> r.width == w
            &&& h <= area.height ==> r.height == h
        }),
{
    reveal(pane::centered_in);
}

} // verus!
