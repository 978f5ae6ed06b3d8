//! What holds of the terminal UI whatever the daemon answers.

use crate::proto::debug;
use crate::proto::protocol::{CommandView, ConfigChangeView, ReplyView, StreamEventView, WhitelistEntryView};
use crate::tui::client::Answer;
use crate::tui::reduce;
use crate::tui::state;
use crate::tui::state::{
    AppView, ConfirmAction, Conn, Intent, Modal, Screen, Tape, EVENT_LOG_CAP, TOAST_TTL,
};
use vstd::prelude::*;

verus! {

/// Whether a command only asks the daemon for what it holds, or for what it would do.
pub open spec fn only_asks(cmd: CommandView) -> bool {
    cmd.read_only() || cmd is GetConfig || cmd is RunDryRun
}

/// Whether every command of `sent` from place `from` on only asks, or is the one `request`.
pub open spec fn only_asks_or(
    sent: Seq<CommandView>,
    from: nat,
    request: Option<CommandView>,
) -> bool {
    forall|i: int| from <= i < sent.len() ==> only_asks(#[trigger] sent[i]) || Some(
        sent[i],
    ) == request
}

/// Whether nothing that was sent is forgotten, and what is new only asks, or is the one
/// `request`.
pub open spec fn adds_at_most(before: AppView, after: AppView, request: Option<CommandView>) -> bool {
    &&& before.sent.len() <= after.sent.len()
    &&& after.sent.take(before.sent.len() as int) == before.sent
    &&& only_asks_or(after.sent, before.sent.len(), request)
}

/// Whether a reply is of the kind that a query asks for.
pub open spec fn answers(cmd: CommandView, reply: ReplyView) -> bool {
    match cmd {
        CommandView::GetStatus => reply is Status,
        CommandView::ListDevices => reply is Devices,
        CommandView::WhitelistList => reply is Whitelist,
        CommandView::GetConfig => reply is Config,
        CommandView::RunDryRun => reply is DryRun,
        _ => false,
    }
}

/// The last answer of its kind that a query was given.
pub open spec fn last_told(
    sent: Seq<CommandView>,
    heard: Seq<Answer>,
    cmd: CommandView,
) -> Option<ReplyView>
    decreases sent.len(),
{
    if sent.len() == 0 || heard.len() == 0 {
        None
    } else if sent.last() == cmd && heard.last() is Ok && answers(cmd, heard.last()->Ok_0) {
        Some(heard.last()->Ok_0)
    } else {
        last_told(sent.drop_last(), heard.drop_last(), cmd)
    }
}

/// Whether what is shown of the daemon is what the daemon last told, and nothing else.
#[verifier::opaque]
pub open spec fn is_what_was_told(a: AppView) -> bool {
    &&& a.status == match last_told(a.sent, a.heard, CommandView::GetStatus) {
        Some(ReplyView::Status(s)) => Some(s),
        _ => None,
    }
    &&& a.devices == match last_told(a.sent, a.heard, CommandView::ListDevices) {
        Some(ReplyView::Devices(d)) => d,
        _ => Seq::empty(),
    }
    &&& a.whitelist == match last_told(a.sent, a.heard, CommandView::WhitelistList) {
        Some(ReplyView::Whitelist(w)) => w,
        _ => Seq::empty(),
    }
    &&& a.config == match last_told(a.sent, a.heard, CommandView::GetConfig) {
        Some(ReplyView::Config(c)) => Some(c),
        _ => None,
    }
    &&& a.dryrun == match last_told(a.sent, a.heard, CommandView::RunDryRun) {
        Some(ReplyView::DryRun(d)) => Some(d),
        _ => None,
    }
}

/// What one step adds to what was sent, and that it keeps the cache true.
spec fn steps(a: AppView, b: AppView, request: Option<CommandView>) -> bool {
    &&& adds_at_most(a, b, request)
    &&& is_what_was_told(a) ==> is_what_was_told(b)
}

/// The one command by which an intent can change the daemon, if it can.
pub open spec fn request(a: AppView, intent: Intent) -> Option<CommandView> {
    match (intent, a.modal) {
        (Intent::Select, Some(Modal::Confirm { action })) => Some(action.command()),
        (Intent::Select, Some(Modal::WhitelistAddCount { device_index, max_count })) =>
            match reduce::device_id(a, device_index) {
                Some(id) => Some(
                    CommandView::WhitelistAdd(
                        WhitelistEntryView {
                            id,
                            label: a.devices[device_index as int].label,
                            max_count: Some(max_count),
                        },
                    ),
                ),
                None => None,
            },
        (Intent::Select, Some(Modal::ConfirmRemove { device_index })) => match reduce::device_id(
            a,
            device_index,
        ) {
            Some(id) => Some(CommandView::WhitelistRemove(id)),
            None => None,
        },
        (Intent::Select, Some(Modal::WhitelistCount { id, max_count, .. })) => Some(
            CommandView::WhitelistAdd(
                WhitelistEntryView {
                    id,
                    label: reduce::label_of(a.whitelist, id),
                    max_count: Some(max_count),
                },
            ),
        ),
        (Intent::Select, Some(Modal::WhitelistRemoveEntry { id })) => Some(
            CommandView::WhitelistRemove(id),
        ),
        (Intent::Select, Some(Modal::ConfirmConfigSet { row })) => match reduce::setting_change(
            a,
            row,
        ) {
            Some(c) => Some(CommandView::ConfigSet(c)),
            None => None,
        },
        (Intent::Select, None) => if a.screen != Screen::Settings || a.conn == Conn::Down {
            None
        } else {
            match reduce::setting_change(a, a.settings_cursor) {
                Some(c) => if reduce::counts_as_armed(a) && reduce::lowers_protection(c) {
                    None
                } else {
                    Some(CommandView::ConfigSet(c))
                },
                None => None,
            }
        },
        (Intent::Char(c), Some(Modal::DestroyConfirm { engage })) => if (c == 'y' || c == 'Y')
            && a.destroy_target == a.luks_target() {
            Some(CommandView::SetLuksDestroyEngaged(engage))
        } else {
            None
        },
        _ => None,
    }
}

/// What one query adds.
proof fn a_query_adds(a: AppView, b: AppView, cmd: CommandView, request: Option<CommandView>)
    requires
        b.sent == a.sent.push(cmd),
        b.heard.len() == a.heard.len() + 1,
        b.heard.drop_last() == a.heard,
        only_asks(cmd) || Some(cmd) == request,
        is_what_was_told(a) ==> is_what_was_told(b),
    ensures
        steps(a, b, request),
{
    assert(b.sent.take(a.sent.len() as int) =~= a.sent);
}

/// One step after another.
proof fn adding_twice(a: AppView, b: AppView, c: AppView, request: Option<CommandView>)
    requires
        steps(a, b, request),
        steps(b, c, None) || steps(b, c, request),
    ensures
        steps(a, c, request),
{
    assert(c.sent.take(a.sent.len() as int) =~= b.sent.take(a.sent.len() as int));
    assert forall|i: int| a.sent.len() <= i < c.sent.len() implies only_asks(
        #[trigger] c.sent[i],
    ) || Some(c.sent[i]) == request by {
        if i < b.sent.len() {
            assert(c.sent.take(b.sent.len() as int)[i] == b.sent[i]);
        }
    }
}

/// A state with the same commands.
proof fn adding_nothing(a: AppView, b: AppView, request: Option<CommandView>)
    requires
        a.sent == b.sent,
        a.heard == b.heard,
        a.status == b.status,
        a.devices == b.devices,
        a.whitelist == b.whitelist,
        a.config == b.config,
        a.dryrun == b.dryrun,
    ensures
        steps(a, b, request),
{
    reveal(is_what_was_told);
    assert(b.sent.take(a.sent.len() as int) =~= a.sent);
}

/// What asking adds to the record.
proof fn asking_is_taken_down(a: AppView, cmd: CommandView, tape: Tape)
    ensures
        ({
            let b = reduce::asked(a, cmd, tape);
            &&& b.sent.drop_last() == a.sent
            &&& b.heard.drop_last() == a.heard
            &&& b.sent.last() == cmd
            &&& b.heard.last() == reduce::answer(a, tape)
        }),
{
    let b = reduce::asked(a, cmd, tape);
    assert(b.sent.drop_last() =~= a.sent);
    assert(b.heard.drop_last() =~= a.heard);
}

/// A command that is no query leaves the cache true.
proof fn a_request_adds(a: AppView, b: AppView, cmd: CommandView, tape: Tape)
    requires
        b.sent == a.sent.push(cmd),
        b.heard == a.heard.push(reduce::answer(a, tape)),
        a.status == b.status,
        a.devices == b.devices,
        a.whitelist == b.whitelist,
        a.config == b.config,
        a.dryrun == b.dryrun,
        !only_asks(cmd),
    ensures
        steps(a, b, Some(cmd)),
{
    reveal(is_what_was_told);
    asking_is_taken_down(a, cmd, tape);
    a_query_adds(a, b, cmd, Some(cmd));
}

/// A fetch only asks.
#[verifier::rlimit(40)]
proof fn fetches_only_ask(a: AppView, tape: Tape)
    ensures
        steps(a, reduce::status_fetched(a, tape), None),
        steps(a, reduce::devices_fetched(a, tape), None),
        steps(a, reduce::whitelist_fetched(a, tape), None),
        steps(a, reduce::config_fetched(a, tape), None),
        steps(a, reduce::dry_run_fetched(a, tape), None),
{
    reveal(reduce::status_fetched);
    reveal(reduce::devices_fetched);
    reveal(reduce::whitelist_fetched);
    reveal(reduce::config_fetched);
    reveal(reduce::dry_run_fetched);
    reveal(is_what_was_told);
    asking_is_taken_down(a, CommandView::GetStatus, tape);
    asking_is_taken_down(a, CommandView::ListDevices, tape);
    asking_is_taken_down(a, CommandView::WhitelistList, tape);
    asking_is_taken_down(a, CommandView::GetConfig, tape);
    asking_is_taken_down(a, CommandView::RunDryRun, tape);
    a_query_adds(a, reduce::status_fetched(a, tape), CommandView::GetStatus, None);
    a_query_adds(a, reduce::devices_fetched(a, tape), CommandView::ListDevices, None);
    a_query_adds(a, reduce::whitelist_fetched(a, tape), CommandView::WhitelistList, None);
    a_query_adds(a, reduce::config_fetched(a, tape), CommandView::GetConfig, None);
    a_query_adds(a, reduce::dry_run_fetched(a, tape), CommandView::RunDryRun, None);
}

/// A refresh only asks.
proof fn refreshing_only_asks(a: AppView, tape: Tape)
    ensures
        steps(a, reduce::refreshed(a, tape), None),
{
    reveal(reduce::refreshed);
    let b = reduce::status_fetched(a, tape);
    fetches_only_ask(a, tape);
    fetches_only_ask(b, tape);
    adding_nothing(b, b, None);
    adding_twice(a, b, reduce::refreshed(a, tape), None);
}

/// A command changes by that command alone.
proof fn commanding_sends_it(a: AppView, cmd: CommandView, done: Seq<char>, tape: Tape)
    requires
        !only_asks(cmd),
    ensures
        steps(a, reduce::commanded(a, cmd, done, tape), Some(cmd)),
{
    reveal(reduce::commanded);
    let b = reduce::asked(a, cmd, tape);
    let c = match reduce::answer(a, tape) {
        Ok(ReplyView::Done) => reduce::toasted(b, done),
        Ok(ReplyView::Error(e)) => reduce::toasted(b, "refused: "@ + e),
        Ok(other) => reduce::toasted(b, "unexpected reply: "@ + debug::of_reply(other)),
        Err(e) => reduce::toasted(b, "error: "@ + e),
    };
    a_request_adds(a, c, cmd, tape);
    fetches_only_ask(c, tape);
    adding_twice(a, c, reduce::status_fetched(c, tape), Some(cmd));
}

/// A config change changes by that change alone.
proof fn changing_sends_it(a: AppView, change: ConfigChangeView, tape: Tape)
    ensures
        steps(
            a,
            reduce::config_change_sent(a, change, tape),
            Some(CommandView::ConfigSet(change)),
        ),
{
    reveal(reduce::config_change_sent);
    let cmd = CommandView::ConfigSet(change);
    let b = reduce::asked(a, cmd, tape);
    let done = reduce::config_change_sent(a, change, tape);
    match reduce::answer(a, tape) {
        Ok(ReplyView::Done) => {
            let c = reduce::toasted(b, "setting updated"@);
            let d = reduce::config_fetched(c, tape);
            a_request_adds(a, c, cmd, tape);
            fetches_only_ask(c, tape);
            fetches_only_ask(d, tape);
            adding_twice(a, c, d, Some(cmd));
            adding_twice(a, d, done, Some(cmd));
        },
        Ok(ReplyView::Error(report)) => {
            let c = AppView { report: Some(report), modal: Some(Modal::Report), ..b };
            a_request_adds(a, c, cmd, tape);
            fetches_only_ask(c, tape);
            adding_twice(a, c, done, Some(cmd));
        },
        _ => a_request_adds(a, done, cmd, tape),
    }
}

/// The fence, passed, changes by the new engaged state alone, and by nothing where the target
/// moved.
#[verifier::rlimit(40)]
proof fn passing_sends_it(a: AppView, engage: bool, tape: Tape)
    ensures
        steps(
            a,
            reduce::fence_passed(a, engage, tape),
            if a.destroy_target == a.luks_target() {
                Some(CommandView::SetLuksDestroyEngaged(engage))
            } else {
                None
            },
        ),
{
    reveal(reduce::fence_passed);
    reveal(reduce::engaged_sent);
    let b = AppView { modal: None, destroy_target: None, ..a };
    let done = reduce::fence_passed(a, engage, tape);
    if a.destroy_target != a.luks_target() {
        let c = reduce::toasted(
            b,
            "LUKS target changed while the fence was open — nothing sent, re-open to confirm"@,
        );
        fetches_only_ask(c, tape);
        adding_nothing(a, c, None);
        adding_twice(a, c, done, None);
    } else {
        let cmd = CommandView::SetLuksDestroyEngaged(engage);
        let c = reduce::asked(b, cmd, tape);
        match reduce::answer(b, tape) {
            Ok(ReplyView::Done) => {
                let d = reduce::toasted(
                    c,
                    if engage {
                        "LUKS header destruction ENGAGED (v1: recorded only — the wipe is a stub, the header is not touched)"@
                    } else {
                        "LUKS header destruction disengaged"@
                    },
                );
                let e = reduce::config_fetched(d, tape);
                a_request_adds(a, d, cmd, tape);
                fetches_only_ask(d, tape);
                fetches_only_ask(e, tape);
                adding_twice(a, d, e, Some(cmd));
                adding_twice(a, e, done, Some(cmd));
            },
            _ => a_request_adds(a, done, cmd, tape),
        }
    }
}

/// A menu item only asks, or opens a confirmation.
proof fn choosing_only_asks(a: AppView, item: state::MenuItem, tape: Tape)
    ensures
        steps(a, reduce::menu_item_selected(a, item, tape), None),
{
    reveal(reduce::menu_item_selected);
    let done = reduce::menu_item_selected(a, item, tape);
    let start = match item {
        state::MenuItem::Whitelist => AppView {
            screen: Screen::Whitelist,
            whitelist_cursor: 0,
            ..a
        },
        state::MenuItem::DryRun => AppView { screen: Screen::DryRun, ..a },
        state::MenuItem::Settings => AppView { screen: Screen::Settings, settings_cursor: 0, ..a },
        state::MenuItem::Config => AppView { screen: Screen::Config, ..a },
        state::MenuItem::LuksDestroy => AppView { screen: Screen::Destroy, destroy_scroll: 0, ..a },
        _ => done,
    };
    adding_nothing(a, start, None);
    adding_nothing(start, start, None);
    fetches_only_ask(start, tape);
    adding_twice(a, start, done, None);
}

/// What `Enter` sends.
#[verifier::rlimit(40)]
proof fn selecting_sends_the_request(a: AppView, tape: Tape)
    requires
        a.wf(),
    ensures
        steps(a, reduce::selected(a, tape), request(a, Intent::Select)),
{
    reveal(reduce::selected);
    let b = AppView { modal: None, ..a };
    let done = reduce::selected(a, tape);
    let req = request(a, Intent::Select);
    adding_nothing(a, b, req);
    match a.modal {
        Some(Modal::Menu { cursor }) => {
            choosing_only_asks(b, state::menu_order()[cursor as int], tape);
            adding_twice(a, b, done, req);
        },
        Some(Modal::DeviceAction { .. }) => {
            reveal(reduce::device_action_selected);
            adding_nothing(a, done, None);
        },
        Some(Modal::WhitelistAddCount { device_index, .. }) => {
            reveal(reduce::device_add_confirmed);
            match request(a, Intent::Select) {
                Some(cmd) => {
                    commanding_sends_it(b, cmd, "added to whitelist"@, tape);
                    adding_twice(a, b, done, req);
                },
                None => adding_nothing(a, done, None),
            }
        },
        Some(Modal::ConfirmRemove { .. }) => {
            reveal(reduce::device_remove_confirmed);
            match request(a, Intent::Select) {
                Some(cmd) => {
                    commanding_sends_it(b, cmd, "removed from whitelist"@, tape);
                    adding_twice(a, b, done, req);
                },
                None => adding_nothing(a, done, None),
            }
        },
        Some(Modal::Confirm { action }) => {
            commanding_sends_it(b, action.command(), action.done_words(), tape);
            adding_twice(a, b, done, req);
        },
        Some(Modal::WhitelistEntryAction { .. }) => {
            reveal(reduce::entry_action_selected);
            adding_nothing(a, done, None);
        },
        Some(Modal::WhitelistAddId) => {
            reveal(reduce::typed_id_submitted);
            adding_nothing(a, done, None);
        },
        Some(Modal::WhitelistCount { .. }) => {
            reveal(reduce::count_confirmed);
            commanding_sends_it(
                b,
                request(a, Intent::Select)->0,
                "whitelist updated"@,
                tape,
            );
            adding_twice(a, b, done, req);
        },
        Some(Modal::WhitelistRemoveEntry { id }) => {
            commanding_sends_it(
                b,
                CommandView::WhitelistRemove(id),
                "removed from whitelist"@,
                tape,
            );
            adding_twice(a, b, done, req);
        },
        Some(Modal::Report) => adding_nothing(a, done, None),
        Some(Modal::ConfirmConfigSet { row }) => {
            reveal(reduce::setting_confirmed);
            match reduce::setting_change(b, row) {
                Some(change) => {
                    changing_sends_it(b, change, tape);
                    adding_twice(a, b, done, req);
                },
                None => adding_nothing(a, done, None),
            }
        },
        Some(Modal::DestroyText { .. }) => {
            reveal(reduce::word_submitted);
            adding_nothing(a, done, None);
        },
        Some(Modal::DestroyConfirm { .. }) => adding_nothing(a, done, None),
        None => {
            reveal(reduce::row_selected);
            reveal(reduce::device_row_selected);
            reveal(reduce::whitelist_row_selected);
            reveal(reduce::fence_opened);
            reveal(reduce::setting_edited);
            match request(a, Intent::Select) {
                Some(CommandView::ConfigSet(change)) => changing_sends_it(a, change, tape),
                _ => adding_nothing(a, done, None),
            }
        },
    }
}

/// What an intent sends, and that it keeps the cache true.
#[verifier::rlimit(40)]
proof fn handling_steps(a: AppView, intent: Intent, tape: Tape)
    requires
        a.wf(),
    ensures
        steps(a, reduce::handled(a, intent, tape), request(a, intent)),
{
    let done = reduce::handled(a, intent, tape);
    match intent {
        Intent::Select => selecting_sends_the_request(a, tape),
        Intent::Refresh => refreshing_only_asks(a, tape),
        Intent::Char(c) => {
            reveal(reduce::typed);
            match a.modal {
                Some(Modal::DestroyConfirm { engage }) => if c == 'y' || c == 'Y' {
                    passing_sends_it(a, engage, tape);
                } else {
                    adding_nothing(a, done, None);
                },
                _ => adding_nothing(a, done, request(a, intent)),
            }
        },
        Intent::Back => {
            reveal(reduce::gone_back);
            adding_nothing(a, done, request(a, intent));
        },
        Intent::Up => {
            reveal(reduce::moved);
            reveal(reduce::screen_moved);
            adding_nothing(a, done, request(a, intent));
        },
        Intent::Down => {
            reveal(reduce::moved);
            reveal(reduce::screen_moved);
            adding_nothing(a, done, request(a, intent));
        },
        Intent::TogglePause => {
            reveal(reduce::pause_toggled);
            adding_nothing(a, done, request(a, intent));
        },
        _ => adding_nothing(a, done, request(a, intent)),
    }
}

/// An intent changes the daemon by [`request`] at most: whatever else it sends only asks. So
/// arming, disarming and reloading take their confirmation; a setting that lowers protection
/// while armed takes its own; LUKS destruction changes only on `y` in step two of the fence,
/// with the target still the one that was shown; and quitting, moving and closing change
/// nothing.
pub proof fn only_a_confirmed_request_changes_the_daemon(
    a: AppView,
    intent: Intent,
    tape: Tape,
)
    requires
        a.wf(),
    ensures
        adds_at_most(a, reduce::handled(a, intent, tape), request(a, intent)),
{
    handling_steps(a, intent, tape);
}

/// A confirmed action is sent once, and then the status is asked for: nothing else is.
pub proof fn a_confirmed_action_is_sent_once(a: AppView, action: ConfirmAction, tape: Tape)
    requires
        a.modal == Some(Modal::Confirm { action }),
    ensures
        reduce::handled(a, Intent::Select, tape).sent == a.sent.push(action.command()).push(
            CommandView::GetStatus,
        ),
        reduce::handled(a, Intent::Select, tape).modal is None,
{
    reveal(reduce::selected);
    reveal(reduce::commanded);
    reveal(reduce::status_fetched);
}

/// Coming up on the Devices screen asks for the status and the devices, in that order, and for
/// nothing else.
pub proof fn connecting_fetches_what_is_shown(a: AppView, tape: Tape)
    requires
        a.screen == Screen::Devices,
    ensures
        reduce::connected(a, tape).sent == a.sent.push(CommandView::GetStatus).push(
            CommandView::ListDevices,
        ),
        reduce::connected(a, tape).conn == Conn::Up,
        reduce::connected(a, tape).conn_error is None,
{
    reveal(reduce::refreshed);
    reveal(reduce::status_fetched);
    reveal(reduce::devices_fetched);
}

/// What does not ask the daemon for anything does not talk to it at all: moving, closing,
/// quitting, the menu, the help, pausing, typing (but for the `y` that passes the fence), an
/// event, a lost connection, the time and a toast's end.
pub proof fn moving_about_sends_nothing(
    a: AppView,
    intent: Intent,
    tape: Tape,
    e: StreamEventView,
    why: Seq<char>,
    now: u64,
)
    ensures
        !(intent is Select || intent is Refresh) && !(intent matches Intent::Char(c) && (c == 'y'
            || c == 'Y') && a.modal is Some && a.modal->0 is DestroyConfirm) ==> {
            let done = reduce::handled(a, intent, tape);
            done.sent == a.sent && done.heard == a.heard && done.readings == a.readings
        },
        reduce::event_received(a, e).sent == a.sent,
        reduce::disconnected(a, why).sent == a.sent,
        reduce::ticked(a, now).sent == a.sent,
        reduce::toast_expired(a, now).sent == a.sent,
{
    reveal(reduce::gone_back);
    reveal(reduce::moved);
    reveal(reduce::screen_moved);
    reveal(reduce::modal_moved);
    reveal(reduce::typed);
    reveal(reduce::pause_toggled);
    reveal(reduce::recorded);
}

/// The app is a cache and no more: it starts with nothing, and whatever comes in, what it shows
/// of the daemon (the status, the devices, the whitelist, the config, the dry run) is the last
/// thing that the daemon answered when asked for it.
#[verifier::rlimit(40)]
pub proof fn the_app_is_a_cache(
    a: AppView,
    intent: Intent,
    e: StreamEventView,
    why: Seq<char>,
    now: u64,
    readings: Seq<u64>,
    script: Map<nat, Answer>,
    tape: Tape,
)
    requires
        a.wf(),
        is_what_was_told(a),
    ensures
        is_what_was_told(AppView::fresh(Seq::empty(), Seq::empty(), readings, script)),
        is_what_was_told(reduce::ticked(a, now)),
        is_what_was_told(reduce::handled(a, intent, tape)),
        is_what_was_told(reduce::connected(a, tape)),
        is_what_was_told(reduce::disconnected(a, why)),
        is_what_was_told(reduce::event_received(a, e)),
        is_what_was_told(reduce::settled(a, tape)),
        is_what_was_told(reduce::toast_expired(a, now)),
{
    adding_nothing(a, reduce::ticked(a, now), None);
    assert(is_what_was_told(AppView::fresh(Seq::empty(), Seq::empty(), readings, script))) by {
        reveal(is_what_was_told);
    }
    handling_steps(a, intent, tape);
    let up = AppView { conn: Conn::Up, conn_error: None, ..a };
    adding_nothing(a, up, None);
    refreshing_only_asks(up, tape);
    adding_nothing(a, reduce::disconnected(a, why), None);
    adding_nothing(a, reduce::toast_expired(a, now), None);
    assert(steps(a, reduce::event_received(a, e), None)) by {
        reveal(reduce::recorded);
        adding_nothing(a, reduce::event_received(a, e), None);
    }
    settling_keeps_the_cache(a, tape);
}

/// Settling keeps the cache true.
proof fn settling_keeps_the_cache(a: AppView, tape: Tape)
    requires
        is_what_was_told(a),
    ensures
        is_what_was_told(reduce::settled(a, tape)),
{
    reveal(reduce::status_settled);
    reveal(reduce::devices_settled);
    reveal(reduce::whitelist_settled);
    reveal(reduce::config_settled);
    let b = reduce::status_settled(a, tape);
    let c = reduce::devices_settled(b, tape);
    let d = reduce::whitelist_settled(c, tape);
    let a1 = AppView { dirty_status: false, ..a };
    let b1 = AppView { dirty_devices: false, ..b };
    let c1 = AppView { dirty_whitelist: false, ..c };
    let d1 = AppView { dirty_config: false, ..d };
    adding_nothing(a, a1, None);
    fetches_only_ask(a1, tape);
    adding_nothing(b, b1, None);
    fetches_only_ask(b1, tape);
    adding_nothing(c, c1, None);
    fetches_only_ask(c1, tape);
    adding_nothing(d, d1, None);
    fetches_only_ask(d1, tape);
}

/// The fetches that are marked, in the order in which they are made.
pub open spec fn marked(a: AppView) -> Seq<CommandView> {
    let none = Seq::<CommandView>::empty();
    (if a.dirty_status {
        seq![CommandView::GetStatus]
    } else {
        none
    }) + (if a.dirty_devices {
        seq![CommandView::ListDevices]
    } else {
        none
    }) + (if a.dirty_whitelist {
        seq![CommandView::WhitelistList]
    } else {
        none
    }) + (if a.dirty_config {
        seq![CommandView::GetConfig]
    } else {
        none
    })
}

/// Settling makes each marked fetch once, the status first, and leaves no mark.
pub proof fn settling_fetches_each_mark_once(a: AppView, tape: Tape)
    ensures
        reduce::settled(a, tape).sent == a.sent + marked(a),
        !reduce::settled(a, tape).dirty_status,
        !reduce::settled(a, tape).dirty_devices,
        !reduce::settled(a, tape).dirty_whitelist,
        !reduce::settled(a, tape).dirty_config,
{
    reveal(reduce::status_settled);
    reveal(reduce::devices_settled);
    reveal(reduce::whitelist_settled);
    reveal(reduce::config_settled);
    reveal(reduce::status_fetched);
    reveal(reduce::devices_fetched);
    reveal(reduce::whitelist_fetched);
    reveal(reduce::config_fetched);
    let b = reduce::status_settled(a, tape);
    let c = reduce::devices_settled(b, tape);
    let d = reduce::whitelist_settled(c, tape);
    let e = reduce::config_settled(d, tape);
    let none = Seq::<CommandView>::empty();
    assert(b.sent =~= a.sent + (if a.dirty_status {
        seq![CommandView::GetStatus]
    } else {
        none
    }));
    assert(c.sent =~= b.sent + (if a.dirty_devices {
        seq![CommandView::ListDevices]
    } else {
        none
    }));
    assert(d.sent =~= c.sent + (if a.dirty_whitelist {
        seq![CommandView::WhitelistList]
    } else {
        none
    }));
    assert(e.sent =~= d.sent + (if a.dirty_config {
        seq![CommandView::GetConfig]
    } else {
        none
    }));
    assert(e.sent =~= a.sent + marked(a));
}

/// Events received one after the other.
pub open spec fn all_received(a: AppView, events: Seq<StreamEventView>) -> AppView
    decreases events.len(),
{
    if events.len() == 0 {
        a
    } else {
        reduce::event_received(all_received(a, events.drop_last()), events.last())
    }
}

/// Events ask nothing of the daemon, however many come, and what they marked costs at most one
/// fetch of each of the four kinds.
pub proof fn a_burst_costs_four_fetches(
    a: AppView,
    events: Seq<StreamEventView>,
    tape: Tape,
)
    ensures
        all_received(a, events).sent == a.sent,
        reduce::settled(all_received(a, events), tape).sent.len() <= a.sent.len() + 4,
    decreases events.len(),
{
    if events.len() > 0 {
        a_burst_costs_four_fetches(a, events.drop_last(), tape);
        reveal(reduce::recorded);
    }
    settling_fetches_each_mark_once(all_received(a, events), tape);
}

/// The event log holds the newest events, in the order they came, up to its cap.
pub proof fn the_log_keeps_the_newest(a: AppView, events: Seq<StreamEventView>)
    requires
        a.events.len() <= EVENT_LOG_CAP,
    ensures
        all_received(a, events).events == reduce::newest(
            a.events + events,
            EVENT_LOG_CAP as nat,
        ),
    decreases events.len(),
{
    if events.len() == 0 {
        assert(a.events + events =~= a.events);
    } else {
        let init = events.drop_last();
        the_log_keeps_the_newest(a, init);
        reveal(reduce::recorded);
        let cap = EVENT_LOG_CAP as nat;
        let all = a.events + events;
        assert(all =~= (a.events + init).push(events.last()));
        assert(reduce::newest(
            reduce::newest(a.events + init, cap).push(events.last()),
            cap,
        ) =~= reduce::newest(all, cap));
    }
}

/// A paused log stays put while new lines come in: the line at the foot of the window is the
/// same one, as long as it has not aged out.
pub proof fn a_paused_log_stays_put(a: AppView, e: StreamEventView)
    requires
        a.wf(),
        a.screen == Screen::EventLog,
        a.events_paused,
        a.events.len() > 0,
        a.event_scroll + 1 < EVENT_LOG_CAP,
    ensures
        ({
            let after = reduce::event_received(a, e);
            after.events[after.events.len() - 1 - after.event_scroll] == a.events[a.events.len() - 1
                - a.event_scroll]
        }),
{
    reveal(reduce::recorded);
}

/// A toast is one line: nothing in it is a control code.
pub proof fn a_toast_has_no_control_codes(msg: Seq<char>)
    ensures
        forall|i: int|
            0 <= i < reduce::toast_text(msg).len() ==> !reduce::is_control(
                #[trigger] reduce::toast_text(msg)[i],
            ),
{
    reveal(reduce::toast_text);
    reveal_strlit(" … (see the screen for the full report)");
}

/// A toast stays for its time from when it was set, and goes after; looking again changes
/// nothing.
pub proof fn a_toast_stays_for_its_time(a: AppView, msg: Seq<char>, now: u64)
    requires
        a.clock <= now,
    ensures
        ({
            let later = reduce::toast_expired(reduce::toasted(a, msg), now);
            &&& later.toast == if now - a.clock <= TOAST_TTL {
                Some((reduce::toast_text(msg), a.clock))
            } else {
                None
            }
            &&& reduce::toast_expired(later, now) == later
        }),
{
}

/// A fetch leaves the modal alone.
proof fn fetches_leave_the_modal(a: AppView, tape: Tape)
    ensures
        reduce::status_fetched(a, tape).modal == a.modal,
        reduce::devices_fetched(a, tape).modal == a.modal,
        reduce::whitelist_fetched(a, tape).modal == a.modal,
        reduce::config_fetched(a, tape).modal == a.modal,
        reduce::dry_run_fetched(a, tape).modal == a.modal,
{
    reveal(reduce::status_fetched);
    reveal(reduce::devices_fetched);
    reveal(reduce::whitelist_fetched);
    reveal(reduce::config_fetched);
    reveal(reduce::dry_run_fetched);
}

/// A refresh leaves the modal alone.
proof fn refreshing_leaves_the_modal(a: AppView, tape: Tape)
    ensures
        reduce::refreshed(a, tape).modal == a.modal,
{
    reveal(reduce::refreshed);
    fetches_leave_the_modal(a, tape);
    fetches_leave_the_modal(reduce::status_fetched(a, tape), tape);
}

/// A command leaves the modal alone.
proof fn commanding_leaves_the_modal(
    a: AppView,
    cmd: CommandView,
    done: Seq<char>,
    tape: Tape,
)
    ensures
        reduce::commanded(a, cmd, done, tape).modal == a.modal,
{
    reveal(reduce::commanded);
    let b = reduce::asked(a, cmd, tape);
    let c = match reduce::answer(a, tape) {
        Ok(ReplyView::Done) => reduce::toasted(b, done),
        Ok(ReplyView::Error(e)) => reduce::toasted(b, "refused: "@ + e),
        Ok(other) => reduce::toasted(b, "unexpected reply: "@ + debug::of_reply(other)),
        Err(e) => reduce::toasted(b, "error: "@ + e),
    };
    fetches_leave_the_modal(c, tape);
}

/// A config change leaves the modal alone, or shows a report.
proof fn changing_leaves_the_modal(a: AppView, change: ConfigChangeView, tape: Tape)
    ensures
        ({
            let b = reduce::config_change_sent(a, change, tape);
            b.modal == a.modal || b.modal == Some(Modal::Report)
        }),
{
    reveal(reduce::config_change_sent);
    let b = reduce::asked(a, CommandView::ConfigSet(change), tape);
    let c = reduce::toasted(b, "setting updated"@);
    fetches_leave_the_modal(c, tape);
    fetches_leave_the_modal(reduce::config_fetched(c, tape), tape);
    if let Ok(ReplyView::Error(report)) = reduce::answer(a, tape) {
        fetches_leave_the_modal(
            AppView { report: Some(report), modal: Some(Modal::Report), ..b },
            tape,
        );
    }
}

/// `Enter` reaches step two of the fence from step one alone.
#[verifier::rlimit(40)]
proof fn selecting_leaves_step_two_to_the_word(a: AppView, tape: Tape)
    requires
        a.wf(),
        !(a.modal matches Some(Modal::DestroyText { .. })),
    ensures
        !(reduce::selected(a, tape).modal matches Some(Modal::DestroyConfirm { .. })),
{
    reveal(reduce::selected);
    let b = AppView { modal: None, ..a };
    match a.modal {
        Some(Modal::Menu { .. }) => {
            reveal(reduce::menu_item_selected);
            fetches_leave_the_modal(
                AppView { screen: Screen::Whitelist, whitelist_cursor: 0, ..b },
                tape,
            );
            fetches_leave_the_modal(AppView { screen: Screen::DryRun, ..b }, tape);
            fetches_leave_the_modal(
                AppView { screen: Screen::Settings, settings_cursor: 0, ..b },
                tape,
            );
            fetches_leave_the_modal(AppView { screen: Screen::Config, ..b }, tape);
            fetches_leave_the_modal(
                AppView { screen: Screen::Destroy, destroy_scroll: 0, ..b },
                tape,
            );
        },
        Some(Modal::DeviceAction { .. }) => {
            reveal(reduce::device_action_selected);
        },
        Some(Modal::WhitelistAddCount { .. }) => {
            reveal(reduce::device_add_confirmed);
            if let Some(cmd) = request(a, Intent::Select) {
                commanding_leaves_the_modal(b, cmd, "added to whitelist"@, tape);
            }
        },
        Some(Modal::ConfirmRemove { .. }) => {
            reveal(reduce::device_remove_confirmed);
            if let Some(cmd) = request(a, Intent::Select) {
                commanding_leaves_the_modal(b, cmd, "removed from whitelist"@, tape);
            }
        },
        Some(Modal::Confirm { action }) => {
            commanding_leaves_the_modal(b, action.command(), action.done_words(), tape);
        },
        Some(Modal::WhitelistEntryAction { .. }) => {
            reveal(reduce::entry_action_selected);
        },
        Some(Modal::WhitelistAddId) => {
            reveal(reduce::typed_id_submitted);
        },
        Some(Modal::WhitelistCount { .. }) => {
            reveal(reduce::count_confirmed);
            commanding_leaves_the_modal(
                b,
                request(a, Intent::Select)->0,
                "whitelist updated"@,
                tape,
            );
        },
        Some(Modal::WhitelistRemoveEntry { id }) => {
            commanding_leaves_the_modal(
                b,
                CommandView::WhitelistRemove(id),
                "removed from whitelist"@,
                tape,
            );
        },
        Some(Modal::ConfirmConfigSet { row }) => {
            reveal(reduce::setting_confirmed);
            if let Some(change) = reduce::setting_change(b, row) {
                changing_leaves_the_modal(b, change, tape);
            }
        },
        None => {
            reveal(reduce::row_selected);
            reveal(reduce::device_row_selected);
            reveal(reduce::whitelist_row_selected);
            reveal(reduce::fence_opened);
            reveal(reduce::setting_edited);
            if let Some(change) = reduce::setting_change(a, a.settings_cursor) {
                changing_leaves_the_modal(a, change, tape);
            }
        },
        _ => {},
    }
}

/// The fence's second step is reached only by the exact word in its first one, towards the
/// same state and with the same target.
#[verifier::rlimit(40)]
pub proof fn the_fence_takes_the_word(a: AppView, intent: Intent, tape: Tape, engage: bool)
    requires
        a.wf(),
        reduce::handled(a, intent, tape).modal == Some(Modal::DestroyConfirm { engage }),
        !(a.modal matches Some(Modal::DestroyConfirm { .. })),
    ensures
        intent == Intent::Select,
        a.modal == Some(Modal::DestroyText { engage }),
        a.input == state::destroy_word(),
        reduce::handled(a, intent, tape).destroy_target == a.destroy_target,
{
    match intent {
        Intent::Select => {
            if !(a.modal matches Some(Modal::DestroyText { .. })) {
                selecting_leaves_step_two_to_the_word(a, tape);
            }
            reveal(reduce::selected);
            reveal(reduce::word_submitted);
        },
        Intent::Refresh => refreshing_leaves_the_modal(a, tape),
        Intent::Back => {
            reveal(reduce::gone_back);
        },
        Intent::Up => {
            reveal(reduce::moved);
            reveal(reduce::modal_moved);
            reveal(reduce::screen_moved);
        },
        Intent::Down => {
            reveal(reduce::moved);
            reveal(reduce::modal_moved);
            reveal(reduce::screen_moved);
        },
        Intent::Char(_) => {
            reveal(reduce::typed);
        },
        Intent::TogglePause => {
            reveal(reduce::pause_toggled);
        },
        _ => {},
    }
}

/// The fence opens only over a target that the running config names, towards the state it is
/// not in, and never while the daemon is unreachable.
pub proof fn the_fence_opens_on_a_known_target(a: AppView, tape: Tape, engage: bool)
    requires
        a.modal is None,
        reduce::handled(a, Intent::Select, tape).modal == Some(Modal::DestroyText { engage }),
    ensures
        a.conn != Conn::Down,
        a.luks_target() is Some,
        reduce::handled(a, Intent::Select, tape).destroy_target == a.luks_target(),
        engage == !a.engaged(),
        reduce::handled(a, Intent::Select, tape).input.len() == 0,
{
    reveal(reduce::selected);
    reveal(reduce::row_selected);
    reveal(reduce::device_row_selected);
    reveal(reduce::whitelist_row_selected);
    reveal(reduce::fence_opened);
    reveal(reduce::setting_edited);
    reveal(reduce::config_change_sent);
    reveal(reduce::config_fetched);
    reveal(reduce::status_fetched);
}

/// What lowers protection while armed, or while that is not known, asks before anything is
/// sent.
pub proof fn lowering_protection_asks_first(a: AppView, tape: Tape, change: ConfigChangeView)
    requires
        a.modal is None,
        a.screen == Screen::Settings,
        a.conn != Conn::Down,
        reduce::counts_as_armed(a),
        reduce::setting_change(a, a.settings_cursor) == Some(change),
        reduce::lowers_protection(change),
    ensures
        reduce::handled(a, Intent::Select, tape) == (AppView {
            modal: Some(Modal::ConfirmConfigSet { row: a.settings_cursor }),
            ..a
        }),
{
    reveal(reduce::selected);
    reveal(reduce::row_selected);
    reveal(reduce::setting_edited);
}

/// A rejected change shows the daemon's whole report, and the config shown afterwards is the
/// one the daemon then gives, or the one shown before.
pub proof fn a_rejected_change_is_reported(
    a: AppView,
    change: ConfigChangeView,
    report: Seq<char>,
    tape: Tape,
)
    requires
        reduce::answer(a, tape) == Ok::<ReplyView, Seq<char>>(ReplyView::Error(report)),
    ensures
        ({
            let after = reduce::config_change_sent(a, change, tape);
            &&& after.report == Some(report)
            &&& after.modal == Some(Modal::Report)
            &&& match tape.answers[(a.heard.len() + 1) as int] {
                Ok(ReplyView::Config(c)) => after.config == Some(c),
                _ => after.config == a.config,
            }
        }),
{
    reveal(reduce::config_change_sent);
    reveal(reduce::config_fetched);
}

} // verus!
