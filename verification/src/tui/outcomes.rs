//! What keys come to, from the press to what the daemon is sent and the screen shows.

use crate::proto::action::PowerAction;
use crate::proto::protocol::{
    CommandView, ConfigChangeView, EventView, OnSensorGap, ReplyView, StreamEventView,
    WhitelistEntryView,
};
use crate::proto::sensor_event;
use crate::proto::sensor_event::UsbId;
use crate::text;
use crate::tui::app::App;
use crate::tui::client::Client;
use crate::tui::input;
use crate::tui::input::{KeyCode, KeyEvent};
use crate::tui::reduce;
use crate::tui::state;
use crate::tui::state::{AppView, ConfirmAction, Conn, MenuItem, Modal, Screen, Tape};
use vstd::prelude::*;

verus! {

/// What a press of a key does, with no other key held.
pub open spec fn pressed(a: AppView, code: KeyCode, tape: Tape) -> AppView {
    reduce::handled(
        a,
        input::intent_of(a, (KeyEvent { code, press: true, ctrl: false, alt: false })),
        tape,
    )
}

/// Only presses act, and of the keys held with Ctrl or Alt only Ctrl-C does.
pub proof fn nothing_but_presses_acts(a: AppView, key: KeyEvent, tape: Tape)
    ensures
        !key.press || ((key.ctrl || key.alt) && !(key.ctrl && key.code == KeyCode::Char('c')))
            ==> reduce::handled(a, input::intent_of(a, key), tape) == a,
{
}

/// The letters that move do what the arrows do, where no text is typed.
pub proof fn letters_move_like_arrows(a: AppView, tape: Tape)
    requires
        !a.captures_text(),
    ensures
        pressed(a, KeyCode::Char('k'), tape) == pressed(a, KeyCode::Up, tape),
        pressed(a, KeyCode::Char('j'), tape) == pressed(a, KeyCode::Down, tape),
{
}

/// What the keys that work everywhere do: `q` quits and does nothing else; `m` opens the menu at its
/// top and closes it again; `?` shows the help from its top; and Esc closes what is open, and with
/// nothing open leads back to the devices.
pub proof fn the_keys_that_work_everywhere(a: AppView, tape: Tape)
    requires
        !a.captures_text(),
    ensures
        pressed(a, KeyCode::Char('q'), tape) == (AppView { should_quit: true, ..a }),
        ({
            let b = pressed(a, KeyCode::Char('m'), tape);
            if a.modal is Some && a.modal->0 is Menu {
                b.modal is None
            } else {
                b.modal == Some(Modal::Menu { cursor: 0 })
            }
        }),
        pressed(a, KeyCode::Char('m'), tape).screen == a.screen,
        ({
            let b = pressed(a, KeyCode::Char('?'), tape);
            b.screen == Screen::Help && b.modal is None && b.help_scroll == 0
        }),
        ({
            let b = pressed(a, KeyCode::Esc, tape);
            &&& b.modal is None
            &&& a.modal is Some ==> b.screen == a.screen
            &&& a.modal is None ==> b.screen == Screen::Devices
        }),
{
    reveal(reduce::gone_back);
}

/// Every key that closes a text field closes it: Esc leaves nothing typed and nothing open, and no
/// letter is taken for anything but text there.
pub proof fn a_text_field_takes_letters_as_text(a: AppView, c: char, tape: Tape)
    requires
        a.modal == Some(Modal::WhitelistAddId),
    ensures
        ({
            let b = pressed(a, KeyCode::Char(c), tape);
            &&& b.should_quit == a.should_quit && b.screen == a.screen && b.modal == a.modal
            &&& b.sent == a.sent
            &&& a.input.len() < 9 && ('0' <= c <= '9' || 'a' <= c <= 'f') ==> b.input == a.input.push(
                c,
            )
            &&& a.input.len() < 9 && 'A' <= c <= 'F' ==> b.input.len() == a.input.len() + 1
            &&& a.input.len() >= 9 ==> b.input == a.input
            &&& c == ' ' || c == 'q' || c == 'g' ==> b.input == a.input
        }),
        ({
            let b = pressed(a, KeyCode::Backspace, tape);
            a.input.len() > 0 ==> b.input == a.input.drop_last()
        }),
        pressed(a, KeyCode::Esc, tape).modal is None,
        pressed(a, KeyCode::Esc, tape).input.len() == 0,
{
    reveal(reduce::typed);
    reveal(reduce::gone_back);
}

/// An arrow moves a cursor by one row, round the end, and the other arrow moves it back: on the
/// devices, the whitelist with its row for adding, the settings, and the menu.
pub proof fn arrows_move_by_one_row(a: AppView, tape: Tape)
    requires
        a.wf(),
        a.devices.len() <= usize::MAX,
        a.whitelist.len() < usize::MAX,
    ensures
        a.modal is None && a.screen == Screen::Devices && a.devices.len() > 0 ==> {
            let down = pressed(a, KeyCode::Down, tape);
            &&& down.device_cursor == (if a.device_cursor + 1 < a.devices.len() {
                a.device_cursor + 1
            } else {
                0
            })
            &&& pressed(down, KeyCode::Up, tape) == a
        },
        a.modal is None && a.screen == Screen::Whitelist ==> {
            let down = pressed(a, KeyCode::Down, tape);
            &&& down.whitelist_cursor == (if a.whitelist_cursor < a.whitelist.len() {
                a.whitelist_cursor + 1
            } else {
                0
            })
            &&& pressed(down, KeyCode::Up, tape) == a
        },
        a.modal is None && a.screen == Screen::Settings ==> {
            let down = pressed(a, KeyCode::Down, tape);
            &&& down.settings_cursor == (if a.settings_cursor < 3 {
                a.settings_cursor + 1
            } else {
                0
            })
            &&& pressed(down, KeyCode::Up, tape) == a
        },
        a.modal matches Some(Modal::Menu { cursor }) ==> {
            let down = pressed(a, KeyCode::Down, tape);
            &&& down.modal == Some(
                Modal::Menu {
                    cursor: if cursor < 11 {
                        (cursor + 1) as usize
                    } else {
                        0
                    },
                },
            )
            &&& pressed(down, KeyCode::Up, tape) == a
        },
{
    reveal(reduce::moved);
    reveal(reduce::screen_moved);
    reveal(reduce::modal_moved);
    if a.devices.len() > 0 {
        there_and_back(a.device_cursor as int, a.devices.len() as int);
    }
    there_and_back(a.whitelist_cursor as int, (a.whitelist.len() + 1) as int);
    there_and_back(a.settings_cursor as int, 4);
    if let Some(Modal::Menu { cursor }) = a.modal {
        there_and_back(cursor as int, 12);
    }
}

proof fn there_and_back(c: int, n: int)
    requires
        0 <= c < n,
    ensures
        (c + 1) % n == (if c + 1 < n {
            c + 1
        } else {
            0
        }),
        ((c + 1) % n - 1) % n == c,
{
    if c + 1 < n {
        vstd::arithmetic::div_mod::lemma_small_mod((c + 1) as nat, n as nat);
        vstd::arithmetic::div_mod::lemma_small_mod(c as nat, n as nat);
    } else {
        vstd::arithmetic::div_mod::lemma_mod_self_0(n);
        assert(-1 + n == c);
        vstd::arithmetic::div_mod::lemma_mod_add_multiples_vanish(-1, n);
        vstd::arithmetic::div_mod::lemma_small_mod(c as nat, n as nat);
    }
}

/// The arrows set a count: up is one more, up to thirty-two, and down is one less, down to one.
pub proof fn arrows_set_a_count(a: AppView, device_index: usize, max_count: u32, tape: Tape)
    requires
        a.modal == Some(Modal::WhitelistAddCount { device_index, max_count }),
        1 <= max_count <= 32,
    ensures
        pressed(a, KeyCode::Up, tape).modal == Some(
            Modal::WhitelistAddCount {
                device_index,
                max_count: if max_count < 32 {
                    (max_count + 1) as u32
                } else {
                    32
                },
            },
        ),
        pressed(a, KeyCode::Down, tape).modal == Some(
            Modal::WhitelistAddCount {
                device_index,
                max_count: if max_count > 1 {
                    (max_count - 1) as u32
                } else {
                    1
                },
            },
        ),
{
    reveal(reduce::moved);
    reveal(reduce::modal_moved);
}

/// What a row of the menu says is what it does. `Arm`, `Disarm` and `Reload` send nothing at first,
/// and with one more Enter exactly that command, and then ask for the status.
pub proof fn a_menu_row_does_what_it_says(a: AppView, cursor: usize, tape: Tape)
    requires
        a.modal == Some(Modal::Menu { cursor }),
        cursor < 12,
    ensures
        ({
            let says = state::menu_order()[cursor as int].words();
            let once = pressed(a, KeyCode::Enter, tape);
            let twice = pressed(once, KeyCode::Enter, tape);
            &&& says == "Arm"@ ==> once.sent == a.sent && twice.sent == a.sent.push(
                CommandView::Arm,
            ).push(CommandView::GetStatus)
            &&& says == "Disarm"@ ==> once.sent == a.sent && twice.sent == a.sent.push(
                CommandView::Disarm,
            ).push(CommandView::GetStatus)
            &&& says == "Reload config from file"@ ==> once.sent == a.sent && twice.sent
                == a.sent.push(CommandView::ReloadConfig).push(CommandView::GetStatus)
            &&& !a.should_quit ==> (once.should_quit <==> says == "Quit"@)
            &&& says == "Devices"@ ==> once.screen == Screen::Devices && once.sent == a.sent
            &&& says == "Whitelist"@ ==> once.screen == Screen::Whitelist && once.sent
                == a.sent.push(CommandView::WhitelistList)
            &&& says == "Dry-run"@ ==> once.screen == Screen::DryRun && once.sent == a.sent.push(
                CommandView::RunDryRun,
            )
            &&& says == "Settings"@ ==> once.screen == Screen::Settings && once.sent == a.sent.push(
                CommandView::GetConfig,
            )
            &&& says == "Config"@ ==> once.screen == Screen::Config && once.sent == a.sent.push(
                CommandView::GetConfig,
            )
            &&& says == "LUKS destroy"@ ==> once.screen == Screen::Destroy && once.sent
                == a.sent.push(CommandView::GetConfig)
            &&& says == "Event log"@ ==> once.screen == Screen::EventLog && once.sent == a.sent
            &&& says == "Help"@ ==> once.screen == Screen::Help && once.sent == a.sent
        }),
{
    reveal(reduce::selected);
    reveal(reduce::menu_item_selected);
    reveal(reduce::commanded);
    reveal(reduce::status_fetched);
    reveal(reduce::whitelist_fetched);
    reveal(reduce::dry_run_fetched);
    reveal(reduce::config_fetched);
    the_menus_words_differ(state::menu_order()[cursor as int]);
}

/// The words of the menu tell its items apart.
proof fn the_menus_words_differ(item: MenuItem)
    ensures
        item.words() == "Arm"@ ==> item == MenuItem::Arm,
        item.words() == "Disarm"@ ==> item == MenuItem::Disarm,
        item.words() == "Reload config from file"@ ==> item == MenuItem::Reload,
        item.words() == "Quit"@ ==> item == MenuItem::Quit,
        item.words() == "Devices"@ ==> item == MenuItem::Devices,
        item.words() == "Whitelist"@ ==> item == MenuItem::Whitelist,
        item.words() == "Dry-run"@ ==> item == MenuItem::DryRun,
        item.words() == "Settings"@ ==> item == MenuItem::Settings,
        item.words() == "Config"@ ==> item == MenuItem::Config,
        item.words() == "LUKS destroy"@ ==> item == MenuItem::LuksDestroy,
        item.words() == "Event log"@ ==> item == MenuItem::EventLog,
        item.words() == "Help"@ ==> item == MenuItem::Help,
{
    reveal_strlit("Arm");
    reveal_strlit("Disarm");
    reveal_strlit("Reload config from file");
    reveal_strlit("Quit");
    reveal_strlit("Devices");
    reveal_strlit("Whitelist");
    reveal_strlit("Dry-run");
    reveal_strlit("Settings");
    reveal_strlit("Config");
    reveal_strlit("LUKS destroy");
    reveal_strlit("Event log");
    reveal_strlit("Help");
    let w = item.words();
    assert("Arm"@.len() == 3 && "Disarm"@.len() == 6 && "Reload config from file"@.len() == 23
        && "Quit"@.len() == 4 && "Devices"@.len() == 7 && "Whitelist"@.len() == 9
        && "Dry-run"@.len() == 7 && "Settings"@.len() == 8 && "Config"@.len() == 6
        && "LUKS destroy"@.len() == 12 && "Event log"@.len() == 9 && "Help"@.len() == 4);
    assert("Disarm"@[0] == 'D' && "Config"@[0] == 'C' && "Quit"@[0] == 'Q' && "Help"@[0] == 'H'
        && "Devices"@[1] == 'e' && "Dry-run"@[1] == 'r' && "Whitelist"@[0] == 'W'
        && "Event log"@[0] == 'E');
}

proof fn enter_selects(a: AppView, tape: Tape)
    requires
        !(a.modal is Some && a.modal->0 is DestroyConfirm),
    ensures
        pressed(a, KeyCode::Enter, tape) == reduce::selected(a, tape),
{
}

proof fn a_command_is_sent(a: AppView, cmd: CommandView, done: Seq<char>, tape: Tape)
    ensures
        reduce::commanded(a, cmd, done, tape).sent == a.sent.push(cmd).push(CommandView::GetStatus),
        reduce::commanded(a, cmd, done, tape).modal == a.modal,
{
    reveal(reduce::commanded);
    reveal(reduce::status_fetched);
}

proof fn a_change_is_sent(a: AppView, change: ConfigChangeView, tape: Tape)
    ensures
        ({
            let sent = reduce::config_change_sent(a, change, tape).sent;
            &&& sent.len() > a.sent.len()
            &&& sent[a.sent.len() as int] == CommandView::ConfigSet(change)
        }),
        !(reduce::config_change_sent(a, change, tape).modal is Some
            && reduce::config_change_sent(a, change, tape).modal->0 is ConfirmConfigSet)
            || reduce::config_change_sent(a, change, tape).modal == a.modal,
{
    reveal(reduce::config_change_sent);
    reveal(reduce::config_fetched);
    reveal(reduce::status_fetched);
}

proof fn a_device_row_opens(a: AppView, tape: Tape)
    requires
        a.modal is None,
        a.screen == Screen::Devices,
        a.device_cursor < a.devices.len(),
    ensures
        ({
            let once = pressed(a, KeyCode::Enter, tape);
            &&& a.devices[a.device_cursor as int].id is None ==> once.modal is None && once.sent
                == a.sent
            &&& a.devices[a.device_cursor as int].id is Some ==> once == (AppView {
                modal: Some(Modal::DeviceAction { device_index: a.device_cursor, cursor: 0 }),
                ..a
            })
        }),
{
    reveal(reduce::selected);
    reveal(reduce::row_selected);
    reveal(reduce::device_row_selected);
}

proof fn a_device_option_opens(a: AppView, index: usize, tape: Tape)
    requires
        a.modal == Some(Modal::DeviceAction { device_index: index, cursor: 0 }),
        index < a.devices.len(),
    ensures
        pressed(a, KeyCode::Enter, tape) == (AppView {
            modal: Some(
                if a.devices[index as int].whitelisted {
                    Modal::ConfirmRemove { device_index: index }
                } else {
                    Modal::WhitelistAddCount { device_index: index, max_count: 1 }
                },
            ),
            ..a
        }),
{
    reveal(reduce::selected);
    reveal(reduce::device_action_selected);
}

proof fn one_up_is_two(a: AppView, index: usize, tape: Tape)
    requires
        a.modal == Some(Modal::WhitelistAddCount { device_index: index, max_count: 1 }),
    ensures
        pressed(a, KeyCode::Up, tape) == (AppView {
            modal: Some(Modal::WhitelistAddCount { device_index: index, max_count: 2 }),
            ..a
        }),
{
    reveal(reduce::moved);
    reveal(reduce::modal_moved);
}

proof fn a_removal_is_sent(a: AppView, index: usize, id: UsbId, tape: Tape)
    requires
        a.modal == Some(Modal::ConfirmRemove { device_index: index }),
        index < a.devices.len(),
        a.devices[index as int].id == Some(id),
    ensures
        pressed(a, KeyCode::Enter, tape).sent == a.sent.push(CommandView::WhitelistRemove(id)).push(
            CommandView::GetStatus,
        ),
        pressed(a, KeyCode::Enter, tape).modal is None,
{
    reveal(reduce::selected);
    reveal(reduce::device_remove_confirmed);
    a_command_is_sent(
        AppView { modal: None, ..a },
        CommandView::WhitelistRemove(id),
        "removed from whitelist"@,
        tape,
    );
}

proof fn an_addition_is_sent(a: AppView, index: usize, count: u32, id: UsbId, tape: Tape)
    requires
        a.modal == Some(Modal::WhitelistAddCount { device_index: index, max_count: count }),
        index < a.devices.len(),
        a.devices[index as int].id == Some(id),
    ensures
        pressed(a, KeyCode::Enter, tape).sent == a.sent.push(
            CommandView::WhitelistAdd(
                WhitelistEntryView {
                    id,
                    label: a.devices[index as int].label,
                    max_count: Some(count),
                },
            ),
        ).push(CommandView::GetStatus),
        pressed(a, KeyCode::Enter, tape).modal is None,
{
    reveal(reduce::selected);
    reveal(reduce::device_add_confirmed);
    a_command_is_sent(
        AppView { modal: None, ..a },
        CommandView::WhitelistAdd(
            WhitelistEntryView {
                id,
                label: a.devices[index as int].label,
                max_count: Some(count),
            },
        ),
        "added to whitelist"@,
        tape,
    );
}

proof fn an_entry_row_opens(a: AppView, tape: Tape)
    requires
        a.modal is None,
        a.screen == Screen::Whitelist,
        a.whitelist_cursor <= a.whitelist.len(),
    ensures
        a.whitelist_cursor == 0 ==> pressed(a, KeyCode::Enter, tape) == (AppView {
            input: Seq::empty(),
            modal: Some(Modal::WhitelistAddId),
            ..a
        }),
        a.whitelist_cursor > 0 ==> pressed(a, KeyCode::Enter, tape) == (AppView {
            modal: Some(
                Modal::WhitelistEntryAction {
                    entry_index: (a.whitelist_cursor - 1) as usize,
                    cursor: 0,
                },
            ),
            ..a
        }),
{
    reveal(reduce::selected);
    reveal(reduce::row_selected);
    reveal(reduce::whitelist_row_selected);
}

proof fn one_down_is_the_second(a: AppView, index: usize, tape: Tape)
    requires
        a.modal == Some(Modal::WhitelistEntryAction { entry_index: index, cursor: 0 }),
    ensures
        pressed(a, KeyCode::Down, tape) == (AppView {
            modal: Some(Modal::WhitelistEntryAction { entry_index: index, cursor: 1 }),
            ..a
        }),
{
    reveal(reduce::moved);
    reveal(reduce::modal_moved);
    there_and_back(0, 3);
}

proof fn an_entry_option_opens(a: AppView, index: usize, cursor: usize, tape: Tape)
    requires
        a.modal == Some(Modal::WhitelistEntryAction { entry_index: index, cursor }),
        index < a.whitelist.len(),
        cursor < 2,
    ensures
        pressed(a, KeyCode::Enter, tape) == (AppView {
            modal: Some(
                if cursor == 0 {
                    Modal::WhitelistCount {
                        id: a.whitelist[index as int].id,
                        max_count: reduce::starting_count(a.whitelist[index as int].max_count),
                        editing: true,
                    }
                } else {
                    Modal::WhitelistRemoveEntry { id: a.whitelist[index as int].id }
                },
            ),
            ..a
        }),
{
    reveal(reduce::selected);
    reveal(reduce::entry_action_selected);
}

proof fn an_entrys_count_is_sent(a: AppView, id: UsbId, count: u32, editing: bool, tape: Tape)
    requires
        a.modal == Some(Modal::WhitelistCount { id, max_count: count, editing }),
    ensures
        pressed(a, KeyCode::Enter, tape).sent == a.sent.push(
            CommandView::WhitelistAdd(
                WhitelistEntryView {
                    id,
                    label: reduce::label_of(a.whitelist, id),
                    max_count: Some(count),
                },
            ),
        ).push(CommandView::GetStatus),
{
    reveal(reduce::selected);
    reveal(reduce::count_confirmed);
    a_command_is_sent(
        AppView { modal: None, ..a },
        CommandView::WhitelistAdd(
            WhitelistEntryView {
                id,
                label: reduce::label_of(a.whitelist, id),
                max_count: Some(count),
            },
        ),
        "whitelist updated"@,
        tape,
    );
}

proof fn an_entrys_removal_is_sent(a: AppView, id: UsbId, tape: Tape)
    requires
        a.modal == Some(Modal::WhitelistRemoveEntry { id }),
    ensures
        pressed(a, KeyCode::Enter, tape).sent == a.sent.push(CommandView::WhitelistRemove(id)).push(
            CommandView::GetStatus,
        ),
{
    reveal(reduce::selected);
    a_command_is_sent(
        AppView { modal: None, ..a },
        CommandView::WhitelistRemove(id),
        "removed from whitelist"@,
        tape,
    );
}

/// A device on the list is put on the whitelist, or taken off it, by Enter three times: the first
/// two open what is asked and send nothing, and the third sends the device's own id, with its label
/// and a count of one, or the removal of that id; then the status is asked for. An arrow up before
/// the last Enter makes the count two. A device without an id opens nothing.
pub proof fn a_listed_device_is_whitelisted_or_not(a: AppView, tape: Tape)
    requires
        a.wf(),
        a.modal is None,
        a.screen == Screen::Devices,
        a.device_cursor < a.devices.len(),
    ensures
        ({
            let d = a.devices[a.device_cursor as int];
            let once = pressed(a, KeyCode::Enter, tape);
            let twice = pressed(once, KeyCode::Enter, tape);
            let thrice = pressed(twice, KeyCode::Enter, tape);
            let more = pressed(pressed(twice, KeyCode::Up, tape), KeyCode::Enter, tape);
            &&& d.id is None ==> once.modal is None && once.sent == a.sent
            &&& d.id matches Some(id) ==> {
                &&& once.sent == a.sent && twice.sent == a.sent
                &&& d.whitelisted ==> thrice.sent == a.sent.push(
                    CommandView::WhitelistRemove(id),
                ).push(CommandView::GetStatus)
                &&& !d.whitelisted ==> thrice.sent == a.sent.push(
                    CommandView::WhitelistAdd(
                        WhitelistEntryView { id, label: d.label, max_count: Some(1) },
                    ),
                ).push(CommandView::GetStatus)
                &&& !d.whitelisted ==> more.sent == a.sent.push(
                    CommandView::WhitelistAdd(
                        WhitelistEntryView { id, label: d.label, max_count: Some(2) },
                    ),
                ).push(CommandView::GetStatus)
                &&& thrice.modal is None
            }
        }),
{
    let d = a.devices[a.device_cursor as int];
    let index = a.device_cursor;
    a_device_row_opens(a, tape);
    if let Some(id) = d.id {
        let once = AppView {
            modal: Some(Modal::DeviceAction { device_index: index, cursor: 0 }),
            ..a
        };
        a_device_option_opens(once, index, tape);
        if d.whitelisted {
            let twice = AppView { modal: Some(Modal::ConfirmRemove { device_index: index }), ..a };
            a_removal_is_sent(twice, index, id, tape);
        } else {
            let twice = AppView {
                modal: Some(Modal::WhitelistAddCount { device_index: index, max_count: 1 }),
                ..a
            };
            let up = AppView {
                modal: Some(Modal::WhitelistAddCount { device_index: index, max_count: 2 }),
                ..a
            };
            one_up_is_two(twice, index, tape);
            an_addition_is_sent(twice, index, 1, id, tape);
            an_addition_is_sent(up, index, 2, id, tape);
        }
    }
}

/// The second option of a device's menu leaves everything as it was.
pub proof fn a_device_can_be_left_alone(a: AppView, tape: Tape)
    requires
        a.wf(),
        a.modal is None,
        a.screen == Screen::Devices,
        a.device_cursor < a.devices.len(),
        a.devices[a.device_cursor as int].id is Some,
    ensures
        ({
            let open = pressed(a, KeyCode::Enter, tape);
            pressed(pressed(open, KeyCode::Down, tape), KeyCode::Enter, tape) == a
        }),
{
    reveal(reduce::selected);
    reveal(reduce::row_selected);
    reveal(reduce::device_row_selected);
    reveal(reduce::device_action_selected);
    reveal(reduce::moved);
    reveal(reduce::modal_moved);
    there_and_back(0, 2);
}

/// An entry of the whitelist is edited or removed on its own row: the count that is set is sent for
/// that entry's id, with the label that the first entry with that id has; a removal is sent for that
/// id; and the first row opens the field for a new id.
pub proof fn an_entry_is_edited_or_removed(a: AppView, tape: Tape)
    requires
        a.wf(),
        a.modal is None,
        a.screen == Screen::Whitelist,
    ensures
        a.whitelist_cursor == 0 ==> {
            let once = pressed(a, KeyCode::Enter, tape);
            once.modal == Some(Modal::WhitelistAddId) && once.input.len() == 0 && once.sent
                == a.sent
        },
        a.whitelist_cursor > 0 ==> {
            let e = a.whitelist[a.whitelist_cursor - 1];
            let once = pressed(a, KeyCode::Enter, tape);
            let editing = pressed(once, KeyCode::Enter, tape);
            let edited = pressed(editing, KeyCode::Enter, tape);
            let removing = pressed(pressed(once, KeyCode::Down, tape), KeyCode::Enter, tape);
            let removed = pressed(removing, KeyCode::Enter, tape);
            &&& once.sent == a.sent && editing.sent == a.sent && removing.sent == a.sent
            &&& removed.sent == a.sent.push(CommandView::WhitelistRemove(e.id)).push(
                CommandView::GetStatus,
            )
            &&& edited.sent.len() == a.sent.len() + 2
            &&& edited.sent[a.sent.len() as int] matches CommandView::WhitelistAdd(sent) && {
                &&& sent.id == e.id
                &&& e.max_count matches Some(n) ==> (1 <= n <= 32 ==> sent.max_count == Some(n))
                &&& e.max_count is None ==> sent.max_count == Some(1u32)
                &&& (forall|j: int|
                    0 <= j < a.whitelist_cursor - 1 ==> (#[trigger] a.whitelist[j]).id != e.id)
                    ==> sent.label == e.label
            }
        },
{
    if a.whitelist_cursor == 0 {
        an_entry_row_opens(a, tape);
    } else {
        let k = (a.whitelist_cursor - 1) as usize;
        let e = a.whitelist[k as int];
        an_entry_row_opens(a, tape);
        let once = AppView {
            modal: Some(Modal::WhitelistEntryAction { entry_index: k, cursor: 0 }),
            ..a
        };
        let down = AppView {
            modal: Some(Modal::WhitelistEntryAction { entry_index: k, cursor: 1 }),
            ..a
        };
        one_down_is_the_second(once, k, tape);
        an_entry_option_opens(once, k, 0, tape);
        an_entry_option_opens(down, k, 1, tape);
        let count = reduce::starting_count(e.max_count);
        let editing = AppView {
            modal: Some(Modal::WhitelistCount { id: e.id, max_count: count, editing: true }),
            ..a
        };
        let removing = AppView { modal: Some(Modal::WhitelistRemoveEntry { id: e.id }), ..a };
        an_entrys_count_is_sent(editing, e.id, count, true, tape);
        an_entrys_removal_is_sent(removing, e.id, tape);
        if forall|j: int| 0 <= j < k ==> (#[trigger] a.whitelist[j]).id != a.whitelist[k as int].id {
            the_first_label_counts(a.whitelist, k as int);
        }
    }
}

proof fn the_first_label_counts(entries: Seq<WhitelistEntryView>, k: int)
    requires
        0 <= k < entries.len(),
        forall|j: int| 0 <= j < k ==> (#[trigger] entries[j]).id != entries[k].id,
    ensures
        reduce::label_of(entries, entries[k].id) == entries[k].label,
    decreases k,
{
    if k > 0 {
        let rest = entries.skip(1);
        assert forall|j: int| 0 <= j < k - 1 implies (#[trigger] rest[j]).id != rest[k - 1].id by {
            assert(rest[j] == entries[j + 1]);
        }
        the_first_label_counts(rest, k - 1);
        assert(entries[0].id != entries[k].id);
    }
}

/// An id that is typed is what is added: Enter on a field that writes an id, and Enter on the count,
/// send that id without a label and with a count of one; a field that writes none sends nothing and
/// stays open.
pub proof fn a_typed_id_is_added(a: AppView, tape: Tape)
    requires
        a.modal == Some(Modal::WhitelistAddId),
    ensures
        ({
            let once = pressed(a, KeyCode::Enter, tape);
            let twice = pressed(once, KeyCode::Enter, tape);
            match sensor_event::usb_id_of(text::trimmed(a.input)) {
                None => once.modal == Some(Modal::WhitelistAddId) && once.sent == a.sent
                    && once.input == a.input && once.toast is Some,
                Some(id) => {
                    &&& once.sent == a.sent
                    &&& twice.sent.len() == a.sent.len() + 2
                    &&& twice.sent[a.sent.len() as int] matches CommandView::WhitelistAdd(sent)
                        && sent.id == id && sent.max_count == Some(1u32)
                },
            }
        }),
{
    reveal(reduce::selected);
    reveal(reduce::typed_id_submitted);
    reveal(reduce::count_confirmed);
    reveal(reduce::commanded);
    reveal(reduce::status_fetched);
}

/// Enter on a setting sends its next value: the flags are turned round, the power action goes round
/// its three values, and so does what a gap does round its two. It asks first exactly where the
/// daemon is armed, or may be, and the change takes the teeth out of a kill: a dry run, a power
/// action other than cutting the power, or a gap that only warns. Nothing is sent to a daemon that
/// is out of reach.
pub proof fn a_setting_goes_to_its_next_value(a: AppView, tape: Tape)
    requires
        a.wf(),
        a.modal is None,
        a.screen == Screen::Settings,
        a.config is Some,
    ensures
        ({
            let cfg = a.config->0;
            let row = a.settings_cursor;
            let once = pressed(a, KeyCode::Enter, tape);
            let asks = (a.status is None || a.status->0.armed) && (row == 0 && !cfg.dry_run || row
                == 1 && cfg.power_action != PowerAction::NoAction || row == 3 && cfg.on_sensor_gap
                == OnSensorGap::Kill);
            let sent = if asks {
                pressed(once, KeyCode::Enter, tape).sent
            } else {
                once.sent
            };
            &&& a.conn == Conn::Down ==> once.sent == a.sent
            &&& a.conn != Conn::Down ==> {
                &&& asks <==> once.sent == a.sent
                &&& asks <==> once.modal == Some(Modal::ConfirmConfigSet { row })
                &&& sent.len() > a.sent.len()
                &&& sent[a.sent.len() as int] == CommandView::ConfigSet(
                    if row == 0 {
                        ConfigChangeView::DryRun(!cfg.dry_run)
                    } else if row == 1 {
                        ConfigChangeView::PowerAction(
                            match cfg.power_action {
                                PowerAction::PowerOff => PowerAction::Halt,
                                PowerAction::Halt => PowerAction::NoAction,
                                PowerAction::NoAction => PowerAction::PowerOff,
                            },
                        )
                    } else if row == 2 {
                        ConfigChangeView::ArmedAtBoot(!cfg.armed_at_boot)
                    } else {
                        ConfigChangeView::OnSensorGap(
                            match cfg.on_sensor_gap {
                                OnSensorGap::Warn => OnSensorGap::Kill,
                                OnSensorGap::Kill => OnSensorGap::Warn,
                            },
                        )
                    },
                )
            }
        }),
{
    let row = a.settings_cursor;
    enter_selects(a, tape);
    assert(reduce::selected(a, tape) == reduce::setting_edited(a, row, tape)) by {
        reveal(reduce::selected);
        reveal(reduce::row_selected);
    }
    let change = reduce::setting_change(a, row)->0;
    a_change_is_sent(a, change, tape);
    let once = AppView { modal: Some(Modal::ConfirmConfigSet { row }), ..a };
    enter_selects(once, tape);
    assert(reduce::selected(once, tape) == reduce::setting_confirmed(once, row, tape)) by {
        reveal(reduce::selected);
    }
    assert(reduce::setting_confirmed(once, row, tape) == reduce::config_change_sent(
        a,
        change,
        tape,
    )) by {
        reveal(reduce::setting_confirmed);
    }
    reveal(reduce::setting_edited);
}

/// What an event has made out of date is asked for again, and nothing else: the status after
/// everything but a dry run's hit; the devices after a device or the whitelist changed; the
/// whitelist after it changed; and the config after that changed.
pub proof fn an_event_has_its_subject_asked_for(a: AppView, e: StreamEventView, tape: Tape)
    requires
        !a.dirty_status && !a.dirty_devices && !a.dirty_whitelist && !a.dirty_config,
    ensures
        ({
            let b = reduce::settled(reduce::event_received(a, e), tape);
            b.sent == (match e.event {
                EventView::WouldKill(_) => a.sent,
                EventView::DeviceAdded(_) | EventView::DeviceRemoved(_) => a.sent.push(
                    CommandView::GetStatus,
                ).push(CommandView::ListDevices),
                EventView::WhitelistChanged => a.sent.push(CommandView::GetStatus).push(
                    CommandView::ListDevices,
                ).push(CommandView::WhitelistList),
                EventView::ConfigChanged => a.sent.push(CommandView::GetStatus).push(
                    CommandView::GetConfig,
                ),
                _ => a.sent.push(CommandView::GetStatus),
            })
        }),
{
    reveal(reduce::recorded);
    reveal(reduce::status_settled);
    reveal(reduce::devices_settled);
    reveal(reduce::whitelist_settled);
    reveal(reduce::config_settled);
    reveal(reduce::status_fetched);
    reveal(reduce::devices_fetched);
    reveal(reduce::whitelist_fetched);
    reveal(reduce::config_fetched);
}

/// What an event says in passing is what happened, and a device's coming and going, which the list
/// shows, says nothing.
pub proof fn an_event_is_announced(a: AppView, e: StreamEventView)
    ensures
        ({
            let b = reduce::event_received(a, e);
            &&& e.event is DeviceAdded || e.event is DeviceRemoved ==> b.toast == a.toast
            &&& e.event is Armed ==> b.toast == Some((reduce::toast_text("Armed"@), a.clock))
            &&& e.event is Disarmed ==> b.toast == Some((reduce::toast_text("Disarmed"@), a.clock))
            &&& e.event is EventsLost ==> b.toast == Some(
                (
                    reduce::toast_text("USB events lost — some device changes were missed"@),
                    a.clock,
                ),
            )
            &&& e.event matches EventView::ReloadFailed(why) ==> b.toast == Some(
                (reduce::toast_text("reload failed: "@ + why), a.clock),
            )
            &&& e.event matches EventView::WouldKill(why) ==> b.toast == Some(
                (reduce::toast_text("would kill: "@ + why.text()), a.clock),
            )
        }),
{
    reveal(reduce::recorded);
    reveal(reduce::event_toast);
}

/// What became of a confirmed action is said: that it was done where the daemon said so, and else
/// that it was refused, and why. Then the status is the one that the daemon gave.
pub proof fn the_outcome_of_an_action_is_said(a: AppView, action: ConfirmAction, tape: Tape)
    requires
        a.modal == Some(Modal::Confirm { action }),
        tape.answers.len() > a.heard.len() + 1,
        tape.answers[a.heard.len() as int + 1] matches Ok(ReplyView::Status(_)),
    ensures
        ({
            let b = pressed(a, KeyCode::Enter, tape);
            &&& b.toast matches Some((said, _)) && (match tape.answers[a.heard.len() as int] {
                Ok(ReplyView::Done) => said == reduce::toast_text(
                    match action {
                        ConfirmAction::Arm => "armed"@,
                        ConfirmAction::Disarm => "disarmed"@,
                        ConfirmAction::Reload => "config reloaded"@,
                    },
                ),
                Ok(ReplyView::Error(why)) => said == reduce::toast_text("refused: "@ + why),
                Err(why) => said == reduce::toast_text("error: "@ + why),
                _ => true,
            })
            &&& tape.answers[a.heard.len() as int + 1] == Ok::<ReplyView, Seq<char>>(
                ReplyView::Status(b.status->0),
            )
        }),
{
    reveal(reduce::selected);
    reveal(reduce::commanded);
    reveal(reduce::status_fetched);
}

/// `r` asks for the status and then for what the screen shows; with the daemon out of reach it asks
/// for nothing.
pub proof fn refreshing_asks_for_what_is_shown(a: AppView, tape: Tape)
    requires
        a.modal is None,
    ensures
        ({
            let sent = pressed(a, KeyCode::Char('r'), tape).sent;
            let asked = a.sent.push(CommandView::GetStatus);
            if a.conn == Conn::Down {
                sent == a.sent
            } else {
                sent == (match a.screen {
                    Screen::Devices => asked.push(CommandView::ListDevices),
                    Screen::Whitelist => asked.push(CommandView::WhitelistList),
                    Screen::Settings | Screen::Config | Screen::Destroy => asked.push(
                        CommandView::GetConfig,
                    ),
                    Screen::DryRun => asked.push(CommandView::RunDryRun),
                    Screen::EventLog | Screen::Help => asked,
                })
            }
        }),
{
    reveal(reduce::refreshed);
    reveal(reduce::status_fetched);
    reveal(reduce::devices_fetched);
    reveal(reduce::whitelist_fetched);
    reveal(reduce::config_fetched);
    reveal(reduce::dry_run_fetched);
}

/// What the daemon answers is what the app then holds, each in its place, and a list that shrank
/// pulls its cursor onto its last row.
pub proof fn an_answer_is_kept_in_its_place(a: AppView, tape: Tape)
    requires
        tape.answers.len() > a.heard.len(),
    ensures
        ({
            let answer = tape.answers[a.heard.len() as int];
            &&& answer matches Ok(ReplyView::Status(s)) ==> reduce::status_fetched(a, tape).status
                == Some(s)
            &&& answer matches Ok(ReplyView::Devices(d)) ==> {
                let b = reduce::devices_fetched(a, tape);
                &&& b.devices == d
                &&& a.device_cursor < d.len() ==> b.device_cursor == a.device_cursor
                &&& a.device_cursor >= d.len() && d.len() > 0 ==> b.device_cursor == d.len() - 1
            }
            &&& answer matches Ok(ReplyView::Whitelist(w)) ==> {
                let b = reduce::whitelist_fetched(a, tape);
                &&& b.whitelist == w
                &&& a.whitelist_cursor <= w.len() ==> b.whitelist_cursor == a.whitelist_cursor
                &&& a.whitelist_cursor > w.len() ==> b.whitelist_cursor == w.len()
            }
            &&& answer matches Ok(ReplyView::Config(c)) ==> reduce::config_fetched(a, tape).config
                == Some(c)
            &&& answer matches Ok(ReplyView::DryRun(r)) ==> reduce::dry_run_fetched(a, tape).dryrun
                == Some(r)
            &&& answer is Err ==> reduce::status_fetched(a, tape).status == a.status
                && reduce::devices_fetched(a, tape).devices == a.devices
                && reduce::config_fetched(a, tape).config == a.config
        }),
{
    reveal(reduce::status_fetched);
    reveal(reduce::devices_fetched);
    reveal(reduce::whitelist_fetched);
    reveal(reduce::config_fetched);
    reveal(reduce::dry_run_fetched);
}

/// A connection that comes up is shown as up, and one that goes down as down, with why.
pub proof fn the_connection_is_shown_as_it_is(a: AppView, why: Seq<char>, tape: Tape)
    ensures
        reduce::connected(a, tape).conn == Conn::Up,
        reduce::connected(a, tape).conn_error is None,
        reduce::disconnected(a, why).conn == Conn::Down,
        reduce::disconnected(a, why).conn_error == Some(why),
        reduce::disconnected(a, why).status == a.status,
{
    reveal(reduce::refreshed);
    reveal(reduce::status_fetched);
    reveal(reduce::devices_fetched);
    reveal(reduce::whitelist_fetched);
    reveal(reduce::config_fetched);
    reveal(reduce::dry_run_fetched);
}

/// The fence of the destruction screen from end to end: Enter opens it towards the other state and
/// sends nothing; only the exact word gets past its first step; and then `y` sends exactly that
/// state, where the target is still the one that was shown.
pub proof fn the_fence_from_end_to_end(a: AppView, tape: Tape)
    requires
        a.modal is None,
        a.screen == Screen::Destroy,
        a.conn != Conn::Down,
        a.config is Some,
        a.config->0.luks_destroy is Some,
    ensures
        ({
            let engaged = a.config->0.luks_destroy->0.engaged;
            let opened = pressed(a, KeyCode::Enter, tape);
            let typed = AppView { input: "DESTROY"@, ..opened };
            let asked = pressed(typed, KeyCode::Enter, tape);
            let sent = pressed(asked, KeyCode::Char('y'), tape).sent;
            &&& opened.sent == a.sent && asked.sent == a.sent
            &&& opened.modal == Some(Modal::DestroyText { engage: !engaged })
            &&& asked.modal == Some(Modal::DestroyConfirm { engage: !engaged })
            &&& sent.len() > a.sent.len()
            &&& sent[a.sent.len() as int] == CommandView::SetLuksDestroyEngaged(!engaged)
            &&& forall|word: Seq<char>|
                word != "DESTROY"@ ==> (#[trigger] pressed(
                    AppView { input: word, ..opened },
                    KeyCode::Enter,
                    tape,
                )).modal is None
        }),
{
    reveal(reduce::selected);
    reveal(reduce::row_selected);
    reveal(reduce::fence_opened);
    reveal(reduce::word_submitted);
    reveal(reduce::typed);
    reveal(reduce::fence_passed);
    reveal(reduce::engaged_sent);
    reveal(reduce::config_fetched);
    reveal(reduce::status_fetched);
}

/// A message in one line without control codes is shown as it is.
pub proof fn a_plain_message_is_shown_as_it_is(msg: Seq<char>)
    requires
        msg.len() > 0,
        forall|i: int| 0 <= i < msg.len() ==> !reduce::is_control(#[trigger] msg[i]),
    ensures
        reduce::toast_text(msg) == msg,
{
    reveal(reduce::toast_text);
    text::find_is_first(msg, '\n');
    assert(text::find(msg, '\n') is None) by {
        if let Some(i) = text::find(msg, '\n') {
            assert(!reduce::is_control(msg[i]));
        }
    }
    assert(text::split(msg, '\n') =~= seq![msg]);
    let ended = seq![msg].drop_last().map_values(|p: Seq<char>| text::without_cr(p));
    assert(ended =~= Seq::empty());
    assert(text::lines_of(msg) =~= seq![msg]);
    assert(msg.map_values(|c: char| reduce::visible(c)) =~= msg);
}

/// What is said of the app is said of its fields, and what it has sent is what its client was called
/// with.
pub proof fn the_app_is_taken_for_what_it_is<C: Client>(app: &App<C>)
    ensures
        app@.conn == app.conn,
        app@.screen == app.screen,
        app@.modal == app.modal,
        app@.device_cursor == app.device_cursor,
        app@.whitelist_cursor == app.whitelist_cursor,
        app@.settings_cursor == app.settings_cursor,
        app@.event_scroll == app.event_scroll,
        app@.events_paused == app.events_paused,
        app@.help_scroll == app.help_scroll,
        app@.destroy_scroll == app.destroy_scroll,
        app@.input == app.input@,
        app@.should_quit == app.should_quit,
        app@.devices == text::views(app.devices@),
        app@.whitelist == text::views(app.whitelist@),
        app@.events == text::views(app.events@),
        app@.status == text::opt_view(app.status),
        app@.config == text::opt_view(app.config),
        app@.report == text::opt_view(app.report),
        app@.conn_error == text::opt_view(app.conn_error),
        app@.destroy_target == text::opt_view(app.destroy_target),
        app@.dryrun is None <==> app.dryrun is None,
        app.dryrun matches Some(r) ==> app@.dryrun == Some(r@),
        app@.toast is None <==> app.toast is None,
        app.toast matches Some(t) ==> app@.toast == Some((t.0@, t.1)),
        app@.sent == app.client.log(),
        app@.heard == app.client.answers(),
{
}

/// How much is kept and for how long: a thousand events, a message for four seconds, nine characters
/// of an id, and twelve of the word.
pub proof fn the_limits_are_these()
    ensures
        state::EVENT_LOG_CAP == 1000,
        state::TOAST_TTL == 4000,
        state::USB_ID_INPUT_LEN == 9,
        state::DESTROY_WORD_INPUT_MAX == 12,
        state::MAX_WHITELIST_COUNT_UI == 32,
{
}

/// The arrows scroll the event log: up goes one line back, as far as its oldest line, and stops
/// following; down comes one line nearer, and follows again at the newest; and `p` stops following
/// and starts it again at the newest.
pub proof fn the_log_is_scrolled_line_by_line(a: AppView, tape: Tape)
    requires
        a.wf(),
        a.modal is None,
        a.screen == Screen::EventLog,
        a.events.len() > 0,
    ensures
        ({
            let up = pressed(a, KeyCode::Up, tape);
            let down = pressed(a, KeyCode::Down, tape);
            let p = pressed(a, KeyCode::Char('p'), tape);
            &&& up.event_scroll == (if a.event_scroll + 1 < a.events.len() {
                a.event_scroll + 1
            } else {
                a.events.len() - 1
            })
            &&& up.events_paused
            &&& down.event_scroll == (if a.event_scroll > 0 {
                a.event_scroll - 1
            } else {
                0
            })
            &&& down.event_scroll == 0 ==> !down.events_paused
            &&& p.events_paused == !a.events_paused
            &&& !p.events_paused ==> p.event_scroll == 0
            &&& p.events_paused ==> p.event_scroll == a.event_scroll
            &&& up.events == a.events && down.events == a.events && p.events == a.events
        }),
{
    reveal(reduce::moved);
    reveal(reduce::screen_moved);
    reveal(reduce::pause_toggled);
}

/// Away from the log `p` does nothing, and the help scrolls by one line between its first and its
/// last.
pub proof fn the_help_is_scrolled_line_by_line(a: AppView, tape: Tape)
    requires
        a.wf(),
        a.modal is None,
        a.screen == Screen::Help,
    ensures
        pressed(a, KeyCode::Char('p'), tape) == a,
        pressed(a, KeyCode::Down, tape).help_scroll == (if a.help_scroll < 39 {
            a.help_scroll + 1
        } else {
            39
        }),
        pressed(a, KeyCode::Up, tape).help_scroll == (if a.help_scroll > 0 {
            a.help_scroll - 1
        } else {
            0
        }),
{
    reveal(reduce::moved);
    reveal(reduce::screen_moved);
    reveal(reduce::pause_toggled);
}

/// An id is typed in lower case, whichever case its digits are pressed in, and with one colon.
pub proof fn an_id_is_typed_in_lower_case(a: AppView, c: char, tape: Tape)
    requires
        a.modal == Some(Modal::WhitelistAddId),
        a.input.len() < 9,
    ensures
        ({
            let typed = pressed(a, KeyCode::Char(c), tape).input;
            &&& c == 'A' ==> typed == a.input.push('a')
            &&& c == 'B' ==> typed == a.input.push('b')
            &&& c == 'C' ==> typed == a.input.push('c')
            &&& c == 'D' ==> typed == a.input.push('d')
            &&& c == 'E' ==> typed == a.input.push('e')
            &&& c == 'F' ==> typed == a.input.push('f')
            &&& c == ':' && !a.input.contains(':') ==> typed == a.input.push(':')
            &&& c == ':' && a.input.contains(':') ==> typed == a.input
        }),
{
    reveal(reduce::typed);
}

/// The fence's word is typed as it is pressed, letter by letter, and takes letters alone.
pub proof fn the_word_is_typed_as_it_is(a: AppView, c: char, engage: bool, tape: Tape)
    requires
        a.modal == Some(Modal::DestroyText { engage }),
        a.input.len() < 7,
    ensures
        ({
            let b = pressed(a, KeyCode::Char(c), tape);
            &&& 'a' <= c <= 'z' || 'A' <= c <= 'Z' ==> b.input == a.input.push(c)
            &&& '0' <= c <= '9' || c == ' ' ==> b.input == a.input
            &&& b.modal == a.modal && b.sent == a.sent && b.should_quit == a.should_quit
        }),
{
    reveal(reduce::typed);
}

/// The fence's last question takes `y` in either case for a yes and everything else for a no: Enter
/// and any other character close it and send nothing.
pub proof fn only_y_passes_the_fence(a: AppView, c: char, engage: bool, tape: Tape)
    requires
        a.modal == Some(Modal::DestroyConfirm { engage }),
    ensures
        pressed(a, KeyCode::Char('Y'), tape) == pressed(a, KeyCode::Char('y'), tape),
        c != 'y' && c != 'Y' ==> pressed(a, KeyCode::Char(c), tape).sent == a.sent,
        pressed(a, KeyCode::Enter, tape).sent == a.sent,
        pressed(a, KeyCode::Enter, tape).modal is None,
        pressed(a, KeyCode::Esc, tape).sent == a.sent,
        pressed(a, KeyCode::Esc, tape).modal is None,
{
    reveal(reduce::typed);
    reveal(reduce::selected);
    reveal(reduce::fence_cancelled);
    reveal(reduce::gone_back);
    reveal(reduce::moved);
    reveal(reduce::modal_moved);
}

/// An event moves the log's window only where the log is shown.
pub proof fn a_hidden_log_keeps_its_place(a: AppView, e: StreamEventView)
    requires
        a.screen != Screen::EventLog,
    ensures
        reduce::event_received(a, e).event_scroll == a.event_scroll,
        reduce::event_received(a, e).events_paused == a.events_paused,
        reduce::event_received(a, e).screen == a.screen,
        reduce::event_received(a, e).modal == a.modal,
{
    reveal(reduce::recorded);
}

/// A screen that the menu leads to is shown from its top, and the log follows its newest line.
pub proof fn a_screen_opens_at_its_top(a: AppView, tape: Tape)
    ensures
        reduce::menu_item_selected(a, MenuItem::Whitelist, tape).whitelist_cursor == 0,
        reduce::menu_item_selected(a, MenuItem::Settings, tape).settings_cursor == 0,
        reduce::menu_item_selected(a, MenuItem::LuksDestroy, tape).destroy_scroll == 0,
        reduce::menu_item_selected(a, MenuItem::Help, tape).help_scroll == 0,
        reduce::menu_item_selected(a, MenuItem::EventLog, tape).event_scroll == 0,
        !reduce::menu_item_selected(a, MenuItem::EventLog, tape).events_paused,
{
    reveal(reduce::menu_item_selected);
    reveal(reduce::whitelist_fetched);
    reveal(reduce::config_fetched);
}

/// A command's answer is said: success in its own words, and a refusal or a failure with the reason.
pub proof fn a_refusal_is_said(a: AppView, cmd: CommandView, done: Seq<char>, tape: Tape)
    requires
        reduce::answer(reduce::asked(a, cmd, tape), tape) matches Ok(ReplyView::Status(_)),
    ensures
        ({
            let (words, _) = reduce::commanded(a, cmd, done, tape).toast->0;
            &&& reduce::answer(a, tape) == Ok::<ReplyView, Seq<char>>(ReplyView::Done)
                ==> words == reduce::toast_text(done)
            &&& reduce::answer(a, tape) matches Ok(ReplyView::Error(e)) ==> words
                == reduce::toast_text("refused: "@ + e)
            &&& reduce::answer(a, tape) matches Err(e) ==> words == reduce::toast_text(
                "error: "@ + e,
            )
            &&& reduce::commanded(a, cmd, done, tape).toast is Some
        }),
{
    reveal(reduce::commanded);
    reveal(reduce::status_fetched);
}

} // verus!
