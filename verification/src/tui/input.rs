//! Keypress to [`Intent`]. One small table, screen-aware only where it must be.
//!
//! Arrows, `Enter` and `Esc` do everything; the letter keys are accelerators, never the only
//! path to an action.

use crate::tui::app::App;
use crate::tui::client::Client;
use crate::tui::reduce;
use crate::tui::state::{AppView, Conn, Intent, Modal, Tape};
use vstd::prelude::*;

verus! {

/// A key, as far as the UI tells keys apart.
#[derive(Debug, Clone, Copy, PartialEq, Eq, Structural)]
pub enum KeyCode {
    Char(char),
    Enter,
    Esc,
    Up,
    Down,
    Backspace,
    /// Any other key.
    Other,
}

/// A key going down or up, with the modifiers that matter.
#[derive(Debug, Clone, Copy, PartialEq, Eq, Structural)]
pub struct KeyEvent {
    pub code: KeyCode,
    /// A press; not a release or a repeat.
    pub press: bool,
    pub ctrl: bool,
    pub alt: bool,
}

impl KeyEvent {
    /// A plain press.
    pub fn pressed(code: KeyCode) -> (r: KeyEvent)
        ensures
            r == (KeyEvent { code, press: true, ctrl: false, alt: false }),
    {
        KeyEvent { code, press: true, ctrl: false, alt: false }
    }

    /// A press with Ctrl held.
    pub fn with_ctrl(code: KeyCode) -> (r: KeyEvent)
        ensures
            r == (KeyEvent { code, press: true, ctrl: true, alt: false }),
    {
        KeyEvent { code, press: true, ctrl: true, alt: false }
    }
}

/// What a plain press means in a text-entry modal.
pub open spec fn text_intent(code: KeyCode) -> Intent {
    match code {
        KeyCode::Esc => Intent::Back,
        KeyCode::Enter => Intent::Select,
        KeyCode::Backspace => Intent::Backspace,
        KeyCode::Char(c) => Intent::Char(c),
        _ => Intent::Nothing,
    }
}

/// What a plain press means elsewhere.
pub open spec fn key_intent(code: KeyCode, conn: Conn) -> Intent {
    match code {
        KeyCode::Esc => Intent::Back,
        KeyCode::Enter => Intent::Select,
        KeyCode::Up => Intent::Up,
        KeyCode::Down => Intent::Down,
        KeyCode::Char(c) => if c == 'q' {
            Intent::Quit
        } else if c == 'm' {
            Intent::ToggleMenu
        } else if c == '?' {
            Intent::Help
        } else if c == 'p' {
            Intent::TogglePause
        } else if c == 'k' {
            Intent::Up
        } else if c == 'j' {
            Intent::Down
        } else if c == 'r' {
            if conn == Conn::Down {
                Intent::Reconnect
            } else {
                Intent::Refresh
            }
        } else {
            Intent::Nothing
        },
        _ => Intent::Nothing,
    }
}

/// What a key means.
pub open spec fn intent_of(app: AppView, key: KeyEvent) -> Intent {
    if !key.press {
        Intent::Nothing
    } else if key.ctrl || key.alt {
        if key.ctrl && key.code == KeyCode::Char('c') {
            Intent::Quit
        } else {
            Intent::Nothing
        }
    } else if app.modal is Some && app.modal->0 is DestroyConfirm {
        if key.code == KeyCode::Char('y') {
            Intent::Char('y')
        } else if key.code == KeyCode::Char('Y') {
            Intent::Char('Y')
        } else {
            Intent::Back
        }
    } else if app.captures_text() {
        text_intent(key.code)
    } else {
        key_intent(key.code, app.conn)
    }
}

/// Resolves a key against the current screen and modal.
///
/// Only presses act. Raw mode turns the terminal's own signal handling off, so Ctrl-C arrives
/// as an ordinary key and quits; other Ctrl and Alt chords are swallowed rather than fed to a
/// text field as their bare letter. In step two of the LUKS fence only `y` / `Y` confirms; any
/// other key cancels.
pub fn intent<C: Client>(app: &App<C>, key: KeyEvent) -> (r: Intent)
    ensures
        r == intent_of(app@, key),
{
    if !key.press {
        return Intent::Nothing;
    }
    if key.ctrl || key.alt {
        return match key.code {
            KeyCode::Char(c) => if c == 'c' && key.ctrl {
                Intent::Quit
            } else {
                Intent::Nothing
            },
            _ => Intent::Nothing,
        };
    }
    if let Some(Modal::DestroyConfirm { .. }) = app.modal {
        return match key.code {
            KeyCode::Char(c) => if c == 'y' || c == 'Y' {
                Intent::Char(c)
            } else {
                Intent::Back
            },
            _ => Intent::Back,
        };
    }
    if app.capturing_text() {
        return match key.code {
            KeyCode::Esc => Intent::Back,
            KeyCode::Enter => Intent::Select,
            KeyCode::Backspace => Intent::Backspace,
            KeyCode::Char(c) => Intent::Char(c),
            _ => Intent::Nothing,
        };
    }
    match key.code {
        KeyCode::Esc => Intent::Back,
        KeyCode::Enter => Intent::Select,
        KeyCode::Up => Intent::Up,
        KeyCode::Down => Intent::Down,
        KeyCode::Char(c) => if c == 'q' {
            Intent::Quit
        } else if c == 'm' {
            Intent::ToggleMenu
        } else if c == '?' {
            Intent::Help
        } else if c == 'p' {
            Intent::TogglePause
        } else if c == 'k' {
            Intent::Up
        } else if c == 'j' {
            Intent::Down
        } else if c == 'r' {
            if app.conn == Conn::Down {
                Intent::Reconnect
            } else {
                Intent::Refresh
            }
        } else {
            Intent::Nothing
        },
        _ => Intent::Nothing,
    }
}

/// Ctrl-C quits from anywhere, and asks nothing of the daemon.
pub proof fn ctrl_c_quits(app: AppView, key: KeyEvent, tape: Tape)
    requires
        key.press,
        key.ctrl,
        key.code == KeyCode::Char('c'),
    ensures
        intent_of(app, key) == Intent::Quit,
        reduce::handled(app, intent_of(app, key), tape) == (AppView { should_quit: true, ..app }),
{
}

/// In step two of the fence every key but `y`, `Y` and the chords closes it with nothing sent.
pub proof fn any_other_key_cancels_the_fence(app: AppView, key: KeyEvent, tape: Tape)
    requires
        app.modal matches Some(Modal::DestroyConfirm { .. }),
        key.press,
        !key.ctrl,
        !key.alt,
        key.code != KeyCode::Char('y'),
        key.code != KeyCode::Char('Y'),
    ensures
        ({
            let after = reduce::handled(app, intent_of(app, key), tape);
            &&& after.sent == app.sent
            &&& after.modal is None
            &&& after.destroy_target is None
        }),
{
    reveal(reduce::gone_back);
}

} // verus!
