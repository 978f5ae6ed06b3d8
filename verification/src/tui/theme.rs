//! Colour, with a monochrome fallback.
//!
//! Two style sets. The monochrome one must still make armed vs. disarmed unmistakable, so it
//! leans on bold and reverse rather than hue.

use crate::text;
use crate::tui::ui::line::Role;
use vstd::prelude::*;

verus! {

/// A foreground colour.
#[derive(Debug, Clone, Copy, PartialEq, Eq, Structural)]
pub enum Color {
    Green,
    Yellow,
    Red,
}

/// How a piece of text looks.
#[derive(Debug, Clone, Copy, PartialEq, Eq, Structural)]
pub struct Style {
    pub fg: Option<Color>,
    pub bold: bool,
    pub dim: bool,
    pub reversed: bool,
}

/// The style set in use.
#[derive(Debug, Clone, Copy, PartialEq, Eq, Structural)]
pub struct Theme {
    pub mono: bool,
}

/// A style with a foreground colour, bold, and perhaps reversed.
pub open spec fn strong(fg: Option<Color>, reversed: bool) -> Style {
    Style { fg, bold: true, dim: false, reversed }
}

impl Theme {
    /// A colour, dropped entirely in monochrome mode.
    pub open spec fn hue(self, c: Color) -> Option<Color> {
        if self.mono {
            None
        } else {
            Some(c)
        }
    }

    /// How each role looks.
    pub open spec fn look(self, role: Role) -> Style {
        match role {
            Role::Plain => Style { fg: None, bold: false, dim: false, reversed: false },
            Role::Bold => strong(None, false),
            Role::Dim => Style { fg: None, bold: false, dim: true, reversed: false },
            Role::Selected => Style { fg: None, bold: false, dim: false, reversed: true },
            Role::Armed => strong(self.hue(Color::Green), true),
            Role::Disarmed => strong(self.hue(Color::Yellow), false),
            Role::Invalid => strong(self.hue(Color::Red), true),
            Role::Warn => strong(self.hue(Color::Red), false),
        }
    }

    /// Monochrome when `NO_COLOR` is set to something, `TERM` is `dumb`, or stdout is not a
    /// terminal.
    pub fn detect(no_color: &Option<String>, term: &Option<String>, is_terminal: bool) -> (r: Self)
        ensures
            r.mono == ((no_color matches Some(v) && v@.len() > 0) || (term matches Some(t) && t@
                == "dumb"@) || !is_terminal),
    {
        let no_color = match no_color {
            Some(v) => !v.as_str().is_empty(),
            None => false,
        };
        let dumb = match term {
            Some(t) => text::same_text(t.as_str(), "dumb"),
            None => false,
        };
        Theme { mono: no_color || dumb || !is_terminal }
    }

    fn fg(&self, c: Color) -> (r: Option<Color>)
        ensures
            r == self.hue(c),
    {
        if self.mono {
            None
        } else {
            Some(c)
        }
    }

    /// The safe, protected state.
    pub fn armed(&self) -> (r: Style)
        ensures
            r == self.look(Role::Armed),
    {
        Style { fg: self.fg(Color::Green), bold: true, dim: false, reversed: true }
    }

    /// Detect-and-report only.
    pub fn disarmed(&self) -> (r: Style)
        ensures
            r == self.look(Role::Disarmed),
    {
        Style { fg: self.fg(Color::Yellow), bold: true, dim: false, reversed: false }
    }

    /// The daemon will refuse to arm, or a destructive state.
    pub fn invalid(&self) -> (r: Style)
        ensures
            r == self.look(Role::Invalid),
    {
        Style { fg: self.fg(Color::Red), bold: true, dim: false, reversed: true }
    }

    /// A non-fatal problem worth the eye: sensor stopped, events lost.
    pub fn warn(&self) -> (r: Style)
        ensures
            r == self.look(Role::Warn),
    {
        Style { fg: self.fg(Color::Red), bold: true, dim: false, reversed: false }
    }

    /// The selected row or menu item.
    pub fn selected(&self) -> (r: Style)
        ensures
            r == self.look(Role::Selected),
    {
        Style { fg: None, bold: false, dim: false, reversed: true }
    }

    /// Secondary text: hints, counts, separators.
    pub fn dim(&self) -> (r: Style)
        ensures
            r == self.look(Role::Dim),
    {
        Style { fg: None, bold: false, dim: true, reversed: false }
    }

    /// How a role looks.
    pub fn style(&self, role: Role) -> (r: Style)
        ensures
            r == self.look(role),
    {
        match role {
            Role::Plain => Style { fg: None, bold: false, dim: false, reversed: false },
            Role::Bold => Style { fg: None, bold: true, dim: false, reversed: false },
            Role::Dim => self.dim(),
            Role::Selected => self.selected(),
            Role::Armed => self.armed(),
            Role::Disarmed => self.disarmed(),
            Role::Invalid => self.invalid(),
            Role::Warn => self.warn(),
        }
    }
}

/// With or without colour, armed and disarmed look different; without it no colour is used at
/// all.
pub proof fn armed_is_unmistakable(t: Theme, role: Role)
    ensures
        t.look(Role::Armed) != t.look(Role::Disarmed),
        t.mono ==> t.look(role).fg is None,
{
}

} // verus!
