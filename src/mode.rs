use vstd::prelude::*;

verus! {

/// A terminal mode that set/reset sequences address.
#[derive(Debug, Eq, PartialEq, Structural, Copy, Clone)]
pub enum Mode {
    /// Writing past the last column continues on the next line.
    Autowrap,
    /// Absolute row addressing is relative to the scroll region.
    Origin,
    /// The renderer shows the cursor.
    CursorVisible,
    /// The alternate grid is active.
    AltScreen,
    /// Pasted text is bracketed by markers.
    BracketedPaste,
    /// Written cells push the rest of the line right.
    Insert,
}

/// The state of every mode.
#[derive(Debug, Eq, PartialEq, Structural, Copy, Clone)]
pub struct Modes {
    pub autowrap: bool,
    pub origin: bool,
    pub cursor_visible: bool,
    pub alt_screen: bool,
    pub bracketed_paste: bool,
    pub insert: bool,
}

pub open spec fn default_modes() -> Modes {
    Modes {
        autowrap: true,
        origin: false,
        cursor_visible: true,
        alt_screen: false,
        bracketed_paste: false,
        insert: false,
    }
}

/// The mode that parameter `n` names; `private` when the sequence carried `?`.
pub open spec fn spec_mode_of(private: bool, n: u16) -> Option<Mode> {
    if private {
        if n == 6 {
            Some(Mode::Origin)
        } else if n == 7 {
            Some(Mode::Autowrap)
        } else if n == 25 {
            Some(Mode::CursorVisible)
        } else if n == 47 || n == 1047 || n == 1049 {
            Some(Mode::AltScreen)
        } else if n == 2004 {
            Some(Mode::BracketedPaste)
        } else {
            None
        }
    } else if n == 4 {
        Some(Mode::Insert)
    } else {
        None
    }
}

impl Mode {
    /// Resolves a set/reset parameter; unknown identifiers give `None`.
    pub fn from_param(private: bool, n: u16) -> (r: Option<Mode>)
        ensures
            r == spec_mode_of(private, n),
    {
        if private {
            if n == 6 {
                Some(Mode::Origin)
            } else if n == 7 {
                Some(Mode::Autowrap)
            } else if n == 25 {
                Some(Mode::CursorVisible)
            } else if n == 47 || n == 1047 || n == 1049 {
                Some(Mode::AltScreen)
            } else if n == 2004 {
                Some(Mode::BracketedPaste)
            } else {
                None
            }
        } else if n == 4 {
            Some(Mode::Insert)
        } else {
            None
        }
    }
}

impl Modes {
    pub open spec fn get(self, m: Mode) -> bool {
        match m {
            Mode::Autowrap => self.autowrap,
            Mode::Origin => self.origin,
            Mode::CursorVisible => self.cursor_visible,
            Mode::AltScreen => self.alt_screen,
            Mode::BracketedPaste => self.bracketed_paste,
            Mode::Insert => self.insert,
        }
    }

    pub open spec fn with(self, m: Mode, on: bool) -> Modes {
        match m {
            Mode::Autowrap => Modes { autowrap: on, ..self },
            Mode::Origin => Modes { origin: on, ..self },
            Mode::CursorVisible => Modes { cursor_visible: on, ..self },
            Mode::AltScreen => Modes { alt_screen: on, ..self },
            Mode::BracketedPaste => Modes { bracketed_paste: on, ..self },
            Mode::Insert => Modes { insert: on, ..self },
        }
    }

    pub fn new() -> (r: Modes)
        ensures
            r == default_modes(),
    {
        Modes {
            autowrap: true,
            origin: false,
            cursor_visible: true,
            alt_screen: false,
            bracketed_paste: false,
            insert: false,
        }
    }

    pub fn query(&self, m: Mode) -> (r: bool)
        ensures
            r == self.get(m),
    {
        match m {
            Mode::Autowrap => self.autowrap,
            Mode::Origin => self.origin,
            Mode::CursorVisible => self.cursor_visible,
            Mode::AltScreen => self.alt_screen,
            Mode::BracketedPaste => self.bracketed_paste,
            Mode::Insert => self.insert,
        }
    }

    pub fn set(&mut self, m: Mode)
        ensures
            *final(self) == old(self).with(m, true),
            final(self).get(m),
    {
        self.assign(m, true);
    }

    pub fn reset(&mut self, m: Mode)
        ensures
            *final(self) == old(self).with(m, false),
            !final(self).get(m),
    {
        self.assign(m, false);
    }

    pub fn assign(&mut self, m: Mode, on: bool)
        ensures
            *final(self) == old(self).with(m, on),
    {
        match m {
            Mode::Autowrap => self.autowrap = on,
            Mode::Origin => self.origin = on,
            Mode::CursorVisible => self.cursor_visible = on,
            Mode::AltScreen => self.alt_screen = on,
            Mode::BracketedPaste => self.bracketed_paste = on,
            Mode::Insert => self.insert = on,
        }
    }
}

} // verus!
