use vstd::prelude::*;
use crate::ansi::{ClearMode, CursorShape, LineClearMode, TabulationClearMode};
use crate::cell::{default_pen, Cell, Color, Pen};
use crate::charset::{default_charsets, Charset, CharsetSlot, Charsets};
use crate::grid::{
    blank_grid, blank_rows, blank_span, lines, rectangular, scrolled_down, scrolled_up, shift_in,
};
use crate::mode::{default_modes, Mode, Modes};

verus! {

/// Most cursor snapshots kept by save; the oldest is dropped beyond it.
pub const MAX_SAVED: usize = 16;

/// Most numeric parameters kept for one control sequence.
pub const MAX_PARAMS: usize = 16;

/// Longest operating-system-command payload kept.
pub const OSC_CAP: usize = 1024;

/// Where the next character goes and how it is drawn.
#[derive(Debug, Eq, PartialEq, Structural, Copy, Clone)]
pub struct Cursor {
    pub row: usize,
    pub col: usize,
    /// Set after writing into the last column; the wrap happens at the next write.
    pub pending_wrap: bool,
    pub pen: Pen,
}

/// What save-cursor records.
#[derive(Debug, Eq, PartialEq, Structural, Copy, Clone)]
pub struct SavedCursor {
    pub cursor: Cursor,
    pub charsets: Charsets,
}

/// Where the byte-level dispatcher stands.
#[derive(Debug, Eq, PartialEq, Structural, Copy, Clone)]
pub enum ParseState {
    Ground,
    Escape,
    /// Collecting the parameters of a control sequence.
    Csi,
    /// Skipping a control sequence that is not understood, up to its final byte.
    CsiIgnore,
    /// Collecting an operating-system-command string.
    Osc,
    /// An escape inside an operating-system-command string.
    OscEscape,
    /// Expecting the charset identifier for a slot.
    CharsetSelect(crate::charset::CharsetSlot),
}

pub open spec fn initial_cursor() -> Cursor {
    Cursor { row: 0, col: 0, pending_wrap: false, pen: default_pen() }
}

pub open spec fn in_bounds(c: Cursor, rows: usize, cols: usize) -> bool {
    c.row < rows && c.col < cols
}

pub open spec fn clamp(v: int, lo: int, hi: int) -> int {
    if v < lo {
        lo
    } else if v > hi {
        hi
    } else {
        v
    }
}

/// Default tab stops: every column that is a multiple of `width`.
pub open spec fn default_tabs(cols: nat, width: usize) -> Seq<bool> {
    Seq::new(cols, |i: int| width > 0 && i % (width as int) == 0)
}

/// The first stop right of `col`, or the last column when there is none.
pub open spec fn next_stop(tabs: Seq<bool>, col: int) -> int
    decreases tabs.len() - col,
{
    if col + 1 >= tabs.len() {
        tabs.len() - 1
    } else if tabs[col + 1] {
        col + 1
    } else {
        next_stop(tabs, col + 1)
    }
}

/// `sb` with `line` appended, the oldest rows dropped to stay within `cap`.
pub open spec fn push_capped(sb: Seq<Seq<Cell>>, line: Seq<Cell>, cap: usize) -> Seq<Seq<Cell>> {
    if cap == 0 {
        sb
    } else if sb.len() >= cap {
        sb.drop_first().push(line)
    } else {
        sb.push(line)
    }
}

/// The mathematical state of a terminal.
pub struct TermView {
    pub rows: usize,
    pub cols: usize,
    /// The active grid.
    pub grid: Seq<Seq<Cell>>,
    /// The inactive grid: the primary one while the alternate screen is shown.
    pub other: Seq<Seq<Cell>>,
    pub scrollback: Seq<Seq<Cell>>,
    pub scrollback_cap: usize,
    pub cursor: Cursor,
    /// The primary screen's cursor while the alternate screen is shown.
    pub alt_cursor: Cursor,
    pub saved: Seq<SavedCursor>,
    pub tabs: Seq<bool>,
    pub tab_width: usize,
    pub modes: Modes,
    pub charsets: Charsets,
    pub top: usize,
    pub bottom: usize,
    pub shape: CursorShape,
    pub state: ParseState,
    pub params: Seq<u16>,
    pub param: u16,
    pub private: bool,
    pub osc: Seq<u8>,
    pub title: Seq<u8>,
}

/// A terminal: grids, scrollback, cursor, modes, charsets and the dispatcher's state.
pub struct Terminal {
    pub rows: usize,
    pub cols: usize,
    pub grid: Vec<Vec<Cell>>,
    pub other: Vec<Vec<Cell>>,
    pub scrollback: Vec<Vec<Cell>>,
    pub scrollback_cap: usize,
    pub cursor: Cursor,
    pub alt_cursor: Cursor,
    pub saved: Vec<SavedCursor>,
    pub tabs: Vec<bool>,
    pub tab_width: usize,
    pub modes: Modes,
    pub charsets: Charsets,
    pub top: usize,
    pub bottom: usize,
    pub shape: CursorShape,
    pub state: ParseState,
    pub params: Vec<u16>,
    pub param: u16,
    pub private: bool,
    pub osc: Vec<u8>,
    pub title: Vec<u8>,
}

impl View for Terminal {
    type V = TermView;

    open spec fn view(&self) -> TermView {
        TermView {
            rows: self.rows,
            cols: self.cols,
            grid: lines(self.grid@),
            other: lines(self.other@),
            scrollback: lines(self.scrollback@),
            scrollback_cap: self.scrollback_cap,
            cursor: self.cursor,
            alt_cursor: self.alt_cursor,
            saved: self.saved@,
            tabs: self.tabs@,
            tab_width: self.tab_width,
            modes: self.modes,
            charsets: self.charsets,
            top: self.top,
            bottom: self.bottom,
            shape: self.shape,
            state: self.state,
            params: self.params@,
            param: self.param,
            private: self.private,
            osc: self.osc@,
            title: self.title@,
        }
    }
}

/// A terminal as constructed: blank grids, cursor home, modes and charsets at their defaults.
pub open spec fn fresh(rows: usize, cols: usize, cap: usize, tab_width: usize) -> TermView {
    TermView {
        rows,
        cols,
        grid: blank_grid(rows as nat, cols as nat),
        other: blank_grid(rows as nat, cols as nat),
        scrollback: Seq::empty(),
        scrollback_cap: cap,
        cursor: initial_cursor(),
        alt_cursor: initial_cursor(),
        saved: Seq::empty(),
        tabs: default_tabs(cols as nat, tab_width),
        tab_width,
        modes: default_modes(),
        charsets: default_charsets(),
        top: 0,
        bottom: (rows - 1) as usize,
        shape: CursorShape::Block,
        state: ParseState::Ground,
        params: Seq::empty(),
        param: 0,
        private: false,
        osc: Seq::empty(),
        title: Seq::empty(),
    }
}

impl TermView {
    pub open spec fn wf(self) -> bool {
        &&& 1 <= self.rows
        &&& 1 <= self.cols
        &&& self.grid.len() == self.rows
        &&& rectangular(self.grid, self.cols as nat)
        &&& self.other.len() == self.rows
        &&& rectangular(self.other, self.cols as nat)
        &&& self.scrollback.len() <= self.scrollback_cap
        &&& in_bounds(self.cursor, self.rows, self.cols)
        &&& in_bounds(self.alt_cursor, self.rows, self.cols)
        &&& self.saved.len() <= MAX_SAVED
        &&& forall|i: int|
            0 <= i < self.saved.len() ==> in_bounds(
                (#[trigger] self.saved[i]).cursor,
                self.rows,
                self.cols,
            )
        &&& self.tabs.len() == self.cols
        &&& self.top <= self.bottom < self.rows
        &&& self.params.len() <= MAX_PARAMS
        &&& self.osc.len() <= OSC_CAP
    }

    /// The cell at `(row, col)` of the active grid.
    pub open spec fn at(self, row: int, col: int) -> Cell {
        self.grid[row][col]
    }

    /// Moves the cursor, dropping a pending wrap.
    pub open spec fn goto(self, row: int, col: int) -> TermView {
        TermView {
            cursor: Cursor { row: row as usize, col: col as usize, pending_wrap: false, ..self.cursor },
            ..self
        }
    }

    /// The physical row that row `r` names, counting from the origin.
    pub open spec fn origin_row(self, r: int) -> int {
        if self.modes.origin {
            clamp(self.top + r, self.top as int, self.bottom as int)
        } else {
            clamp(r, 0, self.rows - 1)
        }
    }

    pub open spec fn home(self) -> TermView {
        self.goto(self.origin_row(0), 0)
    }

    pub open spec fn scroll_up(self) -> TermView {
        let archive = self.top == 0 && self.bottom + 1 == self.rows && !self.modes.alt_screen;
        TermView {
            grid: scrolled_up(self.grid, self.top as int, self.bottom as int, self.cols as nat),
            scrollback: if archive {
                push_capped(self.scrollback, self.grid[0], self.scrollback_cap)
            } else {
                self.scrollback
            },
            ..self
        }
    }

    pub open spec fn scroll_down(self) -> TermView {
        TermView {
            grid: scrolled_down(self.grid, self.top as int, self.bottom as int, self.cols as nat),
            ..self
        }
    }

    pub open spec fn linefeed(self) -> TermView {
        let s = self.goto(self.cursor.row as int, self.cursor.col as int);
        if self.cursor.row == self.bottom {
            s.scroll_up()
        } else if self.cursor.row + 1 < self.rows {
            s.goto(self.cursor.row + 1, self.cursor.col as int)
        } else {
            s
        }
    }

    pub open spec fn reverse_index(self) -> TermView {
        let s = self.goto(self.cursor.row as int, self.cursor.col as int);
        if self.cursor.row == self.top {
            s.scroll_down()
        } else if self.cursor.row > 0 {
            s.goto(self.cursor.row - 1, self.cursor.col as int)
        } else {
            s
        }
    }

    pub open spec fn carriage_return(self) -> TermView {
        self.goto(self.cursor.row as int, 0)
    }

    pub open spec fn backspace(self) -> TermView {
        self.goto(self.cursor.row as int, clamp(self.cursor.col - 1, 0, self.cols - 1))
    }

    pub open spec fn tab(self) -> TermView {
        self.goto(self.cursor.row as int, next_stop(self.tabs, self.cursor.col as int))
    }

    pub open spec fn move_up(self, n: int) -> TermView {
        self.goto(clamp(self.cursor.row - n, 0, self.rows - 1), self.cursor.col as int)
    }

    pub open spec fn move_down(self, n: int) -> TermView {
        self.goto(clamp(self.cursor.row + n, 0, self.rows - 1), self.cursor.col as int)
    }

    pub open spec fn move_forward(self, n: int) -> TermView {
        self.goto(self.cursor.row as int, clamp(self.cursor.col + n, 0, self.cols - 1))
    }

    pub open spec fn move_backward(self, n: int) -> TermView {
        self.goto(self.cursor.row as int, clamp(self.cursor.col - n, 0, self.cols - 1))
    }

    /// Absolute positioning; `row` and `col` count from zero.
    pub open spec fn move_to(self, row: int, col: int) -> TermView {
        self.goto(self.origin_row(row), clamp(col, 0, self.cols - 1))
    }

    pub open spec fn move_to_col(self, col: int) -> TermView {
        self.goto(self.cursor.row as int, clamp(col, 0, self.cols - 1))
    }

    pub open spec fn move_to_row(self, row: int) -> TermView {
        self.goto(self.origin_row(row), self.cursor.col as int)
    }

    /// The state in which a write lands: wrapped to the next line when a wrap is pending.
    pub open spec fn wrapped(self) -> TermView {
        if self.cursor.pending_wrap && self.modes.autowrap {
            self.carriage_return().linefeed()
        } else {
            self
        }
    }

    /// Where a write from this state puts its character.
    pub open spec fn write_target(self) -> (int, int) {
        (self.wrapped().cursor.row as int, self.wrapped().cursor.col as int)
    }

    /// Writes `ch` at the cursor with the current pen, then advances the cursor.
    pub open spec fn put(self, ch: char) -> TermView {
        let s = self.wrapped();
        let r = s.cursor.row as int;
        let c = s.cursor.col as int;
        let cell = Cell { c: ch, pen: s.cursor.pen };
        let line = if s.modes.insert {
            shift_in(s.grid[r], c, cell)
        } else {
            s.grid[r].update(c, cell)
        };
        let cursor = if c + 1 < s.cols {
            Cursor { col: (c + 1) as usize, pending_wrap: false, ..s.cursor }
        } else {
            Cursor { pending_wrap: s.modes.autowrap, ..s.cursor }
        };
        TermView { grid: s.grid.update(r, line), cursor, ..s }
    }

    /// Writes the character that printable byte `b` stands for under the active charset.
    pub open spec fn print(self, b: u8) -> TermView {
        self.put(self.charsets.spec_translate(b))
    }

    pub open spec fn clear_screen(self, mode: ClearMode) -> TermView {
        let r = self.cursor.row as int;
        let c = self.cursor.col as int;
        let cols = self.cols as nat;
        match mode {
            ClearMode::Below => TermView {
                grid: blank_rows(
                    self.grid.update(r, blank_span(self.grid[r], c, cols as int)),
                    r + 1,
                    self.rows as int,
                    cols,
                ),
                ..self
            },
            ClearMode::Above => TermView {
                grid: blank_rows(self.grid.update(r, blank_span(self.grid[r], 0, c + 1)), 0, r, cols),
                ..self
            },
            ClearMode::All => TermView { grid: blank_rows(self.grid, 0, self.rows as int, cols), ..self },
            ClearMode::Saved => TermView { scrollback: Seq::empty(), ..self },
        }
    }

    pub open spec fn clear_line(self, mode: LineClearMode) -> TermView {
        let r = self.cursor.row as int;
        let c = self.cursor.col as int;
        let (from, to) = match mode {
            LineClearMode::Right => (c, self.cols as int),
            LineClearMode::Left => (0, c + 1),
            LineClearMode::All => (0, self.cols as int),
        };
        TermView { grid: self.grid.update(r, blank_span(self.grid[r], from, to)), ..self }
    }

    pub open spec fn clear_tabs(self, mode: TabulationClearMode) -> TermView {
        match mode {
            TabulationClearMode::Current => TermView {
                tabs: self.tabs.update(self.cursor.col as int, false),
                ..self
            },
            TabulationClearMode::All => TermView { tabs: Seq::new(self.cols as nat, |_i: int| false), ..self },
        }
    }

    pub open spec fn set_tab_stop(self) -> TermView {
        TermView { tabs: self.tabs.update(self.cursor.col as int, true), ..self }
    }

    /// Sets or resets `m`, with its side effects.
    pub open spec fn set_mode(self, m: Mode, on: bool) -> TermView {
        match m {
            Mode::AltScreen => if on && !self.modes.alt_screen {
                TermView {
                    grid: blank_grid(self.rows as nat, self.cols as nat),
                    other: self.grid,
                    alt_cursor: self.cursor,
                    modes: self.modes.with(m, on),
                    ..self
                }
            } else if !on && self.modes.alt_screen {
                TermView {
                    grid: self.other,
                    other: self.grid,
                    cursor: self.alt_cursor,
                    modes: self.modes.with(m, on),
                    ..self
                }
            } else {
                self
            },
            Mode::Origin => TermView { modes: self.modes.with(m, on), ..self }.home(),
            _ => TermView { modes: self.modes.with(m, on), ..self },
        }
    }

    pub open spec fn save_cursor(self) -> TermView {
        let kept = if self.saved.len() >= MAX_SAVED {
            self.saved.drop_first()
        } else {
            self.saved
        };
        TermView {
            saved: kept.push(SavedCursor { cursor: self.cursor, charsets: self.charsets }),
            ..self
        }
    }

    /// Pops the last snapshot; with none saved, the cursor and charsets return to
    /// their initial state.
    pub open spec fn restore_cursor(self) -> TermView {
        if self.saved.len() == 0 {
            TermView { cursor: initial_cursor(), charsets: default_charsets(), ..self }
        } else {
            TermView {
                cursor: self.saved.last().cursor,
                charsets: self.saved.last().charsets,
                saved: self.saved.drop_last(),
                ..self
            }
        }
    }

    /// Sets the scroll region from one-based margins, zero meaning the default.
    pub open spec fn set_scroll_region(self, t: u16, b: u16) -> TermView {
        let t1: int = if t == 0 {
            1
        } else {
            t as int
        };
        let b1: int = if b == 0 || b > self.rows {
            self.rows as int
        } else {
            b as int
        };
        if t1 < b1 {
            TermView { top: (t1 - 1) as usize, bottom: (b1 - 1) as usize, ..self }.home()
        } else {
            self
        }
    }

    pub open spec fn sgr(self, ps: Seq<u16>) -> TermView {
        TermView { cursor: Cursor { pen: sgr_from(self.cursor.pen, ps, 0), ..self.cursor }, ..self }
    }

    pub open spec fn designate(self, slot: CharsetSlot, cs: Charset) -> TermView {
        TermView { charsets: self.charsets.designated(slot, cs), ..self }
    }

    pub open spec fn select_charset(self, slot: CharsetSlot) -> TermView {
        TermView { charsets: Charsets { active: slot, ..self.charsets }, ..self }
    }

    /// Everything but the scrollback back to its state at construction.
    pub open spec fn reset(self) -> TermView {
        TermView {
            scrollback: self.scrollback,
            ..fresh(self.rows, self.cols, self.scrollback_cap, self.tab_width)
        }
    }
}

/// The pen after one select-graphic-rendition code.
pub open spec fn sgr_code(pen: Pen, p: u16) -> Pen {
    if p == 0 {
        default_pen()
    } else if p == 1 {
        Pen { bold: true, ..pen }
    } else if p == 3 {
        Pen { italic: true, ..pen }
    } else if p == 4 {
        Pen { underline: true, ..pen }
    } else if p == 7 {
        Pen { inverse: true, ..pen }
    } else if p == 9 {
        Pen { strikeout: true, ..pen }
    } else if p == 22 {
        Pen { bold: false, ..pen }
    } else if p == 23 {
        Pen { italic: false, ..pen }
    } else if p == 24 {
        Pen { underline: false, ..pen }
    } else if p == 27 {
        Pen { inverse: false, ..pen }
    } else if p == 29 {
        Pen { strikeout: false, ..pen }
    } else if 30 <= p <= 37 {
        Pen { fg: Color::Indexed((p - 30) as u8), ..pen }
    } else if p == 39 {
        Pen { fg: Color::Default, ..pen }
    } else if 40 <= p <= 47 {
        Pen { bg: Color::Indexed((p - 40) as u8), ..pen }
    } else if p == 49 {
        Pen { bg: Color::Default, ..pen }
    } else if 90 <= p <= 97 {
        Pen { fg: Color::Indexed((p - 82) as u8), ..pen }
    } else if 100 <= p <= 107 {
        Pen { bg: Color::Indexed((p - 92) as u8), ..pen }
    } else {
        pen
    }
}

/// The pen after the codes of `ps` from index `i` on. `38;5;n` and `48;5;n` pick
/// palette entry `n`; any other form of `38` or `48` ends the list.
pub open spec fn sgr_from(pen: Pen, ps: Seq<u16>, i: int) -> Pen
    decreases ps.len() - i,
{
    if i >= ps.len() {
        pen
    } else if ps[i] == 38 || ps[i] == 48 {
        if i + 2 < ps.len() && ps[i + 1] == 5 {
            let n = ps[i + 2];
            let next = if n > 255 {
                pen
            } else if ps[i] == 38 {
                Pen { fg: Color::Indexed(n as u8), ..pen }
            } else {
                Pen { bg: Color::Indexed(n as u8), ..pen }
            };
            sgr_from(next, ps, i + 3)
        } else {
            pen
        }
    } else {
        sgr_from(sgr_code(pen, ps[i]), ps, i + 1)
    }
}

} // verus!
