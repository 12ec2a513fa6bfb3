use vstd::prelude::*;
use crate::ansi::{ClearMode, CursorShape, LineClearMode, TabulationClearMode};
use crate::cell::{blank_cell, Cell, Color, Pen};
use crate::charset::{Charset, CharsetSlot, Charsets};
use crate::grid::{
    blank_grid, clear_rows, clear_span, insert_cell, lines, new_grid, rectangular, scroll_down,
    scroll_up, set_cell,
};
use crate::mode::{Mode, Modes};
use crate::term::{
    default_tabs, fresh, next_stop, push_capped, sgr_from, Cursor, ParseState, SavedCursor,
    TermView, Terminal, MAX_SAVED,
};

verus! {

pub fn default_tab_stops(cols: usize, width: usize) -> (r: Vec<bool>)
    ensures
        r@ == default_tabs(cols as nat, width),
{
    let mut v: Vec<bool> = Vec::new();
    let mut i: usize = 0;
    while i < cols
        invariant
            i <= cols,
            v@ == default_tabs(i as nat, width),
        decreases cols - i,
    {
        v.push(width > 0 && i % width == 0);
        i += 1;
        assert(v@ =~= default_tabs(i as nat, width));
    }
    v
}

/// Appends `line` to `sb`, dropping the oldest row when `cap` rows are already kept.
fn push_history(sb: &mut Vec<Vec<Cell>>, line: Vec<Cell>, cap: usize)
    requires
        old(sb)@.len() <= cap,
    ensures
        lines(final(sb)@) == push_capped(lines(old(sb)@), line@, cap),
        final(sb)@.len() <= cap,
{
    if cap > 0 {
        if sb.len() >= cap {
            sb.remove(0);
            sb.push(line);
            assert(lines(sb@) =~= lines(old(sb)@).drop_first().push(line@));
        } else {
            sb.push(line);
            assert(lines(sb@) =~= lines(old(sb)@).push(line@));
        }
    }
}

impl Terminal {
    /// A terminal of `rows` by `cols` cells keeping at most `scrollback_cap` rows of
    /// history, with a tab stop every `tab_width` columns.
    pub fn new(rows: usize, cols: usize, scrollback_cap: usize, tab_width: usize) -> (t: Terminal)
        requires
            1 <= rows,
            1 <= cols,
        ensures
            t@ == fresh(rows, cols, scrollback_cap, tab_width),
            t@.wf(),
    {
        let grid = new_grid(rows, cols);
        let other = new_grid(rows, cols);
        let tabs = default_tab_stops(cols, tab_width);
        let t = Terminal {
            rows,
            cols,
            grid,
            other,
            scrollback: Vec::new(),
            scrollback_cap,
            cursor: Cursor { row: 0, col: 0, pending_wrap: false, pen: Pen::plain() },
            alt_cursor: Cursor { row: 0, col: 0, pending_wrap: false, pen: Pen::plain() },
            saved: Vec::new(),
            tabs,
            tab_width,
            modes: Modes::new(),
            charsets: Charsets::new(),
            top: 0,
            bottom: rows - 1,
            shape: CursorShape::Block,
            state: ParseState::Ground,
            params: Vec::new(),
            param: 0,
            private: false,
            osc: Vec::new(),
            title: Vec::new(),
        };
        assert(lines(t.scrollback@) =~= Seq::empty());
        assert(t@ == fresh(rows, cols, scrollback_cap, tab_width));
        t
    }

    fn goto(&mut self, row: usize, col: usize)
        ensures
            final(self)@ == old(self)@.goto(row as int, col as int),
    {
        self.cursor = Cursor { row, col, pending_wrap: false, pen: self.cursor.pen };
    }

    fn origin_row(&self, r: usize) -> (out: usize)
        requires
            self@.wf(),
        ensures
            out == self@.origin_row(r as int),
    {
        if self.modes.origin {
            if r > self.bottom - self.top {
                self.bottom
            } else {
                self.top + r
            }
        } else if r > self.rows - 1 {
            self.rows - 1
        } else {
            r
        }
    }

    pub fn scroll_up(&mut self)
        requires
            old(self)@.wf(),
        ensures
            final(self)@ == old(self)@.scroll_up(),
            final(self)@.wf(),
    {
        let archive = self.top == 0 && self.bottom + 1 == self.rows && !self.modes.alt_screen;
        let out = scroll_up(&mut self.grid, self.top, self.bottom, self.cols);
        if archive {
            push_history(&mut self.scrollback, out, self.scrollback_cap);
        }
        assert(rectangular(self@.grid, self.cols as nat));
    }

    pub fn scroll_down(&mut self)
        requires
            old(self)@.wf(),
        ensures
            final(self)@ == old(self)@.scroll_down(),
            final(self)@.wf(),
    {
        scroll_down(&mut self.grid, self.top, self.bottom, self.cols);
        assert(rectangular(self@.grid, self.cols as nat));
    }

    /// Moves down one row, scrolling the region when the cursor is on its bottom margin.
    pub fn linefeed(&mut self)
        requires
            old(self)@.wf(),
        ensures
            final(self)@ == old(self)@.linefeed(),
            final(self)@.wf(),
    {
        let row = self.cursor.row;
        let col = self.cursor.col;
        self.goto(row, col);
        if row == self.bottom {
            self.scroll_up();
        } else if row + 1 < self.rows {
            self.goto(row + 1, col);
        }
    }

    /// Moves up one row, scrolling the region down when the cursor is on its top margin.
    pub fn reverse_index(&mut self)
        requires
            old(self)@.wf(),
        ensures
            final(self)@ == old(self)@.reverse_index(),
            final(self)@.wf(),
    {
        let row = self.cursor.row;
        let col = self.cursor.col;
        self.goto(row, col);
        if row == self.top {
            self.scroll_down();
        } else if row > 0 {
            self.goto(row - 1, col);
        }
    }

    pub fn carriage_return(&mut self)
        requires
            old(self)@.wf(),
        ensures
            final(self)@ == old(self)@.carriage_return(),
            final(self)@.wf(),
    {
        let row = self.cursor.row;
        self.goto(row, 0);
    }

    pub fn backspace(&mut self)
        requires
            old(self)@.wf(),
        ensures
            final(self)@ == old(self)@.backspace(),
            final(self)@.wf(),
    {
        let row = self.cursor.row;
        let col = if self.cursor.col > 0 {
            self.cursor.col - 1
        } else {
            0
        };
        self.goto(row, col);
    }

    /// Moves to the next tab stop, or to the last column when none is left.
    pub fn tab(&mut self)
        requires
            old(self)@.wf(),
        ensures
            final(self)@ == old(self)@.tab(),
            final(self)@.wf(),
    {
        let row = self.cursor.row;
        let mut col = self.cursor.col;
        while col + 1 < self.cols && !self.tabs[col + 1]
            invariant
                self@ == old(self)@,
                self@.wf(),
                col < self.cols,
                next_stop(self.tabs@, col as int) == next_stop(
                    self.tabs@,
                    old(self).cursor.col as int,
                ),
            decreases self.cols - col,
        {
            col += 1;
        }
        if col + 1 < self.cols {
            col += 1;
        }
        self.goto(row, col);
    }

    pub fn move_up(&mut self, n: u16)
        requires
            old(self)@.wf(),
        ensures
            final(self)@ == old(self)@.move_up(n as int),
            final(self)@.wf(),
    {
        let row = if n as usize >= self.cursor.row {
            0
        } else {
            self.cursor.row - n as usize
        };
        let col = self.cursor.col;
        self.goto(row, col);
    }

    pub fn move_down(&mut self, n: u16)
        requires
            old(self)@.wf(),
        ensures
            final(self)@ == old(self)@.move_down(n as int),
            final(self)@.wf(),
    {
        let row = if n as usize >= self.rows - 1 - self.cursor.row {
            self.rows - 1
        } else {
            self.cursor.row + n as usize
        };
        let col = self.cursor.col;
        self.goto(row, col);
    }

    pub fn move_forward(&mut self, n: u16)
        requires
            old(self)@.wf(),
        ensures
            final(self)@ == old(self)@.move_forward(n as int),
            final(self)@.wf(),
    {
        let col = if n as usize >= self.cols - 1 - self.cursor.col {
            self.cols - 1
        } else {
            self.cursor.col + n as usize
        };
        let row = self.cursor.row;
        self.goto(row, col);
    }

    pub fn move_backward(&mut self, n: u16)
        requires
            old(self)@.wf(),
        ensures
            final(self)@ == old(self)@.move_backward(n as int),
            final(self)@.wf(),
    {
        let col = if n as usize >= self.cursor.col {
            0
        } else {
            self.cursor.col - n as usize
        };
        let row = self.cursor.row;
        self.goto(row, col);
    }

    /// Absolute positioning, counting from zero; origin mode makes `row` relative to
    /// the scroll region.
    pub fn move_to(&mut self, row: usize, col: usize)
        requires
            old(self)@.wf(),
        ensures
            final(self)@ == old(self)@.move_to(row as int, col as int),
            final(self)@.wf(),
    {
        let r = self.origin_row(row);
        let c = if col > self.cols - 1 {
            self.cols - 1
        } else {
            col
        };
        self.goto(r, c);
    }

    pub fn move_to_col(&mut self, col: usize)
        requires
            old(self)@.wf(),
        ensures
            final(self)@ == old(self)@.move_to_col(col as int),
            final(self)@.wf(),
    {
        let c = if col > self.cols - 1 {
            self.cols - 1
        } else {
            col
        };
        let r = self.cursor.row;
        self.goto(r, c);
    }

    pub fn move_to_row(&mut self, row: usize)
        requires
            old(self)@.wf(),
        ensures
            final(self)@ == old(self)@.move_to_row(row as int),
            final(self)@.wf(),
    {
        let r = self.origin_row(row);
        let c = self.cursor.col;
        self.goto(r, c);
    }

    pub fn num_rows(&self) -> (r: usize)
        ensures
            r == self@.rows,
    {
        self.rows
    }

    pub fn num_cols(&self) -> (r: usize)
        ensures
            r == self@.cols,
    {
        self.cols
    }

    /// The cell at `(row, col)` of the active grid.
    pub fn cell(&self, row: usize, col: usize) -> (r: Cell)
        requires
            self@.wf(),
            row < self@.rows,
            col < self@.cols,
        ensures
            r == self@.at(row as int, col as int),
    {
        self.grid[row][col]
    }

    /// The cursor's row and column.
    pub fn cursor_position(&self) -> (r: (usize, usize))
        ensures
            r == (self@.cursor.row, self@.cursor.col),
    {
        (self.cursor.row, self.cursor.col)
    }

    /// The shape the renderer draws; `Hidden` while the cursor is not visible.
    pub fn cursor_shape(&self) -> (r: CursorShape)
        ensures
            r == if self@.modes.cursor_visible {
                self@.shape
            } else {
                CursorShape::Hidden
            },
    {
        if self.modes.cursor_visible {
            self.shape
        } else {
            CursorShape::Hidden
        }
    }

    /// How many rows of history are kept.
    pub fn scrollback_len(&self) -> (r: usize)
        ensures
            r == self@.scrollback.len(),
    {
        self.scrollback.len()
    }

    /// Whether mode `m` is set.
    pub fn mode(&self, m: Mode) -> (r: bool)
        ensures
            r == self@.modes.get(m),
    {
        self.modes.query(m)
    }

    /// Writes `ch` at the cursor with the current pen and advances the cursor,
    /// first wrapping to the next line when a wrap is pending and autowrap is on.
    #[verifier::rlimit(40)]
    pub fn put(&mut self, ch: char)
        requires
            old(self)@.wf(),
        ensures
            final(self)@ == old(self)@.put(ch),
            final(self)@.wf(),
    {
        if self.cursor.pending_wrap && self.modes.autowrap {
            self.carriage_return();
            self.linefeed();
        }
        let ghost s = self@;
        let r = self.cursor.row;
        let c = self.cursor.col;
        let cell = Cell { c: ch, pen: self.cursor.pen };
        if self.modes.insert {
            insert_cell(&mut self.grid, r, c, cell);
        } else {
            set_cell(&mut self.grid, r, c, cell);
        }
        if c + 1 < self.cols {
            self.cursor.col = c + 1;
            self.cursor.pending_wrap = false;
        } else {
            self.cursor.pending_wrap = self.modes.autowrap;
        }
        assert(rectangular(self@.grid, self.cols as nat));
    }

    /// Writes printable byte `b`, mapped through the active charset.
    pub fn print(&mut self, b: u8)
        requires
            old(self)@.wf(),
        ensures
            final(self)@ == old(self)@.print(b),
            final(self)@.wf(),
    {
        let ch = self.charsets.translate(b);
        self.put(ch);
    }

    /// Blanks part of the active grid, or discards the scrollback; the cursor stays.
    #[verifier::rlimit(40)]
    pub fn clear_screen(&mut self, mode: ClearMode)
        requires
            old(self)@.wf(),
        ensures
            final(self)@ == old(self)@.clear_screen(mode),
            final(self)@.wf(),
    {
        match mode {
            ClearMode::Below => self.clear_below(),
            ClearMode::Above => self.clear_above(),
            ClearMode::All => {
                clear_rows(&mut self.grid, 0, self.rows, self.cols);
                assert(rectangular(self@.grid, self.cols as nat));
            },
            ClearMode::Saved => {
                self.scrollback = Vec::new();
                assert(lines(self.scrollback@) =~= Seq::empty());
            },
        }
    }

    #[verifier::rlimit(40)]
    fn clear_below(&mut self)
        requires
            old(self)@.wf(),
        ensures
            final(self)@ == old(self)@.clear_screen(ClearMode::Below),
            final(self)@.wf(),
    {
        let r = self.cursor.row;
        let c = self.cursor.col;
        clear_span(&mut self.grid, r, c, self.cols);
        assert(rectangular(self@.grid, self.cols as nat));
        clear_rows(&mut self.grid, r + 1, self.rows, self.cols);
        assert(rectangular(self@.grid, self.cols as nat));
    }

    #[verifier::rlimit(40)]
    fn clear_above(&mut self)
        requires
            old(self)@.wf(),
        ensures
            final(self)@ == old(self)@.clear_screen(ClearMode::Above),
            final(self)@.wf(),
    {
        let r = self.cursor.row;
        let c = self.cursor.col;
        clear_span(&mut self.grid, r, 0, c + 1);
        assert(rectangular(self@.grid, self.cols as nat));
        clear_rows(&mut self.grid, 0, r, self.cols);
        assert(rectangular(self@.grid, self.cols as nat));
    }

    /// Blanks part of the cursor's row; the cursor stays.
    #[verifier::rlimit(40)]
    pub fn clear_line(&mut self, mode: LineClearMode)
        requires
            old(self)@.wf(),
        ensures
            final(self)@ == old(self)@.clear_line(mode),
            final(self)@.wf(),
            final(self)@.cursor == old(self)@.cursor,
            mode == LineClearMode::Right ==> {
                let r = old(self)@.cursor.row as int;
                let c = old(self)@.cursor.col as int;
                &&& forall|j: int| c <= j < old(self)@.cols ==> #[trigger] final(self)@.at(r, j) == blank_cell()
                &&& forall|j: int| 0 <= j < c ==> #[trigger] final(self)@.at(r, j) == old(self)@.at(r, j)
                &&& forall|i: int| 0 <= i < old(self)@.rows && i != r ==> #[trigger] final(self)@.grid[i] == old(self)@.grid[i]
            },
    {
        let r = self.cursor.row;
        let c = self.cursor.col;
        match mode {
            LineClearMode::Right => clear_span(&mut self.grid, r, c, self.cols),
            LineClearMode::Left => clear_span(&mut self.grid, r, 0, c + 1),
            LineClearMode::All => clear_span(&mut self.grid, r, 0, self.cols),
        }
        assert(rectangular(self@.grid, self.cols as nat));
    }

    pub fn clear_tabs(&mut self, mode: TabulationClearMode)
        requires
            old(self)@.wf(),
        ensures
            final(self)@ == old(self)@.clear_tabs(mode),
            final(self)@.wf(),
    {
        match mode {
            TabulationClearMode::Current => {
                let c = self.cursor.col;
                self.tabs.set(c, false);
            },
            TabulationClearMode::All => {
                let mut i: usize = 0;
                while i < self.cols
                    invariant
                        i <= self.cols,
                        self.tabs@.len() == self.cols,
                        forall|j: int| 0 <= j < i ==> !(#[trigger] self.tabs@[j]),
                        self@ == (TermView { tabs: self.tabs@, ..old(self)@ }),
                    decreases self.cols - i,
                {
                    self.tabs.set(i, false);
                    i += 1;
                }
                assert(self.tabs@ =~= Seq::new(self.cols as nat, |_i: int| false));
            },
        }
    }

    pub fn set_tab_stop(&mut self)
        requires
            old(self)@.wf(),
        ensures
            final(self)@ == old(self)@.set_tab_stop(),
            final(self)@.wf(),
    {
        let c = self.cursor.col;
        self.tabs.set(c, true);
    }

    /// Sets or resets `m`. Entering the alternate screen keeps the primary grid and
    /// cursor aside and shows a blank grid; leaving it brings both back. Origin mode
    /// homes the cursor.
    pub fn set_mode(&mut self, m: Mode, on: bool)
        requires
            old(self)@.wf(),
        ensures
            final(self)@ == old(self)@.set_mode(m, on),
            final(self)@.wf(),
    {
        match m {
            Mode::AltScreen => {
                if on && !self.modes.alt_screen {
                    std::mem::swap(&mut self.grid, &mut self.other);
                    clear_rows(&mut self.grid, 0, self.rows, self.cols);
                    self.alt_cursor = self.cursor;
                    self.modes.assign(m, on);
                    assert(self@.grid =~= blank_grid(self.rows as nat, self.cols as nat));
                } else if !on && self.modes.alt_screen {
                    std::mem::swap(&mut self.grid, &mut self.other);
                    self.cursor = self.alt_cursor;
                    self.modes.assign(m, on);
                }
            },
            Mode::Origin => {
                self.modes.assign(m, on);
                let r = self.origin_row(0);
                self.goto(r, 0);
            },
            _ => {
                self.modes.assign(m, on);
            },
        }
    }

    pub fn save_cursor(&mut self)
        requires
            old(self)@.wf(),
        ensures
            final(self)@ == old(self)@.save_cursor(),
            final(self)@.wf(),
    {
        if self.saved.len() >= MAX_SAVED {
            self.saved.remove(0);
        }
        self.saved.push(SavedCursor { cursor: self.cursor, charsets: self.charsets });
        assert(self.saved@ =~= old(self)@.save_cursor().saved);
    }

    pub fn restore_cursor(&mut self)
        requires
            old(self)@.wf(),
        ensures
            final(self)@ == old(self)@.restore_cursor(),
            final(self)@.wf(),
    {
        match self.saved.pop() {
            Some(sc) => {
                self.cursor = sc.cursor;
                self.charsets = sc.charsets;
                assert(old(self)@.saved[old(self)@.saved.len() - 1] == sc);
            },
            None => {
                self.cursor = Cursor { row: 0, col: 0, pending_wrap: false, pen: Pen::plain() };
                self.charsets = Charsets::new();
            },
        }
    }

    /// Sets the scroll region from one-based margins, zero meaning the default, and
    /// homes the cursor; a region of fewer than two rows is ignored.
    pub fn set_scroll_region(&mut self, t: u16, b: u16)
        requires
            old(self)@.wf(),
        ensures
            final(self)@ == old(self)@.set_scroll_region(t, b),
            final(self)@.wf(),
    {
        let t1: usize = if t == 0 {
            1
        } else {
            t as usize
        };
        let b1: usize = if b == 0 || b as usize > self.rows {
            self.rows
        } else {
            b as usize
        };
        if t1 < b1 {
            self.top = t1 - 1;
            self.bottom = b1 - 1;
            let r = self.origin_row(0);
            self.goto(r, 0);
        }
    }

    /// Applies select-graphic-rendition codes to the pen of subsequent writes.
    pub fn sgr(&mut self, ps: &Vec<u16>)
        requires
            old(self)@.wf(),
        ensures
            final(self)@ == old(self)@.sgr(ps@),
            final(self)@.wf(),
    {
        let pen = sgr_pen(self.cursor.pen, ps);
        self.cursor.pen = pen;
    }

    pub fn designate(&mut self, slot: CharsetSlot, cs: Charset)
        requires
            old(self)@.wf(),
        ensures
            final(self)@ == old(self)@.designate(slot, cs),
            final(self)@.wf(),
    {
        self.charsets.designate(slot, cs);
    }

    pub fn select_charset(&mut self, slot: CharsetSlot)
        requires
            old(self)@.wf(),
        ensures
            final(self)@ == old(self)@.select_charset(slot),
            final(self)@.wf(),
    {
        self.charsets.select_active(slot);
    }

    /// Returns everything but the scrollback to its state at construction.
    pub fn reset(&mut self)
        requires
            old(self)@.wf(),
        ensures
            final(self)@ == old(self)@.reset(),
            final(self)@.wf(),
    {
        let mut t = Terminal::new(self.rows, self.cols, self.scrollback_cap, self.tab_width);
        std::mem::swap(&mut t.scrollback, &mut self.scrollback);
        *self = t;
    }
}

/// The pen after applying the codes of `ps` in order.
pub fn sgr_pen(pen0: Pen, ps: &Vec<u16>) -> (r: Pen)
    ensures
        r == sgr_from(pen0, ps@, 0),
{
    let mut pen = pen0;
    let mut i: usize = 0;
    while i < ps.len()
        invariant
            i <= ps@.len(),
            sgr_from(pen, ps@, i as int) == sgr_from(pen0, ps@, 0),
        decreases ps@.len() - i,
    {
        let p = ps[i];
        if p == 38 || p == 48 {
            if ps.len() - i > 2 && ps[i + 1] == 5 {
                let n = ps[i + 2];
                if n <= 255 {
                    if p == 38 {
                        pen = Pen { fg: Color::Indexed(n as u8), ..pen };
                    } else {
                        pen = Pen { bg: Color::Indexed(n as u8), ..pen };
                    }
                }
                i += 3;
            } else {
                return pen;
            }
        } else {
            pen = sgr_code(pen, p);
            i += 1;
        }
    }
    pen
}

/// The pen after one select-graphic-rendition code.
pub fn sgr_code(pen: Pen, p: u16) -> (r: Pen)
    ensures
        r == crate::term::sgr_code(pen, p),
{
    if p == 0 {
        Pen::plain()
    } else if p == 1 {
        Pen { bold: true, ..pen }
    } else if p == 3 {
        Pen { italic: true, ..pen }
    } else if p == 4 {
        Pen { underline: true, ..pen }
    } else if p == 7 {
        Pen { inverse: true, ..pen }
    } else if p == 9 {
        Pen { strikeout: true, ..pen }
    } else if p == 22 {
        Pen { bold: false, ..pen }
    } else if p == 23 {
        Pen { italic: false, ..pen }
    } else if p == 24 {
        Pen { underline: false, ..pen }
    } else if p == 27 {
        Pen { inverse: false, ..pen }
    } else if p == 29 {
        Pen { strikeout: false, ..pen }
    } else if 30 <= p && p <= 37 {
        Pen { fg: Color::Indexed((p - 30) as u8), ..pen }
    } else if p == 39 {
        Pen { fg: Color::Default, ..pen }
    } else if 40 <= p && p <= 47 {
        Pen { bg: Color::Indexed((p - 40) as u8), ..pen }
    } else if p == 49 {
        Pen { bg: Color::Default, ..pen }
    } else if 90 <= p && p <= 97 {
        Pen { fg: Color::Indexed((p - 82) as u8), ..pen }
    } else if 100 <= p && p <= 107 {
        Pen { bg: Color::Indexed((p - 92) as u8), ..pen }
    } else {
        pen
    }
}

} // verus!
