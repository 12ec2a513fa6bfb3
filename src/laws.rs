use vstd::prelude::*;
use crate::ansi::ClearMode;
use crate::cell::{blank_cell, Cell};
use crate::grid::blank_line;
use crate::mode::Mode;
use crate::parser::feed_spec;
use crate::term::{ParseState, TermView};

verus! {

/// The state after feeding each chunk of `chunks` in turn.
pub open spec fn feed_chunks(s: TermView, chunks: Seq<Seq<u8>>) -> TermView
    decreases chunks.len(),
{
    if chunks.len() == 0 {
        s
    } else {
        feed_chunks(feed_spec(s, chunks[0]), chunks.drop_first())
    }
}

/// Feeding `a` and then `b` gives the state that feeding `a + b` at once gives.
pub proof fn lemma_feed_split(s: TermView, a: Seq<u8>, b: Seq<u8>)
    ensures
        feed_spec(s, a + b) == feed_spec(feed_spec(s, a), b),
    decreases b.len(),
{
    if b.len() == 0 {
        assert(a + b =~= a);
    } else {
        assert((a + b).drop_last() =~= a + b.drop_last());
        assert((a + b).last() == b.last());
        lemma_feed_split(s, a, b.drop_last());
    }
}

/// However a byte stream is cut into chunks, feeding the chunks one after another
/// ends in the state that feeding the whole stream in one call ends in.
pub proof fn lemma_feed_chunks(s: TermView, chunks: Seq<Seq<u8>>)
    ensures
        feed_chunks(s, chunks) == feed_spec(s, chunks.flatten()),
    decreases chunks.len(),
{
    if chunks.len() == 0 {
        assert(chunks.flatten() =~= Seq::<u8>::empty());
    } else {
        lemma_feed_chunks(feed_spec(s, chunks[0]), chunks.drop_first());
        lemma_feed_split(s, chunks[0], chunks.drop_first().flatten());
        assert(chunks.flatten() == chunks[0] + chunks.drop_first().flatten());
    }
}

/// After clearing the whole screen, a write leaves every cell blank but the one it wrote.
pub proof fn lemma_clear_all_then_write(s: TermView, ch: char)
    requires
        s.wf(),
    ensures
        ({
            let t = s.clear_screen(ClearMode::All);
            let u = t.put(ch);
            let (r0, c0) = t.write_target();
            forall|r: int, c: int|
                0 <= r < s.rows && 0 <= c < s.cols && (r != r0 || c != c0) ==> #[trigger] u.at(r, c)
                    == blank_cell()
        }),
{
    let t = s.clear_screen(ClearMode::All);
    let cols = s.cols as nat;
    assert forall|i: int| 0 <= i < t.grid.len() implies #[trigger] t.grid[i] == blank_line(cols) by {}
    let w = t.wrapped();
    assert forall|i: int| 0 <= i < w.grid.len() implies #[trigger] w.grid[i] == blank_line(cols) by {}
    assert(w.grid.len() == s.rows);
}

/// With a full-height scroll region on the primary screen, a line feed on the
/// bottom row moves every row up by one and archives the top row, dropping the
/// oldest archived row once the cap is reached.
pub proof fn lemma_scroll_full_region(s: TermView)
    requires
        s.wf(),
        s.top == 0,
        s.bottom + 1 == s.rows,
        s.cursor.row == s.bottom,
        !s.modes.alt_screen,
    ensures
        ({
            let t = s.linefeed();
            &&& t.grid == s.grid.drop_first().push(blank_line(s.cols as nat))
            &&& s.scrollback.len() < s.scrollback_cap ==> t.scrollback == s.scrollback.push(s.grid[0])
            &&& s.scrollback.len() == s.scrollback_cap > 0 ==> t.scrollback
                == s.scrollback.drop_first().push(s.grid[0])
            &&& t.scrollback.len() as int == if s.scrollback.len() < s.scrollback_cap {
                s.scrollback.len() + 1 as int
            } else {
                s.scrollback.len() as int
            }
        }),
{
    let t = s.linefeed();
    assert(t.grid =~= s.grid.drop_first().push(blank_line(s.cols as nat)));
}

/// A byte other than escape, fed in the ground state while the alternate screen is
/// shown, leaves the kept primary grid and cursor alone.
proof fn lemma_step_keeps_primary(s: TermView, b: u8)
    requires
        s.state == ParseState::Ground,
        s.modes.alt_screen,
        b != 0x1b,
    ensures
        s.step(b).state == ParseState::Ground,
        s.step(b).modes.alt_screen,
        s.step(b).other == s.other,
        s.step(b).alt_cursor == s.alt_cursor,
{
}

proof fn lemma_feed_keeps_primary(s: TermView, text: Seq<u8>)
    requires
        s.state == ParseState::Ground,
        s.modes.alt_screen,
        forall|i: int| 0 <= i < text.len() ==> text[i] != 0x1b,
    ensures
        feed_spec(s, text).state == ParseState::Ground,
        feed_spec(s, text).modes.alt_screen,
        feed_spec(s, text).other == s.other,
        feed_spec(s, text).alt_cursor == s.alt_cursor,
    decreases text.len(),
{
    if text.len() > 0 {
        lemma_feed_keeps_primary(s, text.drop_last());
        lemma_step_keeps_primary(feed_spec(s, text.drop_last()), text.last());
    }
}

/// Switching to the alternate screen, writing any bytes that hold no escape, and
/// switching back restores the primary grid and cursor exactly.
pub proof fn lemma_alt_screen_round_trip(s: TermView, text: Seq<u8>)
    requires
        s.state == ParseState::Ground,
        !s.modes.alt_screen,
        forall|i: int| 0 <= i < text.len() ==> text[i] != 0x1b,
    ensures
        ({
            let t = s.set_mode(Mode::AltScreen, true);
            let u = feed_spec(t, text);
            let v = u.set_mode(Mode::AltScreen, false);
            &&& v.grid == s.grid
            &&& v.cursor == s.cursor
            &&& !v.modes.alt_screen
        }),
{
    let t = s.set_mode(Mode::AltScreen, true);
    lemma_feed_keeps_primary(t, text);
}

/// The cell that printable byte `b` becomes when written with the pen and
/// charsets of `s`.
pub open spec fn cell_of(s: TermView, b: u8) -> Cell {
    Cell { c: s.charsets.spec_translate(b), pen: s.cursor.pen }
}

/// The conditions under which a row is filled from its first column by printable bytes.
pub open spec fn fill_ready(s: TermView, text: Seq<u8>) -> bool {
    &&& s.wf()
    &&& s.state == ParseState::Ground
    &&& s.modes.autowrap
    &&& !s.modes.insert
    &&& s.cursor.col == 0
    &&& !s.cursor.pending_wrap
    &&& forall|i: int| 0 <= i < text.len() ==> 0x20 <= #[trigger] text[i] < 0x7f
}

proof fn lemma_step_prints(u: TermView, b: u8)
    requires
        u.state == ParseState::Ground,
        0x20 <= b < 0x7f,
    ensures
        u.step(b) == u.print(b),
{
}

#[verifier::rlimit(80)]
proof fn lemma_fill_row(s: TermView, text: Seq<u8>, k: int)
    requires
        fill_ready(s, text),
        text.len() >= s.cols,
        0 <= k <= s.cols,
    ensures
        ({
            let u = feed_spec(s, text.take(k));
            let r = s.cursor.row as int;
            &&& u.rows == s.rows && u.cols == s.cols && u.top == s.top && u.bottom == s.bottom
            &&& u.state == ParseState::Ground
            &&& u.modes == s.modes
            &&& u.charsets == s.charsets
            &&& u.cursor.pen == s.cursor.pen
            &&& u.cursor.row == s.cursor.row
            &&& u.cursor.col == if k < s.cols {
                k
            } else {
                s.cols - 1
            }
            &&& u.cursor.pending_wrap == (k == s.cols)
            &&& u.grid.len() == s.grid.len()
            &&& forall|i: int| 0 <= i < u.grid.len() && i != r ==> #[trigger] u.grid[i] == s.grid[i]
            &&& u.grid[r] == Seq::new(
                s.cols as nat,
                |j: int|
                    if j < k {
                        cell_of(s, text[j])
                    } else {
                        s.grid[r][j]
                    },
            )
        }),
    decreases k,
{
    let r = s.cursor.row as int;
    if k == 0 {
        assert(text.take(0) =~= Seq::<u8>::empty());
        assert(s.grid[r] =~= Seq::new(s.cols as nat, |j: int| s.grid[r][j]));
    } else {
        lemma_fill_row(s, text, k - 1);
        assert(text.take(k).drop_last() =~= text.take(k - 1));
        let u = feed_spec(s, text.take(k - 1));
        assert(text.take(k).last() == text[k - 1]);
        lemma_step_prints(u, text[k - 1]);
        let v = u.print(text[k - 1]);
        assert(v.grid[r] =~= Seq::new(
            s.cols as nat,
            |j: int|
                if j < k {
                    cell_of(s, text[j])
                } else {
                    s.grid[r][j]
                },
        ));
    }
}

/// Writing a full row of printable bytes from the first column with autowrap on,
/// then one more, puts the extra byte at the start of the next row and keeps the
/// full row intact.
pub proof fn lemma_autowrap(s: TermView, text: Seq<u8>)
    requires
        fill_ready(s, text),
        text.len() == s.cols + 1,
        s.cursor.row != s.bottom,
        s.cursor.row + 1 < s.rows,
    ensures
        ({
            let u = feed_spec(s, text);
            let r = s.cursor.row as int;
            &&& u.at(r + 1, 0) == cell_of(s, text[s.cols as int])
            &&& u.grid[r] == Seq::new(s.cols as nat, |j: int| cell_of(s, text[j]))
            &&& u.cursor.row == r + 1
            &&& u.cursor.col == if s.cols > 1 {
                1int
            } else {
                0int
            }
        }),
{
    let r = s.cursor.row as int;
    let n = s.cols as int;
    lemma_fill_row(s, text, n);
    assert(text.drop_last() =~= text.take(n));
    let u = feed_spec(s, text.take(n));
    let v = u.step(text.last());
    assert(v == u.print(text.last()));
    assert(feed_spec(s, text) == v);
    assert(u.grid[r] =~= Seq::new(s.cols as nat, |j: int| cell_of(s, text[j])));
}

} // verus!
