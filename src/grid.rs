use vstd::prelude::*;
use crate::cell::{blank_cell, Cell};

verus! {

/// The contents of a grid held as rows of cells.
pub open spec fn lines(g: Seq<Vec<Cell>>) -> Seq<Seq<Cell>> {
    g.map_values(|v: Vec<Cell>| v@)
}

/// A row of `n` empty cells.
pub open spec fn blank_line(n: nat) -> Seq<Cell> {
    Seq::new(n, |_i: int| blank_cell())
}

/// `rows` rows of `cols` empty cells.
pub open spec fn blank_grid(rows: nat, cols: nat) -> Seq<Seq<Cell>> {
    Seq::new(rows, |_i: int| blank_line(cols))
}

/// Every row of `g` has exactly `cols` cells.
pub open spec fn rectangular(g: Seq<Seq<Cell>>, cols: nat) -> bool {
    forall|i: int| 0 <= i < g.len() ==> (#[trigger] g[i]).len() == cols
}

/// `line` with the cells of `[from, to)` blanked.
pub open spec fn blank_span(line: Seq<Cell>, from: int, to: int) -> Seq<Cell> {
    Seq::new(line.len(), |i: int| if from <= i < to { blank_cell() } else { line[i] })
}

/// `g` with the rows of `[from, to)` replaced by empty rows.
pub open spec fn blank_rows(g: Seq<Seq<Cell>>, from: int, to: int, cols: nat) -> Seq<Seq<Cell>> {
    Seq::new(g.len(), |i: int| if from <= i < to { blank_line(cols) } else { g[i] })
}

/// `line` with `cell` inserted at `col`, the last cell falling off the end.
pub open spec fn shift_in(line: Seq<Cell>, col: int, cell: Cell) -> Seq<Cell> {
    Seq::new(
        line.len(),
        |i: int|
            if i < col {
                line[i]
            } else if i == col {
                cell
            } else {
                line[i - 1]
            },
    )
}

/// Rows `[top, bottom]` moved up by one; `top` leaves, an empty row enters at `bottom`.
pub open spec fn scrolled_up(g: Seq<Seq<Cell>>, top: int, bottom: int, cols: nat) -> Seq<Seq<Cell>> {
    Seq::new(
        g.len(),
        |i: int|
            if top <= i < bottom {
                g[i + 1]
            } else if i == bottom {
                blank_line(cols)
            } else {
                g[i]
            },
    )
}

/// Rows `[top, bottom]` moved down by one; `bottom` leaves, an empty row enters at `top`.
pub open spec fn scrolled_down(g: Seq<Seq<Cell>>, top: int, bottom: int, cols: nat) -> Seq<Seq<Cell>> {
    Seq::new(
        g.len(),
        |i: int|
            if i == top {
                blank_line(cols)
            } else if top < i <= bottom {
                g[i - 1]
            } else {
                g[i]
            },
    )
}

pub fn new_line(cols: usize) -> (r: Vec<Cell>)
    ensures
        r@ == blank_line(cols as nat),
{
    let mut v: Vec<Cell> = Vec::new();
    let mut i: usize = 0;
    while i < cols
        invariant
            i <= cols,
            v@ == blank_line(i as nat),
        decreases cols - i,
    {
        v.push(Cell::blank());
        i += 1;
        assert(v@ =~= blank_line(i as nat));
    }
    v
}

pub fn new_grid(rows: usize, cols: usize) -> (g: Vec<Vec<Cell>>)
    ensures
        lines(g@) == blank_grid(rows as nat, cols as nat),
{
    let mut g: Vec<Vec<Cell>> = Vec::new();
    let mut i: usize = 0;
    while i < rows
        invariant
            i <= rows,
            g@.len() == i,
            forall|j: int| 0 <= j < i ==> (#[trigger] g@[j])@ == blank_line(cols as nat),
        decreases rows - i,
    {
        let line = new_line(cols);
        g.push(line);
        i += 1;
    }
    assert(lines(g@) =~= blank_grid(rows as nat, cols as nat));
    g
}

pub fn set_cell(g: &mut Vec<Vec<Cell>>, row: usize, col: usize, cell: Cell)
    requires
        row < old(g)@.len(),
        col < old(g)@[row as int]@.len(),
    ensures
        lines(final(g)@) == lines(old(g)@).update(
            row as int,
            lines(old(g)@)[row as int].update(col as int, cell),
        ),
{
    g[row].set(col, cell);
    assert(lines(g@) =~= lines(old(g)@).update(
        row as int,
        lines(old(g)@)[row as int].update(col as int, cell),
    ));
}

pub fn clear_span(g: &mut Vec<Vec<Cell>>, row: usize, from: usize, to: usize)
    requires
        row < old(g)@.len(),
        from <= to <= old(g)@[row as int]@.len(),
    ensures
        lines(final(g)@) == lines(old(g)@).update(
            row as int,
            blank_span(lines(old(g)@)[row as int], from as int, to as int),
        ),
{
    let mut i: usize = from;
    while i < to
        invariant
            from <= i <= to,
            to <= old(g)@[row as int]@.len(),
            row < old(g)@.len(),
            g@.len() == old(g)@.len(),
            forall|j: int| 0 <= j < g@.len() && j != row ==> g@[j] == old(g)@[j],
            g@[row as int]@ == blank_span(old(g)@[row as int]@, from as int, i as int),
        decreases to - i,
    {
        g[row].set(i, Cell::blank());
        i += 1;
        assert(g@[row as int]@ =~= blank_span(old(g)@[row as int]@, from as int, i as int));
    }
    assert(lines(g@) =~= lines(old(g)@).update(
        row as int,
        blank_span(lines(old(g)@)[row as int], from as int, to as int),
    ));
}

pub fn clear_rows(g: &mut Vec<Vec<Cell>>, from: usize, to: usize, cols: usize)
    requires
        from <= to <= old(g)@.len(),
    ensures
        lines(final(g)@) == blank_rows(lines(old(g)@), from as int, to as int, cols as nat),
{
    let mut i: usize = from;
    while i < to
        invariant
            from <= i <= to,
            to <= old(g)@.len(),
            g@.len() == old(g)@.len(),
            forall|j: int|
                0 <= j < g@.len() ==> (#[trigger] g@[j])@ == (if from <= j < i {
                    blank_line(cols as nat)
                } else {
                    old(g)@[j]@
                }),
        decreases to - i,
    {
        let line = new_line(cols);
        g.set(i, line);
        i += 1;
    }
    assert(lines(g@) =~= blank_rows(lines(old(g)@), from as int, to as int, cols as nat));
}

pub fn insert_cell(g: &mut Vec<Vec<Cell>>, row: usize, col: usize, cell: Cell)
    requires
        row < old(g)@.len(),
        col < old(g)@[row as int]@.len(),
    ensures
        lines(final(g)@) == lines(old(g)@).update(
            row as int,
            shift_in(lines(old(g)@)[row as int], col as int, cell),
        ),
{
    g[row].insert(col, cell);
    g[row].pop();
    assert(g@[row as int]@ =~= shift_in(old(g)@[row as int]@, col as int, cell));
    assert(lines(g@) =~= lines(old(g)@).update(
        row as int,
        shift_in(lines(old(g)@)[row as int], col as int, cell),
    ));
}

/// Scrolls rows `[top, bottom]` up by one and returns the row that left.
pub fn scroll_up(g: &mut Vec<Vec<Cell>>, top: usize, bottom: usize, cols: usize) -> (out: Vec<Cell>)
    requires
        top <= bottom < old(g)@.len(),
    ensures
        lines(final(g)@) == scrolled_up(lines(old(g)@), top as int, bottom as int, cols as nat),
        out@ == lines(old(g)@)[top as int],
{
    let out = g.remove(top);
    let line = new_line(cols);
    g.insert(bottom, line);
    assert(lines(g@) =~= scrolled_up(lines(old(g)@), top as int, bottom as int, cols as nat));
    out
}

/// Scrolls rows `[top, bottom]` down by one, dropping the row at `bottom`.
pub fn scroll_down(g: &mut Vec<Vec<Cell>>, top: usize, bottom: usize, cols: usize)
    requires
        top <= bottom < old(g)@.len(),
    ensures
        lines(final(g)@) == scrolled_down(lines(old(g)@), top as int, bottom as int, cols as nat),
{
    g.remove(bottom);
    let line = new_line(cols);
    g.insert(top, line);
    assert(lines(g@) =~= scrolled_down(lines(old(g)@), top as int, bottom as int, cols as nat));
}

} // verus!
