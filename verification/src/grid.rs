//! The grid that a layout program describes: where each step of the program
//! stands, and how many rows and columns the program needs.

use crate::cell::LayoutOp;
use vstd::prelude::*;

verus! {

/// The most rows and the most columns a grid can have.
pub const GRID_LIMIT: u8 = 255;

impl LayoutOp {
    /// How many columns the step occupies.
    pub open spec fn span(self) -> int {
        match self {
            LayoutOp::Cell(cell) => cell.colspan as int,
            LayoutOp::Row => 0,
        }
    }

    /// Whether the step is a cell that takes part in the layout.
    pub open spec fn occupies(self) -> bool {
        self.span() > 0
    }
}

/// How many rows the first `n` steps have ended.
pub open spec fn row_at(ops: Seq<LayoutOp>, n: int) -> int
    decreases n,
{
    if n <= 0 {
        0
    } else if ops[n - 1] is Row {
        row_at(ops, n - 1) + 1
    } else {
        row_at(ops, n - 1)
    }
}

/// How many columns of the current row the first `n` steps have occupied.
pub open spec fn column_at(ops: Seq<LayoutOp>, n: int) -> int
    decreases n,
{
    if n <= 0 {
        0
    } else if ops[n - 1] is Row {
        0
    } else {
        column_at(ops, n - 1) + ops[n - 1].span()
    }
}

/// The most columns that any row has occupied within the first `n` steps.
pub open spec fn widest_row(ops: Seq<LayoutOp>, n: int) -> int
    decreases n,
{
    if n <= 0 {
        0
    } else if widest_row(ops, n - 1) >= column_at(ops, n) {
        widest_row(ops, n - 1)
    } else {
        column_at(ops, n)
    }
}

/// The number of rows of the grid: the rows that were ended, and one more for
/// a last row that holds a column and was not ended.
pub open spec fn row_count(ops: Seq<LayoutOp>) -> int {
    if column_at(ops, ops.len() as int) > 0 {
        row_at(ops, ops.len() as int) + 1
    } else {
        row_at(ops, ops.len() as int)
    }
}

/// The number of columns of the grid: those of its widest row.
pub open spec fn column_count(ops: Seq<LayoutOp>) -> int {
    widest_row(ops, ops.len() as int)
}

/// Whether the grid has no more rows and no more columns than the limit.
pub open spec fn fits_grid(ops: Seq<LayoutOp>) -> bool {
    row_count(ops) <= GRID_LIMIT && column_count(ops) <= GRID_LIMIT
}

/// Whether step `i` is a cell that occupies column `c`.
pub open spec fn covers(ops: Seq<LayoutOp>, i: int, c: int) -> bool {
    ops[i] is Cell && column_at(ops, i) <= c < column_at(ops, i + 1)
}

/// Rows and columns are counted from zero upwards.
pub proof fn lemma_cursor_bounds(ops: Seq<LayoutOp>, n: int)
    ensures
        0 <= row_at(ops, n),
        0 <= column_at(ops, n) <= widest_row(ops, n),
        n >= 0 ==> row_at(ops, n) <= n,
    decreases n,
{
    if n > 0 {
        lemma_cursor_bounds(ops, n - 1);
    }
}

/// A longer part of the program has ended no fewer rows, and its widest row
/// is no narrower.
pub proof fn lemma_grid_grows(ops: Seq<LayoutOp>, m: int, n: int)
    requires
        m <= n,
    ensures
        row_at(ops, m) <= row_at(ops, n),
        widest_row(ops, m) <= widest_row(ops, n),
    decreases n - m,
{
    if m < n {
        lemma_grid_grows(ops, m, n - 1);
    }
}

/// No step reaches beyond the last column of the grid.
pub proof fn lemma_column_in_grid(ops: Seq<LayoutOp>, n: int)
    requires
        0 <= n <= ops.len(),
    ensures
        0 <= column_at(ops, n) <= column_count(ops),
{
    lemma_cursor_bounds(ops, n);
    lemma_grid_grows(ops, n, ops.len() as int);
}

/// After a cell that occupies a column, each longer part of the program has
/// either ended the cell's row or still holds a column in it.
proof fn lemma_row_is_counted(ops: Seq<LayoutOp>, i: int, n: int)
    requires
        0 <= i < n <= ops.len(),
        ops[i].occupies(),
    ensures
        row_at(ops, n) > row_at(ops, i) || (row_at(ops, n) == row_at(ops, i) && column_at(ops, n)
            > 0),
    decreases n - i,
{
    lemma_cursor_bounds(ops, n - 1);
    if n - 1 > i {
        lemma_row_is_counted(ops, i, n - 1);
    }
}

/// Every cell that occupies a column, and every step that ends a row, stands
/// in a row of the grid.
pub proof fn lemma_row_in_grid(ops: Seq<LayoutOp>, i: int)
    requires
        0 <= i < ops.len(),
        ops[i].occupies() || ops[i] is Row,
    ensures
        0 <= row_at(ops, i) < row_count(ops),
{
    lemma_cursor_bounds(ops, i);
    if ops[i] is Row {
        lemma_grid_grows(ops, i + 1, ops.len() as int);
    } else {
        lemma_row_is_counted(ops, i, ops.len() as int);
    }
}

/// In a grid without columns no cell occupies a column.
pub proof fn lemma_no_columns(ops: Seq<LayoutOp>, i: int)
    requires
        column_count(ops) == 0,
        0 <= i < ops.len(),
    ensures
        !ops[i].occupies(),
{
    lemma_column_in_grid(ops, i);
    lemma_column_in_grid(ops, i + 1);
}

} // verus!
