//! The third pass of a layout: with the width of every column and the height
//! of every row settled, each cell gets its area and fits its box into it.

use crate::cell::LayoutOp;
use crate::geometry::Size;
use crate::grid::{
    column_at, column_count, fits_grid, lemma_column_in_grid, lemma_cursor_bounds,
    lemma_no_columns, lemma_row_in_grid, row_at, row_count, GRID_LIMIT,
};
use crate::scalar::sat_add;
use crate::table::TableLayout;
use vstd::prelude::*;

verus! {

/// Where the box of one cell goes.
#[derive(Clone, Copy, Debug, PartialEq, Eq, Structural)]
pub struct Placement {
    /// The position of the cell's step in the program.
    pub cell: usize,
    /// The left edge of the box, from the left edge of the table.
    pub x: i64,
    /// The top edge of the box, from the top edge of the table.
    pub y: i64,
    /// The width of the box.
    pub width: i64,
    /// The height of the box.
    pub height: i64,
}

/// The width of `count` columns together, from column `first` on.
pub open spec fn allotted(widths: Seq<i64>, first: int, count: int) -> i64
    decreases count,
{
    if count <= 0 {
        0
    } else {
        sat_add(allotted(widths, first, count - 1), widths[first + count - 1])
    }
}

/// How far from the left edge of the table the first `n` steps have got: a
/// cell moves on by the whole width of its columns, whatever its box takes
/// of them, and the end of a row goes back to the left edge.
pub open spec fn pen_x(ops: Seq<LayoutOp>, widths: Seq<i64>, n: int) -> i64
    decreases n,
{
    if n <= 0 {
        0
    } else if ops[n - 1] is Row {
        0
    } else {
        sat_add(
            pen_x(ops, widths, n - 1),
            allotted(widths, column_at(ops, n - 1), ops[n - 1].span()),
        )
    }
}

/// How far from the top edge of the table the first `n` steps have got: the
/// end of a row moves on by the height of that row.
pub open spec fn pen_y(ops: Seq<LayoutOp>, heights: Seq<i64>, n: int) -> i64
    decreases n,
{
    if n <= 0 {
        0
    } else if ops[n - 1] is Row {
        sat_add(pen_y(ops, heights, n - 1), heights[row_at(ops, n - 1)])
    } else {
        pen_y(ops, heights, n - 1)
    }
}

/// The area of the cell at step `i`: as wide as its columns together, as
/// high as its row.
pub open spec fn area_of(ops: Seq<LayoutOp>, widths: Seq<i64>, heights: Seq<i64>, i: int) -> Size {
    Size {
        width: allotted(widths, column_at(ops, i), ops[i].span()),
        height: heights[row_at(ops, i)],
    }
}

/// Where the box of the cell at step `i` goes: fitted into the cell's area,
/// and moved to where that area lies in the table.
pub open spec fn placement_of(
    ops: Seq<LayoutOp>,
    widths: Seq<i64>,
    heights: Seq<i64>,
    i: int,
) -> Placement {
    let cell = ops[i].cell();
    let fitted = cell.size.box_fit(&area_of(ops, widths, heights, i), &cell);
    Placement {
        cell: i as usize,
        x: sat_add(pen_x(ops, widths, i), fitted.0),
        y: sat_add(pen_y(ops, heights, i), fitted.1),
        width: fitted.2,
        height: fitted.3,
    }
}

/// The placements of the cells among the first `n` steps, in the order of
/// the program. A cell that spans no column gets none.
pub open spec fn placements(
    ops: Seq<LayoutOp>,
    widths: Seq<i64>,
    heights: Seq<i64>,
    n: int,
) -> Seq<Placement>
    decreases n,
{
    if n <= 0 {
        Seq::empty()
    } else if ops[n - 1].occupies() {
        placements(ops, widths, heights, n - 1).push(placement_of(ops, widths, heights, n - 1))
    } else {
        placements(ops, widths, heights, n - 1)
    }
}

/// A grid without columns places nothing.
pub proof fn lemma_no_columns_no_placements(
    ops: Seq<LayoutOp>,
    widths: Seq<i64>,
    heights: Seq<i64>,
    n: int,
)
    requires
        column_count(ops) == 0,
        n <= ops.len(),
    ensures
        placements(ops, widths, heights, n).len() == 0,
    decreases n,
{
    if n > 0 {
        lemma_no_columns(ops, n - 1);
        lemma_no_columns_no_placements(ops, widths, heights, n - 1);
    }
}

/// Every cell that occupies a column is placed once, and nothing else is.
pub proof fn lemma_placements_len(
    ops: Seq<LayoutOp>,
    widths: Seq<i64>,
    heights: Seq<i64>,
    n: int,
)
    requires
        0 <= n <= ops.len(),
    ensures
        placements(ops, widths, heights, n).len() == ops.take(n).filter(
            |op: LayoutOp| op.occupies(),
        ).len(),
    decreases n,
{
    reveal(Seq::filter);
    if n > 0 {
        lemma_placements_len(ops, widths, heights, n - 1);
        assert(ops.take(n).drop_last() =~= ops.take(n - 1));
    }
}

impl TableLayout {
    /// Places every cell, given the width of each column and the height of
    /// each row.
    pub fn place(&self, widths: &Vec<i64>, heights: &Vec<i64>) -> (placed: Vec<Placement>)
        requires
            self.fits(),
            widths@.len() == column_count(self.opcodes@),
            heights@.len() == row_count(self.opcodes@),
        ensures
            placed@ == placements(self.opcodes@, widths@, heights@, self.opcodes@.len() as int),
    {
        let ghost ops = self.opcodes@;
        let mut placed: Vec<Placement> = Vec::new();
        let mut x: i64 = 0;
        let mut y: i64 = 0;
        let mut row: u8 = 0;
        let mut col: u8 = 0;
        let mut i: usize = 0;
        while i < self.opcodes.len()
            invariant
                ops == self.opcodes@,
                fits_grid(ops),
                widths@.len() == column_count(ops),
                heights@.len() == row_count(ops),
                i <= ops.len(),
                row == row_at(ops, i as int),
                col == column_at(ops, i as int),
                x == pen_x(ops, widths@, i as int),
                y == pen_y(ops, heights@, i as int),
                placed@ == placements(ops, widths@, heights@, i as int),
            decreases ops.len() - i,
        {
            proof {
                lemma_column_in_grid(ops, i + 1);
            }
            match &self.opcodes[i] {
                LayoutOp::Cell(cp) => {
                    if cp.colspan != 0 {
                        proof {
                            lemma_row_in_grid(ops, i as int);
                        }
                        let height: i64 = heights[row as usize];
                        let ghost first = col as int;
                        let mut width: i64 = 0;
                        let mut k: u8 = 0;
                        while k < cp.colspan
                            invariant
                                0 <= first,
                                first + cp.colspan <= widths@.len() <= GRID_LIMIT,
                                k <= cp.colspan,
                                col == first + k,
                                width == allotted(widths@, first, k as int),
                            decreases cp.colspan - k,
                        {
                            width = sat_add(width, widths[col as usize]);
                            col = col + 1;
                            k = k + 1;
                        }
                        let area = Size { width, height };
                        let (bx, by, bw, bh) = cp.size.box_fit(&area, cp);
                        placed.push(
                            Placement {
                                cell: i,
                                x: sat_add(x, bx),
                                y: sat_add(y, by),
                                width: bw,
                                height: bh,
                            },
                        );
                        x = sat_add(x, width);
                    }
                },
                LayoutOp::Row => {
                    proof {
                        lemma_row_in_grid(ops, i as int);
                    }
                    x = 0;
                    y = sat_add(y, heights[row as usize]);
                    row = row + 1;
                    col = 0;
                },
            }
            i = i + 1;
        }
        placed
    }
}

} // verus!
