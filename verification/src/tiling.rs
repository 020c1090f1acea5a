//! The areas of the cells tile the table: the cells of a row stand side by
//! side from left to right, the rows below one another from top to bottom,
//! and no two areas share space.

use crate::cell::LayoutOp;
use crate::grid::{
    column_at, column_count, lemma_column_in_grid, lemma_cursor_bounds, lemma_grid_grows,
    lemma_row_in_grid, row_at, row_count,
};
use crate::impose::{column_widths, lemma_lines_not_negative, row_heights};
use crate::place::{allotted, area_of, pen_x, pen_y};
use crate::scalar::sat_add;
use vstd::prelude::*;

verus! {

/// Whether there is one size for each of `count` lines, and none is
/// negative.
pub open spec fn settled(sizes: Seq<i64>, count: int) -> bool {
    &&& sizes.len() == count
    &&& forall|i: int| 0 <= i < count ==> 0 <= #[trigger] sizes[i]
}

/// Columns that are not negative are not negative together.
pub proof fn lemma_allotted_not_negative(widths: Seq<i64>, first: int, count: int)
    requires
        0 <= first,
        first + count <= widths.len(),
        settled(widths, widths.len() as int),
    ensures
        0 <= allotted(widths, first, count),
    decreases count,
{
    if count > 0 {
        lemma_allotted_not_negative(widths, first, count - 1);
    }
}

/// Within a row the steps move to the right, and down the program the steps
/// move downward: the end of a row moves down by the height of the row, and
/// nothing else moves up or down.
pub proof fn lemma_pen_moves_on(
    ops: Seq<LayoutOp>,
    widths: Seq<i64>,
    heights: Seq<i64>,
    i: int,
    j: int,
)
    requires
        0 <= i <= j <= ops.len(),
        settled(widths, column_count(ops)),
        settled(heights, row_count(ops)),
    ensures
        row_at(ops, i) <= row_at(ops, j),
        pen_y(ops, heights, i) <= pen_y(ops, heights, j),
        row_at(ops, i) == row_at(ops, j) ==> {
            &&& pen_x(ops, widths, i) <= pen_x(ops, widths, j)
            &&& pen_y(ops, heights, i) == pen_y(ops, heights, j)
        },
        row_at(ops, i) < row_at(ops, j) ==> sat_add(
            pen_y(ops, heights, i),
            heights[row_at(ops, i)],
        ) <= pen_y(ops, heights, j),
    decreases j - i,
{
    if i < j {
        lemma_pen_moves_on(ops, widths, heights, i, j - 1);
        if ops[j - 1] is Row {
            lemma_row_in_grid(ops, j - 1);
        } else {
            lemma_column_in_grid(ops, j - 1);
            lemma_column_in_grid(ops, j);
            lemma_allotted_not_negative(widths, column_at(ops, j - 1), ops[j - 1].span());
        }
    }
}

/// The areas of two cells do not overlap. Of two cells in one row, the
/// earlier one ends at its right edge before the later one begins; of two
/// cells in different rows, the upper one ends at its bottom edge before the
/// lower one begins. This holds of every program, width and height.
pub proof fn lemma_areas_do_not_overlap(
    ops: Seq<LayoutOp>,
    width: i64,
    height: i64,
    i: int,
    j: int,
)
    requires
        0 <= i < j < ops.len(),
        ops[i].occupies(),
        ops[j].occupies(),
    ensures
        ({
            let widths = column_widths(ops, width);
            let heights = row_heights(ops, height);
            let first = area_of(ops, widths, heights, i);
            &&& 0 <= first.width
            &&& 0 <= first.height
            &&& row_at(ops, i) <= row_at(ops, j)
            &&& row_at(ops, i) == row_at(ops, j) ==> sat_add(pen_x(ops, widths, i), first.width)
                <= pen_x(ops, widths, j)
            &&& row_at(ops, i) < row_at(ops, j) ==> sat_add(pen_y(ops, heights, i), first.height)
                <= pen_y(ops, heights, j)
        }),
{
    let widths = column_widths(ops, width);
    let heights = row_heights(ops, height);
    lemma_lines_not_negative(ops, width, height);
    lemma_pen_moves_on(ops, widths, heights, i + 1, j);
    lemma_row_in_grid(ops, i);
    lemma_column_in_grid(ops, i);
    lemma_column_in_grid(ops, i + 1);
    lemma_allotted_not_negative(widths, column_at(ops, i), ops[i].span());
}

} // verus!
