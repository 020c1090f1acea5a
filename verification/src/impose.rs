//! The layout itself: measure the program, fit the columns to the width and
//! the rows to the height, place every cell.

use crate::cell::LayoutOp;
use crate::distribute::{distribute, lemma_resolved_not_negative, resolved};
use crate::geometry::SizeGrouping;
use crate::grid::{column_count, lemma_cursor_bounds, row_count};
use crate::measure::{
    column_demands, expanding_columns, expanding_rows, lemma_demand_not_negative, row_demands,
};
use crate::place::{lemma_no_columns_no_placements, placements, Placement};
use crate::table::TableLayout;
use vstd::prelude::*;

verus! {

/// The preferred width of each line.
pub open spec fn preferred_widths(sizes: Seq<SizeGrouping>) -> Seq<i64> {
    Seq::new(sizes.len(), |i: int| sizes[i].preferred.width)
}

/// The least width of each line.
pub open spec fn least_widths(sizes: Seq<SizeGrouping>) -> Seq<i64> {
    Seq::new(sizes.len(), |i: int| sizes[i].minimum.width)
}

/// The preferred height of each line.
pub open spec fn preferred_heights(sizes: Seq<SizeGrouping>) -> Seq<i64> {
    Seq::new(sizes.len(), |i: int| sizes[i].preferred.height)
}

/// The least height of each line.
pub open spec fn least_heights(sizes: Seq<SizeGrouping>) -> Seq<i64> {
    Seq::new(sizes.len(), |i: int| sizes[i].minimum.height)
}

/// The width of every column of the program once the columns are fitted to
/// `width`.
pub open spec fn column_widths(ops: Seq<LayoutOp>, width: i64) -> Seq<i64> {
    resolved(
        width,
        preferred_widths(column_demands(ops)),
        least_widths(column_demands(ops)),
        expanding_columns(ops),
    )
}

/// The height of every row of the program once the rows are fitted to
/// `height`.
pub open spec fn row_heights(ops: Seq<LayoutOp>, height: i64) -> Seq<i64> {
    resolved(
        height,
        preferred_heights(row_demands(ops)),
        least_heights(row_demands(ops)),
        expanding_rows(ops),
    )
}

/// Where the cells of the program go in a table of the given width and
/// height.
pub open spec fn arrangement(ops: Seq<LayoutOp>, width: i64, height: i64) -> Seq<Placement> {
    placements(ops, column_widths(ops, width), row_heights(ops, height), ops.len() as int)
}

/// The preferred and the least width of each line.
fn widths_of(sizes: &Vec<SizeGrouping>) -> (lines: (Vec<i64>, Vec<i64>))
    ensures
        lines.0@ == preferred_widths(sizes@),
        lines.1@ == least_widths(sizes@),
{
    let mut preferred: Vec<i64> = Vec::new();
    let mut minimum: Vec<i64> = Vec::new();
    let mut i: usize = 0;
    while i < sizes.len()
        invariant
            i <= sizes@.len(),
            preferred@ == preferred_widths(sizes@).take(i as int),
            minimum@ == least_widths(sizes@).take(i as int),
        decreases sizes@.len() - i,
    {
        preferred.push(sizes[i].preferred.width);
        minimum.push(sizes[i].minimum.width);
        i = i + 1;
    }
    (preferred, minimum)
}

/// The preferred and the least height of each line.
fn heights_of(sizes: &Vec<SizeGrouping>) -> (lines: (Vec<i64>, Vec<i64>))
    ensures
        lines.0@ == preferred_heights(sizes@),
        lines.1@ == least_heights(sizes@),
{
    let mut preferred: Vec<i64> = Vec::new();
    let mut minimum: Vec<i64> = Vec::new();
    let mut i: usize = 0;
    while i < sizes.len()
        invariant
            i <= sizes@.len(),
            preferred@ == preferred_heights(sizes@).take(i as int),
            minimum@ == least_heights(sizes@).take(i as int),
        decreases sizes@.len() - i,
    {
        preferred.push(sizes[i].preferred.height);
        minimum.push(sizes[i].minimum.height);
        i = i + 1;
    }
    (preferred, minimum)
}

impl TableLayout {
    /// Where the cells of this table go at the given width and height.
    pub open spec fn arrangement(&self, width: i64, height: i64) -> Seq<Placement> {
        arrangement(self.opcodes@, width, height)
    }

    /// Lays the table out in the given width and height, and returns the box
    /// of every cell that occupies a column, in the order of the program. A
    /// table without columns places nothing.
    pub fn impose(&self, width: i64, height: i64) -> (placed: Vec<Placement>)
        requires
            self.fits(),
        ensures
            placed@ == self.arrangement(width, height),
            column_count(self.opcodes@) == 0 ==> placed@.len() == 0,
    {
        let ghost ops = self.opcodes@;
        let (_, total_cols) = self.get_rows_cols();
        if total_cols == 0 {
            proof {
                lemma_no_columns_no_placements(
                    ops,
                    column_widths(ops, width),
                    row_heights(ops, height),
                    ops.len() as int,
                );
            }
            return Vec::new();
        }
        let measured = self.measure();
        let (mut widths, least_widths) = widths_of(&measured.col_sizes);
        let (mut heights, least_heights) = heights_of(&measured.row_sizes);
        distribute(width, &mut widths, &least_widths, &measured.has_xexpand);
        distribute(height, &mut heights, &least_heights, &measured.has_yexpand);
        self.place(&widths, &heights)
    }
}

/// Whatever the program and however little space there is, every column and
/// every row of the grid gets a width or a height, and none that is
/// negative.
pub proof fn lemma_lines_not_negative(ops: Seq<LayoutOp>, width: i64, height: i64)
    ensures
        column_widths(ops, width).len() == column_count(ops),
        row_heights(ops, height).len() == row_count(ops),
        forall|c: int| 0 <= c < column_count(ops) ==> 0 <= #[trigger] column_widths(ops, width)[c],
        forall|r: int| 0 <= r < row_count(ops) ==> 0 <= #[trigger] row_heights(ops, height)[r],
{
    let n = ops.len() as int;
    lemma_cursor_bounds(ops, n);
    assert forall|c: int| 0 <= c < column_count(ops) implies 0 <= #[trigger] column_widths(
        ops,
        width,
    )[c] by {
        lemma_demand_not_negative(ops, n, c);
        lemma_resolved_not_negative(
            width,
            preferred_widths(column_demands(ops)),
            least_widths(column_demands(ops)),
            expanding_columns(ops),
            c,
        );
    }
    assert forall|r: int| 0 <= r < row_count(ops) implies 0 <= #[trigger] row_heights(
        ops,
        height,
    )[r] by {
        lemma_demand_not_negative(ops, n, r);
        lemma_resolved_not_negative(
            height,
            preferred_heights(row_demands(ops)),
            least_heights(row_demands(ops)),
            expanding_rows(ops),
            r,
        );
    }
}

/// Where the cells go depends on the program, the width and the height, and
/// on nothing else: two tables with the same program are laid out alike,
/// whatever their defaults are and wherever they expect the next cell.
pub proof fn lemma_same_program_same_arrangement(
    a: TableLayout,
    b: TableLayout,
    width: i64,
    height: i64,
)
    requires
        a.opcodes@ == b.opcodes@,
    ensures
        a.arrangement(width, height) == b.arrangement(width, height),
{
}

/// A table without columns places nothing, whatever the width and height.
pub proof fn lemma_no_columns_nothing_placed(table: TableLayout, width: i64, height: i64)
    requires
        column_count(table.opcodes@) == 0,
    ensures
        table.arrangement(width, height).len() == 0,
{
    let ops = table.opcodes@;
    lemma_no_columns_no_placements(
        ops,
        column_widths(ops, width),
        row_heights(ops, height),
        ops.len() as int,
    );
}

} // verus!
