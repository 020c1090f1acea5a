//! What a table with room enough gives its cells: where the preferred sizes
//! of the columns fit into the width, a cell that does not fill keeps its
//! preferred width, short of what is lost to rounding when its width is
//! divided among several columns.

use crate::cell::LayoutOp;
use crate::distribute::{leftover, lemma_roomy_keeps_preferred};
use crate::flags::{FILL_HORIZONTAL, FILL_VERTICAL};
use crate::grid::{
    column_at, column_count, lemma_column_in_grid, lemma_cursor_bounds, lemma_row_in_grid, row_at,
    row_count,
};
use crate::impose::{
    column_widths, least_heights, least_widths, preferred_heights, preferred_widths, row_heights,
};
use crate::measure::{
    column_demands, expanding_columns, expanding_rows, lemma_column_demand_covers,
    lemma_row_demand_covers, row_demands,
};
use crate::place::{allotted, placement_of};
use vstd::arithmetic::div_mod::{lemma_fundamental_div_mod, lemma_mod_bound};
use vstd::prelude::*;

verus! {

/// The width that is left once every column has its preferred width.
pub open spec fn spare_width(ops: Seq<LayoutOp>, width: i64) -> i64 {
    leftover(width, preferred_widths(column_demands(ops)), column_count(ops))
}

/// The height that is left once every row has its preferred height.
pub open spec fn spare_height(ops: Seq<LayoutOp>, height: i64) -> i64 {
    leftover(height, preferred_heights(row_demands(ops)), row_count(ops))
}

/// Columns that are each at least `each` wide are together at least as wide
/// as that many times `each`.
proof fn lemma_allotted_at_least(widths: Seq<i64>, first: int, count: int, each: int)
    requires
        0 <= first,
        0 <= count,
        first + count <= widths.len(),
        0 <= each,
        count * each <= i64::MAX,
        forall|c: int| first <= c < first + count ==> each <= #[trigger] widths[c],
    ensures
        count * each <= allotted(widths, first, count),
    decreases count,
{
    if count > 0 {
        assert(count * each == (count - 1) * each + each) by (nonlinear_arith);
        assert(0 <= (count - 1) * each) by (nonlinear_arith)
            requires
                0 <= count - 1,
                0 <= each,
        ;
        lemma_allotted_at_least(widths, first, count - 1, each);
    }
}

/// In a table that is wide enough for the preferred widths of its columns,
/// a cell that does not fill keeps its preferred width. Where the cell spans
/// several columns, its padded width is divided among them rounding toward
/// zero, so that up to one unit for each column but one can be missing.
pub proof fn lemma_preferred_width_is_kept(
    ops: Seq<LayoutOp>,
    width: i64,
    height: i64,
    i: int,
)
    requires
        0 <= i < ops.len(),
        ops[i].occupies(),
        spare_width(ops, width) >= 0,
        !ops[i].cell().wants(FILL_HORIZONTAL),
        0 <= ops[i].cell().padding.left,
        0 <= ops[i].cell().padding.right,
        0 <= ops[i].cell().size.preferred.width,
        ops[i].cell().size.preferred.width + ops[i].cell().padding.left + ops[i].cell().padding.right
            <= i64::MAX,
    ensures
        ({
            let placed = placement_of(ops, column_widths(ops, width), row_heights(ops, height), i);
            let cell = ops[i].cell();
            cell.size.preferred.width - (cell.colspan - 1) <= placed.width
                <= cell.size.preferred.width
        }),
{
    let n = ops.len() as int;
    let cell = ops[i].cell();
    let span = cell.colspan as int;
    let padded = cell.size.preferred.width + cell.padding.left + cell.padding.right;
    let each = padded / span;
    let widths = column_widths(ops, width);
    let first = column_at(ops, i);
    lemma_column_in_grid(ops, i);
    lemma_column_in_grid(ops, i + 1);
    lemma_fundamental_div_mod(padded, span);
    lemma_mod_bound(padded, span);
    assert(0 <= each && span * each <= padded) by (nonlinear_arith)
        requires
            padded == span * each + padded % span,
            0 <= padded % span < span,
            0 <= padded,
            0 < span,
    ;
    assert forall|c: int| first <= c < first + span implies each <= #[trigger] widths[c] by {
        lemma_column_demand_covers(ops, n, i, c);
        lemma_roomy_keeps_preferred(
            width,
            preferred_widths(column_demands(ops)),
            least_widths(column_demands(ops)),
            expanding_columns(ops),
            c,
        );
    }
    lemma_allotted_at_least(widths, first, span, each);
}

/// In a table that is high enough for the preferred heights of its rows, a
/// cell that does not fill keeps its preferred height, less its padding
/// above and below: a row is asked for the height of its cells without
/// their padding.
pub proof fn lemma_preferred_height_is_kept(
    ops: Seq<LayoutOp>,
    width: i64,
    height: i64,
    i: int,
)
    requires
        0 <= i < ops.len(),
        ops[i].occupies(),
        spare_height(ops, height) >= 0,
        !ops[i].cell().wants(FILL_VERTICAL),
        0 <= ops[i].cell().padding.top,
        0 <= ops[i].cell().padding.bottom,
        0 <= ops[i].cell().size.preferred.height,
        ops[i].cell().padding.top + ops[i].cell().padding.bottom <= i64::MAX,
    ensures
        ({
            let placed = placement_of(ops, column_widths(ops, width), row_heights(ops, height), i);
            let cell = ops[i].cell();
            cell.size.preferred.height - (cell.padding.top + cell.padding.bottom) <= placed.height
                <= cell.size.preferred.height
        }),
{
    let n = ops.len() as int;
    lemma_row_in_grid(ops, i);
    lemma_row_demand_covers(ops, n, i);
    lemma_roomy_keeps_preferred(
        height,
        preferred_heights(row_demands(ops)),
        least_heights(row_demands(ops)),
        expanding_rows(ops),
        row_at(ops, i),
    );
}

} // verus!
