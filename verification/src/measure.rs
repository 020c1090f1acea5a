//! The first pass of a layout: what every column and every row of the grid
//! is asked for by the cells that stand in it.

use crate::cell::{CellProperties, LayoutOp};
use crate::flags::{CellFlags, EXPAND_HORIZONTAL, EXPAND_VERTICAL};
use crate::geometry::SizeGrouping;
use crate::grid::{
    column_at, column_count, covers, fits_grid, lemma_column_in_grid, lemma_cursor_bounds,
    lemma_row_in_grid, row_at, row_count,
};
use crate::table::TableLayout;
use vstd::prelude::*;

verus! {

impl LayoutOp {
    /// The cell of a step that places one.
    pub open spec fn cell(self) -> CellProperties {
        match self {
            LayoutOp::Cell(cell) => cell,
            LayoutOp::Row => CellProperties::plain(),
        }
    }
}

/// What the first `n` steps ask of column `c`: the join of the column shares
/// of the cells that occupy it.
pub open spec fn column_demand(ops: Seq<LayoutOp>, n: int, c: int) -> SizeGrouping
    decreases n,
{
    if n <= 0 {
        SizeGrouping::unconstrained()
    } else if covers(ops, n - 1, c) {
        SizeGrouping::join(&column_demand(ops, n - 1, c), &ops[n - 1].cell().column_share())
    } else {
        column_demand(ops, n - 1, c)
    }
}

/// What the first `n` steps ask of row `r`: the join of the sizes of the
/// cells that stand in it and occupy a column. A cell asks its row for its
/// whole size, without padding, however many columns it spans.
pub open spec fn row_demand(ops: Seq<LayoutOp>, n: int, r: int) -> SizeGrouping
    decreases n,
{
    if n <= 0 {
        SizeGrouping::unconstrained()
    } else if ops[n - 1].occupies() && row_at(ops, n - 1) == r {
        SizeGrouping::join(&row_demand(ops, n - 1, r), &ops[n - 1].cell().size)
    } else {
        row_demand(ops, n - 1, r)
    }
}

/// Whether one of the first `n` steps is a cell that occupies column `c` and
/// expands horizontally.
pub open spec fn column_expands(ops: Seq<LayoutOp>, n: int, c: int) -> bool
    decreases n,
{
    if n <= 0 {
        false
    } else {
        column_expands(ops, n - 1, c) || (covers(ops, n - 1, c) && ops[n - 1].cell().wants(
            EXPAND_HORIZONTAL,
        ))
    }
}

/// Whether one of the first `n` steps is a cell that stands in row `r`,
/// occupies a column and expands vertically.
pub open spec fn row_expands(ops: Seq<LayoutOp>, n: int, r: int) -> bool
    decreases n,
{
    if n <= 0 {
        false
    } else {
        row_expands(ops, n - 1, r) || (ops[n - 1].occupies() && row_at(ops, n - 1) == r && ops[n
            - 1].cell().wants(EXPAND_VERTICAL))
    }
}

/// No line is asked for a negative least or preferred size: whatever the
/// cells ask for is joined with a demand of nothing.
pub proof fn lemma_demand_not_negative(ops: Seq<LayoutOp>, n: int, line: int)
    ensures
        0 <= column_demand(ops, n, line).minimum.width,
        0 <= column_demand(ops, n, line).preferred.width,
        0 <= row_demand(ops, n, line).minimum.height,
        0 <= row_demand(ops, n, line).preferred.height,
    decreases n,
{
    if n > 0 {
        lemma_demand_not_negative(ops, n - 1, line);
    }
}

/// A column is asked for all that each cell in it asks of it.
pub proof fn lemma_column_demand_covers(ops: Seq<LayoutOp>, n: int, i: int, c: int)
    requires
        0 <= i < n,
        covers(ops, i, c),
    ensures
        column_demand(ops, n, c).includes(ops[i].cell().column_share()),
    decreases n,
{
    if i < n - 1 {
        lemma_column_demand_covers(ops, n - 1, i, c);
    }
}

/// A row is asked for all that each cell in it asks for.
pub proof fn lemma_row_demand_covers(ops: Seq<LayoutOp>, n: int, i: int)
    requires
        0 <= i < n,
        ops[i].occupies(),
    ensures
        row_demand(ops, n, row_at(ops, i)).includes(ops[i].cell().size),
    decreases n,
{
    if i < n - 1 {
        lemma_row_demand_covers(ops, n - 1, i);
    }
}

/// What the whole program asks of each column of its grid.
pub open spec fn column_demands(ops: Seq<LayoutOp>) -> Seq<SizeGrouping> {
    Seq::new(column_count(ops) as nat, |c: int| column_demand(ops, ops.len() as int, c))
}

/// What the whole program asks of each row of its grid.
pub open spec fn row_demands(ops: Seq<LayoutOp>) -> Seq<SizeGrouping> {
    Seq::new(row_count(ops) as nat, |r: int| row_demand(ops, ops.len() as int, r))
}

/// For each column of the grid, whether a cell in it expands horizontally.
pub open spec fn expanding_columns(ops: Seq<LayoutOp>) -> Seq<bool> {
    Seq::new(column_count(ops) as nat, |c: int| column_expands(ops, ops.len() as int, c))
}

/// For each row of the grid, whether a cell in it expands vertically.
pub open spec fn expanding_rows(ops: Seq<LayoutOp>) -> Seq<bool> {
    Seq::new(row_count(ops) as nat, |r: int| row_expands(ops, ops.len() as int, r))
}

/// What a whole program asks of its columns and rows.
pub struct Measurement {
    /// For each column, the sizes it is asked for.
    pub col_sizes: Vec<SizeGrouping>,
    /// For each row, the sizes it is asked for.
    pub row_sizes: Vec<SizeGrouping>,
    /// For each column, whether it takes a share of spare width.
    pub has_xexpand: Vec<bool>,
    /// For each row, whether it takes a share of spare height.
    pub has_yexpand: Vec<bool>,
}

impl Measurement {
    /// Whether this is what the program `ops` asks of its grid.
    pub open spec fn measures(&self, ops: Seq<LayoutOp>) -> bool {
        &&& self.col_sizes@ == column_demands(ops)
        &&& self.has_xexpand@ == expanding_columns(ops)
        &&& self.row_sizes@ == row_demands(ops)
        &&& self.has_yexpand@ == expanding_rows(ops)
    }
}

/// A vector of `count` copies of `value`.
fn repeated<T: Copy>(value: T, count: usize) -> (v: Vec<T>)
    ensures
        v@ == Seq::new(count as nat, |i: int| value),
{
    let mut v: Vec<T> = Vec::new();
    let mut i: usize = 0;
    while i < count
        invariant
            i <= count,
            v@ == Seq::new(i as nat, |j: int| value),
        decreases count - i,
    {
        v.push(value);
        i = i + 1;
    }
    v
}

impl TableLayout {
    /// Measures the program: joins into every column and every row what the
    /// cells in it ask for, and notes which columns and rows expand.
    pub fn measure(&self) -> (m: Measurement)
        requires
            self.fits(),
        ensures
            m.measures(self.opcodes@),
    {
        let ghost ops = self.opcodes@;
        let (total_rows, total_cols) = self.get_rows_cols();
        let mut col_sizes: Vec<SizeGrouping> = repeated(
            SizeGrouping::default(),
            total_cols as usize,
        );
        let mut row_sizes: Vec<SizeGrouping> = repeated(
            SizeGrouping::default(),
            total_rows as usize,
        );
        let mut has_xexpand: Vec<bool> = repeated(false, total_cols as usize);
        let mut has_yexpand: Vec<bool> = repeated(false, total_rows as usize);
        let mut row: u8 = 0;
        let mut col: u8 = 0;
        let mut i: usize = 0;
        while i < self.opcodes.len()
            invariant
                ops == self.opcodes@,
                fits_grid(ops),
                i <= ops.len(),
                total_rows == row_count(ops),
                total_cols == column_count(ops),
                row == row_at(ops, i as int),
                col == column_at(ops, i as int),
                col_sizes@.len() == total_cols,
                has_xexpand@.len() == total_cols,
                row_sizes@.len() == total_rows,
                has_yexpand@.len() == total_rows,
                forall|c: int|
                    0 <= c < total_cols ==> #[trigger] col_sizes@[c] == column_demand(
                        ops,
                        i as int,
                        c,
                    ),
                forall|c: int|
                    0 <= c < total_cols ==> #[trigger] has_xexpand@[c] == column_expands(
                        ops,
                        i as int,
                        c,
                    ),
                forall|r: int|
                    0 <= r < total_rows ==> #[trigger] row_sizes@[r] == row_demand(ops, i as int, r),
                forall|r: int|
                    0 <= r < total_rows ==> #[trigger] has_yexpand@[r] == row_expands(
                        ops,
                        i as int,
                        r,
                    ),
            decreases ops.len() - i,
        {
            proof {
                lemma_column_in_grid(ops, i + 1);
            }
            match &self.opcodes[i] {
                LayoutOp::Cell(cp) => {
                    if cp.colspan != 0 {
                        proof {
                            lemma_row_in_grid(ops, i as int);
                        }
                        let share = cp.size.padded(cp.padding).spread(cp.colspan);
                        let joined = SizeGrouping::join(&row_sizes[row as usize], &cp.size);
                        row_sizes.set(row as usize, joined);
                        if cp.flags.contains(CellFlags::expand_vertical()) {
                            has_yexpand.set(row as usize, true);
                        }
                        let ghost first = col as int;
                        let expands = cp.flags.contains(CellFlags::expand_horizontal());
                        let mut k: u8 = 0;
                        while k < cp.colspan
                            invariant
                                0 <= first,
                                first + cp.colspan <= total_cols,
                                k <= cp.colspan,
                                col == first + k,
                                col_sizes@.len() == total_cols,
                                has_xexpand@.len() == total_cols,
                                forall|c: int|
                                    0 <= c < total_cols ==> #[trigger] col_sizes@[c] == (if first
                                        <= c < col {
                                        SizeGrouping::join(
                                            &column_demand(ops, i as int, c),
                                            &share,
                                        )
                                    } else {
                                        column_demand(ops, i as int, c)
                                    }),
                                forall|c: int|
                                    0 <= c < total_cols ==> #[trigger] has_xexpand@[c] == (
                                    column_expands(ops, i as int, c) || (first <= c < col
                                        && expands)),
                            decreases cp.colspan - k,
                        {
                            if expands {
                                has_xexpand.set(col as usize, true);
                            }
                            let merged = SizeGrouping::join(&col_sizes[col as usize], &share);
                            col_sizes.set(col as usize, merged);
                            col = col + 1;
                            k = k + 1;
                        }
                    }
                },
                LayoutOp::Row => {
                    proof {
                        lemma_row_in_grid(ops, i as int);
                    }
                    row = row + 1;
                    col = 0;
                },
            }
            i = i + 1;
        }
        proof {
            assert(col_sizes@ =~= column_demands(ops));
            assert(has_xexpand@ =~= expanding_columns(ops));
            assert(row_sizes@ =~= row_demands(ops));
            assert(has_yexpand@ =~= expanding_rows(ops));
        }
        Measurement { col_sizes, row_sizes, has_xexpand, has_yexpand }
    }
}

} // verus!
