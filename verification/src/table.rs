//! The layout program: cells and row ends in the order they were appended,
//! with the defaults that new cells start from.

use crate::cell::{CellProperties, LayoutOp};
use crate::grid::{
    column_at, column_count, fits_grid, lemma_cursor_bounds, lemma_grid_grows, row_at, row_count,
    widest_row, GRID_LIMIT,
};
use std::collections::BTreeMap;
use vstd::prelude::*;

verus! {

/// A table under construction.
pub struct TableLayout {
    /// What a new cell starts from where no row or column default applies.
    pub cell_defaults: CellProperties,
    /// What a new cell starts from, by the row it would be appended to.
    pub row_defaults: BTreeMap<u8, CellProperties>,
    /// What a new cell starts from, by the column it would be appended to.
    pub column_defaults: BTreeMap<u8, CellProperties>,
    /// The program.
    pub opcodes: Vec<LayoutOp>,
    /// The row the next cell is appended to.
    pub row: u8,
    /// The column the next cell is appended to.
    pub column: u8,
}

impl TableLayout {
    /// Whether the grid of the program is within the limit.
    pub open spec fn fits(&self) -> bool {
        fits_grid(self.opcodes@)
    }

    /// Whether the grid is within the limit and `row` and `column` say where
    /// the program stands.
    pub open spec fn well_formed(&self) -> bool {
        &&& self.fits()
        &&& self.row == row_at(self.opcodes@, self.opcodes@.len() as int)
        &&& self.column == column_at(self.opcodes@, self.opcodes@.len() as int)
    }

    /// Whether a cell of `colspan` columns can be appended within the limit.
    pub open spec fn spec_accepts_cell(&self, colspan: u8) -> bool {
        &&& self.column + colspan <= GRID_LIMIT
        &&& self.column + colspan > 0 ==> self.row < GRID_LIMIT
    }

    /// Whether the current row can be ended within the limit.
    pub open spec fn spec_accepts_row(&self) -> bool {
        self.row < GRID_LIMIT
    }

    /// The defaults that a new cell starts from: those of the column it would
    /// be appended to; without them, those of its row; without them,
    /// `cell_defaults`.
    pub open spec fn defaults(&self) -> CellProperties {
        if self.column_defaults@.contains_key(self.column) {
            self.column_defaults@[self.column]
        } else if self.row_defaults@.contains_key(self.row) {
            self.row_defaults@[self.row]
        } else {
            self.cell_defaults
        }
    }

    /// An empty table with plain defaults.
    pub fn new() -> (table: TableLayout)
        ensures
            table.well_formed(),
            table.opcodes@.len() == 0,
            table.row == 0,
            table.column == 0,
            table.cell_defaults == CellProperties::plain(),
            table.row_defaults@ == Map::<u8, CellProperties>::empty(),
            table.column_defaults@ == Map::<u8, CellProperties>::empty(),
    {
        TableLayout {
            cell_defaults: CellProperties::new(),
            row_defaults: BTreeMap::new(),
            column_defaults: BTreeMap::new(),
            opcodes: Vec::new(),
            row: 0,
            column: 0,
        }
    }

    /// The number of rows and of columns of the grid.
    pub fn get_rows_cols(&self) -> (shape: (u8, u8))
        requires
            self.fits(),
        ensures
            shape.0 == row_count(self.opcodes@),
            shape.1 == column_count(self.opcodes@),
    {
        let mut cols: u8 = 0;
        let mut colcur: u8 = 0;
        let mut rows: u8 = 0;
        let ghost ops = self.opcodes@;
        let mut i: usize = 0;
        while i < self.opcodes.len()
            invariant
                ops == self.opcodes@,
                fits_grid(ops),
                i <= ops.len(),
                rows == row_at(ops, i as int),
                colcur == column_at(ops, i as int),
                widest_row(ops, i as int) == (if cols >= colcur {
                    cols
                } else {
                    colcur
                }),
            decreases ops.len() - i,
        {
            proof {
                lemma_grid_grows(ops, i + 1, ops.len() as int);
            }
            match &self.opcodes[i] {
                LayoutOp::Cell(cell) => {
                    colcur = colcur + cell.colspan;
                },
                LayoutOp::Row => {
                    if colcur > cols {
                        cols = colcur;
                    }
                    colcur = 0;
                    rows = rows + 1;
                },
            }
            i = i + 1;
        }
        if colcur > 0 {
            if colcur > cols {
                cols = colcur;
            }
            rows = rows + 1;
        }
        (rows, cols)
    }

    /// The row and the column at which the program stands after its last
    /// step, if the grid of the program is within the limit.
    fn end_of_program(&self) -> (end: Option<(u8, u8)>)
        ensures
            end is Some <==> self.fits(),
            end matches Some((row, column)) ==> {
                &&& row == row_at(self.opcodes@, self.opcodes@.len() as int)
                &&& column == column_at(self.opcodes@, self.opcodes@.len() as int)
            },
    {
        let ghost ops = self.opcodes@;
        let mut column: u16 = 0;
        let mut row: u16 = 0;
        let mut i: usize = 0;
        while i < self.opcodes.len()
            invariant
                ops == self.opcodes@,
                i <= ops.len(),
                row == row_at(ops, i as int),
                column == column_at(ops, i as int),
                row <= GRID_LIMIT,
                widest_row(ops, i as int) <= GRID_LIMIT,
            decreases ops.len() - i,
        {
            proof {
                lemma_grid_grows(ops, i + 1, ops.len() as int);
            }
            match &self.opcodes[i] {
                LayoutOp::Cell(cell) => {
                    column = column + cell.colspan as u16;
                    if column > GRID_LIMIT as u16 {
                        return None;
                    }
                },
                LayoutOp::Row => {
                    column = 0;
                    row = row + 1;
                    if row > GRID_LIMIT as u16 {
                        return None;
                    }
                },
            }
            i = i + 1;
        }
        if column > 0 && row == GRID_LIMIT as u16 {
            None
        } else {
            Some((row as u8, column as u8))
        }
    }

    /// Whether the grid of the program is within the limit. A program that
    /// was built by `with_cell` and `with_row` always is.
    pub fn within_limit(&self) -> (b: bool)
        ensures
            b == self.fits(),
    {
        self.end_of_program().is_some()
    }

    /// Whether the grid is within the limit and `row` and `column` say where
    /// the program stands. A table that was changed only by the methods of
    /// this type always is.
    pub fn is_well_formed(&self) -> (b: bool)
        ensures
            b == self.well_formed(),
    {
        match self.end_of_program() {
            Some((row, column)) => row == self.row && column == self.column,
            None => false,
        }
    }

    /// Whether a cell of `colspan` columns can be appended within the limit.
    #[verifier::when_used_as_spec(spec_accepts_cell)]
    pub fn accepts_cell(&self, colspan: u8) -> (b: bool)
        ensures
            b == self.spec_accepts_cell(colspan),
    {
        if colspan > GRID_LIMIT - self.column {
            false
        } else {
            self.column + colspan == 0 || self.row < GRID_LIMIT
        }
    }

    /// Whether the current row can be ended within the limit.
    #[verifier::when_used_as_spec(spec_accepts_row)]
    pub fn accepts_row(&self) -> (b: bool)
        ensures
            b == self.spec_accepts_row(),
    {
        self.row < GRID_LIMIT
    }

    /// Removes the program. The defaults stay.
    pub fn clear(&mut self)
        ensures
            final(self).well_formed(),
            final(self).opcodes@.len() == 0,
            final(self).row == 0,
            final(self).column == 0,
            final(self).cell_defaults == old(self).cell_defaults,
            final(self).row_defaults@ == old(self).row_defaults@,
            final(self).column_defaults@ == old(self).column_defaults@,
    {
        self.row = 0;
        self.column = 0;
        self.opcodes.clear();
    }

    /// Removes the program and every default.
    pub fn full_clear(&mut self)
        ensures
            final(self).well_formed(),
            final(self).opcodes@.len() == 0,
            final(self).row == 0,
            final(self).column == 0,
            final(self).cell_defaults == CellProperties::plain(),
            final(self).row_defaults@ == Map::<u8, CellProperties>::empty(),
            final(self).column_defaults@ == Map::<u8, CellProperties>::empty(),
    {
        self.clear();
        self.row_defaults.clear();
        self.column_defaults.clear();
        self.cell_defaults = CellProperties::new();
    }

    /// Ends the current row.
    pub fn with_row(&mut self) -> (table: &mut Self)
        requires
            old(self).well_formed(),
            old(self).accepts_row(),
        ensures
            table.well_formed(),
            table.opcodes@ == old(self).opcodes@.push(LayoutOp::Row),
            table.row == old(self).row + 1,
            table.column == 0,
            table.cell_defaults == old(self).cell_defaults,
            table.row_defaults@ == old(self).row_defaults@,
            table.column_defaults@ == old(self).column_defaults@,
            *final(self) == *final(table),
    {
        proof {
            lemma_push_row(self.opcodes@);
        }
        self.opcodes.push(LayoutOp::Row);
        self.row = self.row + 1;
        self.column = 0;
        self
    }

    /// Appends a cell to the current row.
    pub fn with_cell(&mut self, properties: CellProperties) -> (table: &mut Self)
        requires
            old(self).well_formed(),
            old(self).accepts_cell(properties.colspan),
        ensures
            table.well_formed(),
            table.opcodes@ == old(self).opcodes@.push(LayoutOp::Cell(properties)),
            table.row == old(self).row,
            table.column == old(self).column + properties.colspan,
            table.cell_defaults == old(self).cell_defaults,
            table.row_defaults@ == old(self).row_defaults@,
            table.column_defaults@ == old(self).column_defaults@,
            *final(self) == *final(table),
    {
        proof {
            lemma_push_cell(self.opcodes@, properties);
        }
        self.column = self.column + properties.colspan;
        self.opcodes.push(LayoutOp::Cell(properties));
        self
    }
}

impl Default for TableLayout {
    fn default() -> (table: TableLayout)
        ensures
            table.well_formed(),
            table.opcodes@.len() == 0,
            table.row == 0,
            table.column == 0,
            table.cell_defaults == CellProperties::plain(),
            table.row_defaults@ == Map::<u8, CellProperties>::empty(),
            table.column_defaults@ == Map::<u8, CellProperties>::empty(),
    {
        TableLayout::new()
    }
}

impl CellProperties {
    /// The properties a cell starts from if it is appended to `layout` next:
    /// the defaults of its column; without them, those of its row; without
    /// them, the defaults of the table.
    pub fn with_defaults(layout: &TableLayout) -> (cell: CellProperties)
        ensures
            cell == layout.defaults(),
    {
        match layout.column_defaults.get(&layout.column) {
            Some(found) => {
                return *found;
            },
            None => {},
        }
        match layout.row_defaults.get(&layout.row) {
            Some(found) => {
                return *found;
            },
            None => {},
        }
        layout.cell_defaults
    }
}

/// The first steps of a program stand where they stood before a step was
/// appended.
pub proof fn lemma_push_keeps(ops: Seq<LayoutOp>, op: LayoutOp, n: int)
    requires
        n <= ops.len(),
    ensures
        row_at(ops.push(op), n) == row_at(ops, n),
        column_at(ops.push(op), n) == column_at(ops, n),
        widest_row(ops.push(op), n) == widest_row(ops, n),
    decreases n,
{
    if n > 0 {
        lemma_push_keeps(ops, op, n - 1);
    }
}

/// Ending a row of a program within the limit, below the last row that the
/// limit allows, gives a program within the limit.
proof fn lemma_push_row(ops: Seq<LayoutOp>)
    requires
        fits_grid(ops),
        row_at(ops, ops.len() as int) < GRID_LIMIT,
    ensures
        fits_grid(ops.push(LayoutOp::Row)),
        row_at(ops.push(LayoutOp::Row), ops.len() as int + 1) == row_at(ops, ops.len() as int) + 1,
        column_at(ops.push(LayoutOp::Row), ops.len() as int + 1) == 0,
{
    lemma_push_keeps(ops, LayoutOp::Row, ops.len() as int);
}

/// Appending a cell that the row and the grid have room for gives a program
/// within the limit.
proof fn lemma_push_cell(ops: Seq<LayoutOp>, cell: CellProperties)
    requires
        fits_grid(ops),
        column_at(ops, ops.len() as int) + cell.colspan <= GRID_LIMIT,
        column_at(ops, ops.len() as int) + cell.colspan > 0 ==> row_at(ops, ops.len() as int)
            < GRID_LIMIT,
    ensures
        fits_grid(ops.push(LayoutOp::Cell(cell))),
        row_at(ops.push(LayoutOp::Cell(cell)), ops.len() as int + 1) == row_at(ops, ops.len() as int),
        column_at(ops.push(LayoutOp::Cell(cell)), ops.len() as int + 1) == column_at(
            ops,
            ops.len() as int,
        ) + cell.colspan,
{
    lemma_push_keeps(ops, LayoutOp::Cell(cell), ops.len() as int);
}

} // verus!
