//! A table layout engine. Cells are appended row by row to a `TableLayout`;
//! `impose` turns the program and an available width and height into one
//! box per cell.
//!
//! Laying out takes three passes. The first measures what the cells ask of
//! every column and row (`measure`). The second fits the columns to the
//! width and the rows to the height (`distribute`). The third gives every
//! cell the area of its columns and row and fits its box into it (`place`).
//!
//! Every length is an `i64` in whatever unit the caller chooses. Sums and
//! differences stop at the ends of the `i64` range and quotients round
//! toward zero (`scalar`), so that laying out is defined for every width and
//! height and for every program whose grid has at most 255 rows and 255
//! columns.
//!
//! Besides the contracts of the functions, the crate proves what holds of
//! every layout: the areas of the cells do not overlap (`tiling`), the lines
//! take up the available space where they can (`balance`), and a table with
//! room enough leaves its cells their preferred sizes (`roomy`).

pub mod balance;
pub mod cell;
pub mod distribute;
pub mod flags;
pub mod geometry;
pub mod grid;
pub mod impose;
pub mod measure;
pub mod place;
pub mod roomy;
pub mod scalar;
pub mod table;
pub mod tiling;

pub use crate::cell::{CellProperties, LayoutOp};
pub use crate::flags::CellFlags;
pub use crate::geometry::{Rectangle, Size, SizeGrouping};
pub use crate::measure::Measurement;
pub use crate::place::Placement;
pub use crate::table::TableLayout;
