//! One cell of a table: what it asks for, and how its box is fitted into the
//! area the table gives it.

use crate::flags::{
    CellFlags, ANCHOR_BOTTOM, ANCHOR_HORIZONTAL_CENTER, ANCHOR_LEFT, ANCHOR_RIGHT, ANCHOR_TOP,
    ANCHOR_VERTICAL_CENTER, EXPAND_HORIZONTAL, EXPAND_VERTICAL, FILL_HORIZONTAL, FILL_VERTICAL,
    UNIFORM,
};
use crate::geometry::{Rectangle, Size, SizeGrouping};
use crate::scalar::{div, sat_add, sat_sub, smaller};
use vstd::prelude::*;

verus! {

/// Everything a cell contributes to the layout.
#[derive(Clone, Copy, Debug, PartialEq, Eq, Structural)]
pub struct CellProperties {
    /// The sizes the cell asks for.
    pub size: SizeGrouping,
    /// The behaviours of the cell.
    pub flags: CellFlags,
    /// How many columns the cell occupies. A cell that spans no column takes
    /// no part in the layout.
    pub colspan: u8,
    /// Space left free around the cell's box.
    pub padding: Rectangle,
}

impl CellProperties {
    /// One column wide, no behaviour, no padding, unconstrained sizes.
    pub open spec fn plain() -> CellProperties {
        CellProperties {
            size: SizeGrouping::unconstrained(),
            flags: CellFlags { bits: 0 },
            colspan: 1,
            padding: Rectangle { top: 0, left: 0, bottom: 0, right: 0 },
        }
    }

    /// Whether the cell has the behaviour with the bit `bit`.
    pub open spec fn wants(self, bit: u16) -> bool {
        self.flags.has(CellFlags { bits: bit })
    }

    /// This cell with the behaviours `bits` added.
    pub open spec fn flagged(self, bits: u16) -> CellProperties {
        CellProperties { flags: self.flags.with(CellFlags { bits }), ..self }
    }

    /// What the cell asks of each column it occupies: its sizes with the
    /// padding added, divided evenly among the columns.
    pub open spec fn column_share(self) -> SizeGrouping
        recommends
            self.colspan != 0,
    {
        self.size.padded(self.padding).spread(self.colspan)
    }

    pub fn new() -> (r: CellProperties)
        ensures
            r == CellProperties::plain(),
    {
        CellProperties {
            size: SizeGrouping::default(),
            flags: CellFlags::empty(),
            colspan: 1,
            padding: Rectangle::default(),
        }
    }

    pub fn minimum_size(self, minimum: Size) -> (r: CellProperties)
        ensures
            r == (CellProperties { size: SizeGrouping { minimum, ..self.size }, ..self }),
    {
        let mut cell = self;
        cell.size.minimum = minimum;
        cell
    }

    pub fn maximum_size(self, maximum: Size) -> (r: CellProperties)
        ensures
            r == (CellProperties { size: SizeGrouping { maximum, ..self.size }, ..self }),
    {
        let mut cell = self;
        cell.size.maximum = maximum;
        cell
    }

    pub fn preferred_size(self, preferred: Size) -> (r: CellProperties)
        ensures
            r == (CellProperties { size: SizeGrouping { preferred, ..self.size }, ..self }),
    {
        let mut cell = self;
        cell.size.preferred = preferred;
        cell
    }

    /// Expand in both directions.
    pub fn expand(self) -> (r: CellProperties)
        ensures
            r == self.flagged(EXPAND_HORIZONTAL).flagged(EXPAND_VERTICAL),
    {
        let mut cell = self;
        cell.flags.insert(CellFlags::expand_horizontal());
        cell.flags.insert(CellFlags::expand_vertical());
        cell
    }

    pub fn expand_horizontal(self) -> (r: CellProperties)
        ensures
            r == self.flagged(EXPAND_HORIZONTAL),
    {
        let mut cell = self;
        cell.flags.insert(CellFlags::expand_horizontal());
        cell
    }

    pub fn expand_vertical(self) -> (r: CellProperties)
        ensures
            r == self.flagged(EXPAND_VERTICAL),
    {
        let mut cell = self;
        cell.flags.insert(CellFlags::expand_vertical());
        cell
    }

    /// Fill in both directions.
    pub fn fill(self) -> (r: CellProperties)
        ensures
            r == self.flagged(FILL_HORIZONTAL).flagged(FILL_VERTICAL),
    {
        let mut cell = self;
        cell.flags.insert(CellFlags::fill_horizontal());
        cell.flags.insert(CellFlags::fill_vertical());
        cell
    }

    pub fn fill_horizontal(self) -> (r: CellProperties)
        ensures
            r == self.flagged(FILL_HORIZONTAL),
    {
        let mut cell = self;
        cell.flags.insert(CellFlags::fill_horizontal());
        cell
    }

    pub fn fill_vertical(self) -> (r: CellProperties)
        ensures
            r == self.flagged(FILL_VERTICAL),
    {
        let mut cell = self;
        cell.flags.insert(CellFlags::fill_vertical());
        cell
    }

    pub fn anchor_top(self) -> (r: CellProperties)
        ensures
            r == self.flagged(ANCHOR_TOP),
    {
        let mut cell = self;
        cell.flags.insert(CellFlags::anchor_top());
        cell
    }

    pub fn anchor_bottom(self) -> (r: CellProperties)
        ensures
            r == self.flagged(ANCHOR_BOTTOM),
    {
        let mut cell = self;
        cell.flags.insert(CellFlags::anchor_bottom());
        cell
    }

    pub fn anchor_left(self) -> (r: CellProperties)
        ensures
            r == self.flagged(ANCHOR_LEFT),
    {
        let mut cell = self;
        cell.flags.insert(CellFlags::anchor_left());
        cell
    }

    pub fn anchor_right(self) -> (r: CellProperties)
        ensures
            r == self.flagged(ANCHOR_RIGHT),
    {
        let mut cell = self;
        cell.flags.insert(CellFlags::anchor_right());
        cell
    }

    /// Centre in both directions.
    pub fn anchor_center(self) -> (r: CellProperties)
        ensures
            r == self.flagged(ANCHOR_HORIZONTAL_CENTER).flagged(ANCHOR_VERTICAL_CENTER),
    {
        let mut cell = self;
        cell.flags.insert(CellFlags::anchor_horizontal_center());
        cell.flags.insert(CellFlags::anchor_vertical_center());
        cell
    }

    pub fn anchor_horizontal_center(self) -> (r: CellProperties)
        ensures
            r == self.flagged(ANCHOR_HORIZONTAL_CENTER),
    {
        let mut cell = self;
        cell.flags.insert(CellFlags::anchor_horizontal_center());
        cell
    }

    pub fn anchor_vertical_center(self) -> (r: CellProperties)
        ensures
            r == self.flagged(ANCHOR_VERTICAL_CENTER),
    {
        let mut cell = self;
        cell.flags.insert(CellFlags::anchor_vertical_center());
        cell
    }

    pub fn uniform(self) -> (r: CellProperties)
        ensures
            r == self.flagged(UNIFORM),
    {
        let mut cell = self;
        cell.flags.insert(CellFlags::uniform());
        cell
    }

    pub fn colspan(self, span: u8) -> (r: CellProperties)
        ensures
            r == (CellProperties { colspan: span, ..self }),
    {
        let mut cell = self;
        cell.colspan = span;
        cell
    }

    /// Sets the padding on all four sides from a rectangle.
    pub fn padding(self, pad: &Rectangle) -> (r: CellProperties)
        ensures
            r == (CellProperties { padding: *pad, ..self }),
    {
        let mut cell = self;
        cell.padding = *pad;
        cell
    }

    /// Sets the same padding on all four sides.
    pub fn padding_all(self, pad: i64) -> (r: CellProperties)
        ensures
            r == (CellProperties {
                padding: Rectangle { top: pad, left: pad, bottom: pad, right: pad },
                ..self
            }),
    {
        let mut cell = self;
        cell.padding.top = pad;
        cell.padding.left = pad;
        cell.padding.bottom = pad;
        cell.padding.right = pad;
        cell
    }

    /// Sets the padding above the cell.
    pub fn padding_top(self, pad: i64) -> (r: CellProperties)
        ensures
            r == (CellProperties { padding: Rectangle { top: pad, ..self.padding }, ..self }),
    {
        let mut cell = self;
        cell.padding.top = pad;
        cell
    }

    /// Sets the padding left of the cell.
    pub fn padding_left(self, pad: i64) -> (r: CellProperties)
        ensures
            r == (CellProperties { padding: Rectangle { left: pad, ..self.padding }, ..self }),
    {
        let mut cell = self;
        cell.padding.left = pad;
        cell
    }

    /// Sets the padding below the cell.
    pub fn padding_bottom(self, pad: i64) -> (r: CellProperties)
        ensures
            r == (CellProperties { padding: Rectangle { bottom: pad, ..self.padding }, ..self }),
    {
        let mut cell = self;
        cell.padding.bottom = pad;
        cell
    }

    /// Sets the padding right of the cell.
    pub fn padding_right(self, pad: i64) -> (r: CellProperties)
        ensures
            r == (CellProperties { padding: Rectangle { right: pad, ..self.padding }, ..self }),
    {
        let mut cell = self;
        cell.padding.right = pad;
        cell
    }
}

impl Default for CellProperties {
    fn default() -> (r: CellProperties)
        ensures
            r == CellProperties::plain(),
    {
        CellProperties::new()
    }
}

impl SizeGrouping {
    /// The box of a cell with these sizes and the padding and behaviours of
    /// `prop`, inside an area whose top-left corner is the origin.
    ///
    /// The width is the preferred width, or the greatest width for a filling
    /// cell, but no more than the area leaves after the padding; the height
    /// likewise. The box sits at the right edge, or centred, or at the left
    /// padding, in this order of precedence; and at the bottom edge, or
    /// centred, or at the top padding. Vertical centring is switched on by
    /// the horizontal-centre behaviour: the vertical-centre behaviour alone
    /// moves nothing.
    pub open spec fn spec_box_fit(&self, area: &Size, prop: &CellProperties) -> (
        i64,
        i64,
        i64,
        i64,
    ) {
        let pad_width = sat_add(prop.padding.left, prop.padding.right);
        let pad_height = sat_add(prop.padding.top, prop.padding.bottom);
        let w = smaller(
            if prop.wants(FILL_HORIZONTAL) {
                self.maximum.width
            } else {
                self.preferred.width
            },
            sat_sub(area.width, pad_width),
        );
        let h = smaller(
            if prop.wants(FILL_VERTICAL) {
                self.maximum.height
            } else {
                self.preferred.height
            },
            sat_sub(area.height, pad_height),
        );
        let x = if prop.wants(ANCHOR_RIGHT) {
            sat_sub(sat_sub(area.width, prop.padding.right), w)
        } else if prop.wants(ANCHOR_HORIZONTAL_CENTER) {
            sat_sub(div(area.width, 2), div(w, 2))
        } else {
            prop.padding.left
        };
        let y = if prop.wants(ANCHOR_BOTTOM) {
            sat_sub(sat_sub(area.height, prop.padding.bottom), h)
        } else if prop.wants(ANCHOR_HORIZONTAL_CENTER) {
            sat_sub(div(area.height, 2), div(h, 2))
        } else {
            prop.padding.top
        };
        (x, y, w, h)
    }

    /// Fits a cell with these sizes into `area`: the left edge, the top edge,
    /// the width and the height of its box, measured from the area's top-left
    /// corner.
    #[verifier::when_used_as_spec(spec_box_fit)]
    pub fn box_fit(&self, area: &Size, prop: &CellProperties) -> (r: (i64, i64, i64, i64))
        ensures
            r == self.spec_box_fit(area, prop),
    {
        let pad_width: i64 = sat_add(prop.padding.left, prop.padding.right);
        let pad_height: i64 = sat_add(prop.padding.top, prop.padding.bottom);
        let w: i64 = if prop.flags.contains(CellFlags::fill_horizontal()) {
            smaller(self.maximum.width, sat_sub(area.width, pad_width))
        } else {
            smaller(self.preferred.width, sat_sub(area.width, pad_width))
        };
        let h: i64 = if prop.flags.contains(CellFlags::fill_vertical()) {
            smaller(self.maximum.height, sat_sub(area.height, pad_height))
        } else {
            smaller(self.preferred.height, sat_sub(area.height, pad_height))
        };
        let x: i64 = if prop.flags.contains(CellFlags::anchor_right()) {
            sat_sub(sat_sub(area.width, prop.padding.right), w)
        } else if prop.flags.contains(CellFlags::anchor_horizontal_center()) {
            sat_sub(div(area.width, 2), div(w, 2))
        } else {
            prop.padding.left
        };
        let y: i64 = if prop.flags.contains(CellFlags::anchor_bottom()) {
            sat_sub(sat_sub(area.height, prop.padding.bottom), h)
        } else if prop.flags.contains(CellFlags::anchor_horizontal_center()) {
            sat_sub(div(area.height, 2), div(h, 2))
        } else {
            prop.padding.top
        };
        (x, y, w, h)
    }
}

/// A box stays inside its area: where the padding is not negative and fits
/// into the area, and the cell's preferred and greatest sizes are not
/// negative, the fitted box has a width and a height that are not negative
/// and lies between the edges of the area. Unless it is centred, it also
/// keeps clear of the padding.
pub proof fn lemma_box_inside_area(sizes: SizeGrouping, area: Size, prop: CellProperties)
    requires
        0 <= prop.padding.left,
        0 <= prop.padding.right,
        0 <= prop.padding.top,
        0 <= prop.padding.bottom,
        prop.padding.left + prop.padding.right <= area.width,
        prop.padding.top + prop.padding.bottom <= area.height,
        0 <= sizes.preferred.width,
        0 <= sizes.preferred.height,
        0 <= sizes.maximum.width,
        0 <= sizes.maximum.height,
    ensures
        ({
            let (x, y, w, h) = sizes.box_fit(&area, &prop);
            &&& 0 <= w
            &&& 0 <= h
            &&& 0 <= x
            &&& 0 <= y
            &&& x + w <= area.width
            &&& y + h <= area.height
            &&& prop.wants(ANCHOR_RIGHT) || !prop.wants(ANCHOR_HORIZONTAL_CENTER) ==> {
                &&& prop.padding.left <= x
                &&& x + w <= area.width - prop.padding.right
            }
            &&& prop.wants(ANCHOR_BOTTOM) || !prop.wants(ANCHOR_HORIZONTAL_CENTER) ==> {
                &&& prop.padding.top <= y
                &&& y + h <= area.height - prop.padding.bottom
            }
        }),
{
    let (x, y, w, h) = sizes.box_fit(&area, &prop);
    assert(div(area.height, 2) == area.height / 2 && div(h, 2) == h / 2);
}

/// One step of a layout program.
#[derive(Clone, Copy, Debug, PartialEq, Eq, Structural)]
pub enum LayoutOp {
    /// Places a cell in the current row.
    Cell(CellProperties),
    /// Ends the current row.
    Row,
}

} // verus!
