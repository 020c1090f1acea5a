//! Sizes, padding and the three sizes a cell or a line asks for.

use crate::scalar::{div, larger, sat_add, smaller};
use vstd::prelude::*;

verus! {

/// Padding around a cell: four offsets that do not depend on each other.
#[derive(Clone, Copy, Debug, PartialEq, Eq, Structural)]
pub struct Rectangle {
    pub top: i64,
    pub left: i64,
    pub bottom: i64,
    pub right: i64,
}

impl Default for Rectangle {
    fn default() -> (r: Rectangle)
        ensures
            r == (Rectangle { top: 0, left: 0, bottom: 0, right: 0 }),
    {
        Rectangle { top: 0, left: 0, bottom: 0, right: 0 }
    }
}

/// A width and a height.
#[derive(Clone, Copy, Debug, PartialEq, Eq, Structural)]
pub struct Size {
    pub width: i64,
    pub height: i64,
}

impl Size {
    /// The larger width and the larger height of the two.
    pub open spec fn spec_join_max(a: &Size, b: &Size) -> Size {
        Size { width: larger(a.width, b.width), height: larger(a.height, b.height) }
    }

    /// The smaller width and the smaller height of the two.
    pub open spec fn spec_join_min(a: &Size, b: &Size) -> Size {
        Size { width: smaller(a.width, b.width), height: smaller(a.height, b.height) }
    }

    /// The width and the height divided by `divisions`, rounded toward zero.
    pub open spec fn spec_spread(&self, divisions: u8) -> Size
        recommends
            divisions != 0,
    {
        Size { width: div(self.width, divisions as i64), height: div(self.height, divisions as i64) }
    }

    /// The width with the left and the right padding added, in this order,
    /// and the height with the top and the bottom padding.
    pub open spec fn spec_padded(&self, padding: Rectangle) -> Size {
        Size {
            width: sat_add(sat_add(self.width, padding.left), padding.right),
            height: sat_add(sat_add(self.height, padding.top), padding.bottom),
        }
    }

    /// Whether `other` is both wider and higher.
    pub open spec fn spec_within(&self, other: &Size) -> bool {
        other.width > self.width && other.height > self.height
    }

    /// The larger width and the larger height of the two.
    #[verifier::when_used_as_spec(spec_join_max)]
    pub fn join_max(a: &Size, b: &Size) -> (r: Size)
        ensures
            r == Size::spec_join_max(a, b),
    {
        Size { width: larger(a.width, b.width), height: larger(a.height, b.height) }
    }

    /// The smaller width and the smaller height of the two.
    #[verifier::when_used_as_spec(spec_join_min)]
    pub fn join_min(a: &Size, b: &Size) -> (r: Size)
        ensures
            r == Size::spec_join_min(a, b),
    {
        Size { width: smaller(a.width, b.width), height: smaller(a.height, b.height) }
    }

    /// The share of this size that falls to each of `divisions` equal parts,
    /// rounded toward zero.
    #[verifier::when_used_as_spec(spec_spread)]
    pub fn spread(&self, divisions: u8) -> (r: Size)
        requires
            divisions != 0,
        ensures
            r == self.spec_spread(divisions),
    {
        Size { width: div(self.width, divisions as i64), height: div(self.height, divisions as i64) }
    }

    /// This size with the padding added on all four sides.
    #[verifier::when_used_as_spec(spec_padded)]
    pub fn padded(&self, padding: Rectangle) -> (r: Size)
        ensures
            r == self.spec_padded(padding),
    {
        Size {
            width: sat_add(sat_add(self.width, padding.left), padding.right),
            height: sat_add(sat_add(self.height, padding.top), padding.bottom),
        }
    }

    /// Whether this size is smaller than `other` in both width and height.
    #[verifier::when_used_as_spec(spec_within)]
    pub fn within(&self, other: &Size) -> (b: bool)
        ensures
            b == self.spec_within(other),
    {
        other.width > self.width && other.height > self.height
    }
}

/// The least, the preferred and the greatest size of a cell or of a line.
/// Nothing orders the three.
#[derive(Clone, Copy, Debug, PartialEq, Eq, Structural)]
pub struct SizeGrouping {
    pub minimum: Size,
    pub maximum: Size,
    pub preferred: Size,
}

impl SizeGrouping {
    /// The grouping that asks for nothing: no least size, no preferred size,
    /// no upper bound.
    pub open spec fn unconstrained() -> SizeGrouping {
        SizeGrouping {
            minimum: Size { width: 0, height: 0 },
            preferred: Size { width: 0, height: 0 },
            maximum: Size { width: i64::MAX, height: i64::MAX },
        }
    }

    /// Whether this grouping asks for all that `other` asks for: least and
    /// preferred sizes that are no smaller, greatest sizes that are no
    /// larger.
    pub open spec fn includes(self, other: SizeGrouping) -> bool {
        &&& self.minimum.width >= other.minimum.width
        &&& self.minimum.height >= other.minimum.height
        &&& self.preferred.width >= other.preferred.width
        &&& self.preferred.height >= other.preferred.height
        &&& self.maximum.width <= other.maximum.width
        &&& self.maximum.height <= other.maximum.height
    }

    /// The larger of the least sizes, the larger of the preferred sizes and
    /// the smaller of the greatest sizes.
    pub open spec fn spec_join(a: &SizeGrouping, b: &SizeGrouping) -> SizeGrouping {
        SizeGrouping {
            minimum: Size::join_max(&a.minimum, &b.minimum),
            preferred: Size::join_max(&a.preferred, &b.preferred),
            maximum: Size::join_min(&a.maximum, &b.maximum),
        }
    }

    /// The width and the height divided by `divisions`, rounded toward zero.
    /// Each of the three sizes divided by `divisions`.
    pub open spec fn spec_spread(&self, divisions: u8) -> SizeGrouping
        recommends
            divisions != 0,
    {
        SizeGrouping {
            minimum: self.minimum.spread(divisions),
            preferred: self.preferred.spread(divisions),
            maximum: self.maximum.spread(divisions),
        }
    }

    /// Each of the three sizes with the padding added.
    pub open spec fn spec_padded(&self, padding: Rectangle) -> SizeGrouping {
        SizeGrouping {
            minimum: self.minimum.padded(padding),
            preferred: self.preferred.padded(padding),
            maximum: self.maximum.padded(padding),
        }
    }

    /// What satisfies both groupings: the larger of the least sizes, the
    /// larger of the preferred sizes, the smaller of the greatest sizes.
    #[verifier::when_used_as_spec(spec_join)]
    pub fn join(a: &SizeGrouping, b: &SizeGrouping) -> (r: SizeGrouping)
        ensures
            r == SizeGrouping::spec_join(a, b),
    {
        SizeGrouping {
            minimum: Size::join_max(&a.minimum, &b.minimum),
            preferred: Size::join_max(&a.preferred, &b.preferred),
            maximum: Size::join_min(&a.maximum, &b.maximum),
        }
    }

    /// The share of each of the three sizes that falls to each of
    /// `divisions` equal parts.
    #[verifier::when_used_as_spec(spec_spread)]
    pub fn spread(&self, divisions: u8) -> (r: SizeGrouping)
        requires
            divisions != 0,
        ensures
            r == self.spec_spread(divisions),
    {
        SizeGrouping {
            minimum: self.minimum.spread(divisions),
            preferred: self.preferred.spread(divisions),
            maximum: self.maximum.spread(divisions),
        }
    }

    /// Each of the three sizes with the padding added.
    #[verifier::when_used_as_spec(spec_padded)]
    pub fn padded(&self, padding: Rectangle) -> (r: SizeGrouping)
        ensures
            r == self.spec_padded(padding),
    {
        SizeGrouping {
            minimum: self.minimum.padded(padding),
            preferred: self.preferred.padded(padding),
            maximum: self.maximum.padded(padding),
        }
    }
}

impl Default for SizeGrouping {
    fn default() -> (r: SizeGrouping)
        ensures
            r == SizeGrouping::unconstrained(),
    {
        SizeGrouping {
            minimum: Size { width: 0, height: 0 },
            preferred: Size { width: 0, height: 0 },
            maximum: Size { width: i64::MAX, height: i64::MAX },
        }
    }
}

/// Joining does not depend on the order of the two groupings, and joining a
/// grouping with itself changes nothing.
pub proof fn lemma_join_symmetric(a: SizeGrouping, b: SizeGrouping)
    ensures
        SizeGrouping::join(&a, &b) == SizeGrouping::join(&b, &a),
        SizeGrouping::join(&a, &a) == a,
{
}

/// A join asks for all that each of its two sides asks for.
pub proof fn lemma_join_includes(a: SizeGrouping, b: SizeGrouping)
    ensures
        SizeGrouping::join(&a, &b).includes(a),
        SizeGrouping::join(&a, &b).includes(b),
{
}

/// Joining three groupings gives the same whichever two are joined first.
pub proof fn lemma_join_associative(a: SizeGrouping, b: SizeGrouping, c: SizeGrouping)
    ensures
        SizeGrouping::join(&SizeGrouping::join(&a, &b), &c) == SizeGrouping::join(
            &a,
            &SizeGrouping::join(&b, &c),
        ),
{
}

} // verus!
