//! The behaviours a cell can ask for, kept as one bit each.

use vstd::prelude::*;

verus! {

/// The cell's columns take a share of spare width.
pub const EXPAND_HORIZONTAL: u16 = 0x0001;

/// The cell's row takes a share of spare height.
pub const EXPAND_VERTICAL: u16 = 0x0002;

/// The cell's box grows up to its maximum width inside its area.
pub const FILL_HORIZONTAL: u16 = 0x0004;

/// The cell's box grows up to its maximum height inside its area.
pub const FILL_VERTICAL: u16 = 0x0008;

/// The box sits at the top of its area.
pub const ANCHOR_TOP: u16 = 0x0010;

/// The box sits at the bottom of its area.
pub const ANCHOR_BOTTOM: u16 = 0x0020;

/// The box sits at the left of its area.
pub const ANCHOR_LEFT: u16 = 0x0040;

/// The box sits at the right of its area.
pub const ANCHOR_RIGHT: u16 = 0x0080;

/// The box is centred between the left and right of its area.
pub const ANCHOR_HORIZONTAL_CENTER: u16 = 0x0100;

/// The box is centred between the top and bottom of its area.
pub const ANCHOR_VERTICAL_CENTER: u16 = 0x0200;

/// The cell is sized like every other uniform cell.
pub const UNIFORM: u16 = 0x0400;

/// Every bit that names a behaviour.
pub const ALL_FLAGS: u16 = 0x07ff;

/// A set of cell behaviours. The empty set means: anchored top-left, neither
/// expanding nor filling, not uniform.
#[derive(Clone, Copy, Debug, PartialEq, Eq, Hash, Structural)]
pub struct CellFlags {
    pub bits: u16,
}

impl CellFlags {
    /// Whether every behaviour of `other` is in `self`.
    pub open spec fn has(self, other: CellFlags) -> bool {
        self.bits & other.bits == other.bits
    }

    /// The behaviours of `self` together with those of `other`.
    pub open spec fn with(self, other: CellFlags) -> CellFlags {
        CellFlags { bits: self.bits | other.bits }
    }

    /// Whether `self` names exactly one behaviour.
    pub open spec fn single(self) -> bool {
        ||| self.bits == EXPAND_HORIZONTAL
        ||| self.bits == EXPAND_VERTICAL
        ||| self.bits == FILL_HORIZONTAL
        ||| self.bits == FILL_VERTICAL
        ||| self.bits == ANCHOR_TOP
        ||| self.bits == ANCHOR_BOTTOM
        ||| self.bits == ANCHOR_LEFT
        ||| self.bits == ANCHOR_RIGHT
        ||| self.bits == ANCHOR_HORIZONTAL_CENTER
        ||| self.bits == ANCHOR_VERTICAL_CENTER
        ||| self.bits == UNIFORM
    }

    /// The set without any behaviour.
    pub fn empty() -> (f: CellFlags)
        ensures
            f.bits == 0,
    {
        CellFlags { bits: 0 }
    }

    /// The set of every behaviour.
    pub fn all() -> (f: CellFlags)
        ensures
            f.bits == ALL_FLAGS,
    {
        CellFlags { bits: ALL_FLAGS }
    }

    /// The set whose bits are those of `bits` that name a behaviour.
    pub fn from_bits_truncate(bits: u16) -> (f: CellFlags)
        ensures
            f.bits == bits & ALL_FLAGS,
    {
        CellFlags { bits: bits & ALL_FLAGS }
    }

    /// The set with exactly the bits `bits`, unless one of them names no
    /// behaviour.
    pub fn from_bits(bits: u16) -> (f: Option<CellFlags>)
        ensures
            f == if bits & ALL_FLAGS == bits {
                Some(CellFlags { bits })
            } else {
                None
            },
    {
        if (bits & ALL_FLAGS) == bits {
            Some(CellFlags { bits })
        } else {
            None
        }
    }

    pub fn expand_horizontal() -> (f: CellFlags)
        ensures
            f.bits == EXPAND_HORIZONTAL,
    {
        CellFlags { bits: EXPAND_HORIZONTAL }
    }

    pub fn expand_vertical() -> (f: CellFlags)
        ensures
            f.bits == EXPAND_VERTICAL,
    {
        CellFlags { bits: EXPAND_VERTICAL }
    }

    pub fn fill_horizontal() -> (f: CellFlags)
        ensures
            f.bits == FILL_HORIZONTAL,
    {
        CellFlags { bits: FILL_HORIZONTAL }
    }

    pub fn fill_vertical() -> (f: CellFlags)
        ensures
            f.bits == FILL_VERTICAL,
    {
        CellFlags { bits: FILL_VERTICAL }
    }

    pub fn anchor_top() -> (f: CellFlags)
        ensures
            f.bits == ANCHOR_TOP,
    {
        CellFlags { bits: ANCHOR_TOP }
    }

    pub fn anchor_bottom() -> (f: CellFlags)
        ensures
            f.bits == ANCHOR_BOTTOM,
    {
        CellFlags { bits: ANCHOR_BOTTOM }
    }

    pub fn anchor_left() -> (f: CellFlags)
        ensures
            f.bits == ANCHOR_LEFT,
    {
        CellFlags { bits: ANCHOR_LEFT }
    }

    pub fn anchor_right() -> (f: CellFlags)
        ensures
            f.bits == ANCHOR_RIGHT,
    {
        CellFlags { bits: ANCHOR_RIGHT }
    }

    pub fn anchor_horizontal_center() -> (f: CellFlags)
        ensures
            f.bits == ANCHOR_HORIZONTAL_CENTER,
    {
        CellFlags { bits: ANCHOR_HORIZONTAL_CENTER }
    }

    pub fn anchor_vertical_center() -> (f: CellFlags)
        ensures
            f.bits == ANCHOR_VERTICAL_CENTER,
    {
        CellFlags { bits: ANCHOR_VERTICAL_CENTER }
    }

    pub fn uniform() -> (f: CellFlags)
        ensures
            f.bits == UNIFORM,
    {
        CellFlags { bits: UNIFORM }
    }

    /// The bits of the set.
    pub fn bits(&self) -> (b: u16)
        ensures
            b == self.bits,
    {
        self.bits
    }

    /// Whether the set has no behaviour.
    pub fn is_empty(&self) -> (b: bool)
        ensures
            b == (self.bits == 0),
    {
        self.bits == 0
    }

    /// Whether every behaviour of `other` is in `self`.
    pub fn contains(&self, other: CellFlags) -> (b: bool)
        ensures
            b == self.has(other),
    {
        (self.bits & other.bits) == other.bits
    }

    /// The behaviours of `self` together with those of `other`.
    pub fn union(self, other: CellFlags) -> (f: CellFlags)
        ensures
            f == self.with(other),
    {
        CellFlags { bits: self.bits | other.bits }
    }

    /// Adds the behaviours of `other` to `self`.
    pub fn insert(&mut self, other: CellFlags)
        ensures
            *final(self) == old(self).with(other),
    {
        self.bits = self.bits | other.bits;
    }
}

/// A union has a behaviour exactly when one of its two sides has it.
pub proof fn lemma_union_has(a: CellFlags, b: CellFlags, f: CellFlags)
    requires
        f.single(),
    ensures
        a.with(b).has(f) <==> a.has(f) || b.has(f),
{
    let x = a.bits;
    let y = b.bits;
    let m = f.bits;
    assert(((x | y) & m == m) <==> (x & m == m || y & m == m)) by (bit_vector)
        requires
            m == 0x0001u16 || m == 0x0002u16 || m == 0x0004u16 || m == 0x0008u16 || m == 0x0010u16
                || m == 0x0020u16 || m == 0x0040u16 || m == 0x0080u16 || m == 0x0100u16 || m
                == 0x0200u16 || m == 0x0400u16,
    ;
}

/// The empty set has no behaviour, and every set has the empty set.
pub proof fn lemma_empty_has(a: CellFlags, f: CellFlags)
    requires
        f.single(),
    ensures
        !(CellFlags { bits: 0 }).has(f),
        a.has(CellFlags { bits: 0 }),
{
    let x = a.bits;
    let m = f.bits;
    assert(0u16 & m == 0u16) by (bit_vector);
    assert(x & 0u16 == 0u16) by (bit_vector);
}

/// Two different single behaviours do not imply each other.
pub proof fn lemma_single_distinct(f: CellFlags, g: CellFlags)
    requires
        f.single(),
        g.single(),
    ensures
        f.has(g) <==> f == g,
{
    let m = f.bits;
    let n = g.bits;
    assert((m & n == n) <==> m == n) by (bit_vector)
        requires
            m == 0x0001u16 || m == 0x0002u16 || m == 0x0004u16 || m == 0x0008u16 || m == 0x0010u16
                || m == 0x0020u16 || m == 0x0040u16 || m == 0x0080u16 || m == 0x0100u16 || m
                == 0x0200u16 || m == 0x0400u16,
            n == 0x0001u16 || n == 0x0002u16 || n == 0x0004u16 || n == 0x0008u16 || n == 0x0010u16
                || n == 0x0020u16 || n == 0x0040u16 || n == 0x0080u16 || n == 0x0100u16 || n
                == 0x0200u16 || n == 0x0400u16,
    ;
}

} // verus!
