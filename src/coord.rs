use vstd::prelude::*;

verus! {

/// The exponent field of a binary64 number.
pub const EXPONENT_MASK: u64 = 0x7ff0_0000_0000_0000;

/// The fraction field of a binary64 number.
pub const FRACTION_MASK: u64 = 0x000f_ffff_ffff_ffff;

/// Every bit of a binary64 number but its sign.
pub const MAGNITUDE_MASK: u64 = 0x7fff_ffff_ffff_ffff;

/// The sign bit of a binary64 number.
pub const SIGN_MASK: u64 = 0x8000_0000_0000_0000;

/// A number is finite when its exponent field is not all ones.
pub open spec fn bits_finite(b: u64) -> bool {
    b & EXPONENT_MASK != EXPONENT_MASK
}

/// A NaN has an exponent field of all ones and a fraction that is not zero.
pub open spec fn bits_nan(b: u64) -> bool {
    b & EXPONENT_MASK == EXPONENT_MASK && b & FRACTION_MASK != 0
}

/// Positive and negative zero.
pub open spec fn bits_zero(b: u64) -> bool {
    b & MAGNITUDE_MASK == 0
}

/// Equality of two binary64 numbers: a NaN equals nothing, not even itself,
/// the two zeros are equal, and otherwise the bit patterns must agree.
pub open spec fn bits_eq(a: u64, b: u64) -> bool {
    !bits_nan(a) && !bits_nan(b) && (a == b || (bits_zero(a) && bits_zero(b)))
}

/// Whether a number is finite (neither infinite nor NaN).
pub fn component_is_finite(b: u64) -> (r: bool)
    ensures
        r == bits_finite(b),
{
    b & EXPONENT_MASK != EXPONENT_MASK
}

/// Floating-point equality of two numbers.
pub fn components_equal(a: u64, b: u64) -> (r: bool)
    ensures
        r == bits_eq(a, b),
{
    let a_nan = a & EXPONENT_MASK == EXPONENT_MASK && a & FRACTION_MASK != 0;
    let b_nan = b & EXPONENT_MASK == EXPONENT_MASK && b & FRACTION_MASK != 0;
    !a_nan && !b_nan && (a == b || (a & MAGNITUDE_MASK == 0 && b & MAGNITUDE_MASK == 0))
}

/// A planar coordinate whose components are binary64 numbers, each held as
/// its bit pattern.
#[derive(Clone, Copy, Debug)]
pub struct Coord {
    pub x: u64,
    pub y: u64,
}

impl Coord {
    /// The coordinate with the given component bit patterns.
    pub fn from_bits(x: u64, y: u64) -> (r: Coord)
        ensures
            r.x == x,
            r.y == y,
    {
        Coord { x, y }
    }

    /// Both components are finite.
    pub open spec fn finite(self) -> bool {
        bits_finite(self.x) && bits_finite(self.y)
    }

    /// The two coordinates compare equal component by component.
    pub open spec fn same(self, other: Coord) -> bool {
        bits_eq(self.x, other.x) && bits_eq(self.y, other.y)
    }

    /// A coordinate is valid when both of its components are finite.
    pub fn is_valid(&self) -> (r: bool)
        ensures
            r == self.finite(),
    {
        component_is_finite(self.x) && component_is_finite(self.y)
    }

    /// Floating-point equality of two coordinates.
    pub fn same_as(&self, other: &Coord) -> (r: bool)
        ensures
            r == self.same(*other),
    {
        components_equal(self.x, other.x) && components_equal(self.y, other.y)
    }
}

/// Whether a component of the coordinate is NaN or infinite.
pub fn check_coord_is_not_finite(c: &Coord) -> (r: bool)
    ensures
        r == !c.finite(),
{
    !c.is_valid()
}

} // verus!
