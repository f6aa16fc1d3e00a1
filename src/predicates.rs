use vstd::prelude::*;
use crate::coord::{bits_nan, bits_zero, Coord, EXPONENT_MASK, FRACTION_MASK, MAGNITUDE_MASK, SIGN_MASK};

verus! {

/// Where a third point lies with respect to the line through two others.
#[derive(Clone, Copy, Debug, PartialEq, Eq, Structural)]
pub enum Orientation {
    Collinear,
    Clockwise,
    CounterClockwise,
}

/// The orientation that the sign of an exactly evaluated determinant gives:
/// zero for collinear, negative for clockwise, positive for
/// counterclockwise. A NaN determinant has no sign and gives no orientation.
pub open spec fn orientation_of(det: u64) -> Option<Orientation> {
    if bits_nan(det) {
        None
    } else if bits_zero(det) {
        Some(Orientation::Collinear)
    } else if det & SIGN_MASK != 0 {
        Some(Orientation::Clockwise)
    } else {
        Some(Orientation::CounterClockwise)
    }
}

/// Classifies the determinant (as a binary64 bit pattern) of an exact
/// orientation test.
pub fn orientation_from_determinant(det: u64) -> (r: Option<Orientation>)
    ensures
        r == orientation_of(det),
{
    if det & EXPONENT_MASK == EXPONENT_MASK && det & FRACTION_MASK != 0 {
        None
    } else if det & MAGNITUDE_MASK == 0 {
        Some(Orientation::Collinear)
    } else if det & SIGN_MASK != 0 {
        Some(Orientation::Clockwise)
    } else {
        Some(Orientation::CounterClockwise)
    }
}

/// Whether the determinant of an exact orientation test says that the three
/// points are collinear, that is whether it is zero of either sign.
pub fn determinant_is_collinear(det: u64) -> (r: bool)
    ensures
        r == bits_zero(det),
        r <==> orientation_of(det) == Some(Orientation::Collinear),
{
    proof {
        assert((det & 0x7fff_ffff_ffff_ffffu64) == 0u64 ==> (det & 0x7ff0_0000_0000_0000u64) != 0x7ff0_0000_0000_0000u64)
            by (bit_vector);
    }
    det & MAGNITUDE_MASK == 0
}

/// The number of edges of a coordinate sequence: one between each two
/// consecutive coordinates.
pub open spec fn edge_count(len: nat) -> nat {
    if len == 0 {
        0
    } else {
        (len - 1) as nat
    }
}

/// `crossings` is a square table with a row and a column for each edge.
pub open spec fn is_crossing_table(coords: Seq<Coord>, crossings: Seq<Vec<bool>>) -> bool {
    crossings.len() == edge_count(coords.len()) && forall|i: int|
        0 <= i < crossings.len() ==> (#[trigger] crossings[i])@.len() == crossings.len()
}

/// Edges `i` and `j` meet, and not merely where one ends and the other
/// starts.
pub open spec fn improper_crossing(coords: Seq<Coord>, crossings: Seq<Vec<bool>>, i: int, j: int) -> bool {
    i != j && crossings[i]@[j] && !coords[i].same(coords[j + 1]) && !coords[i + 1].same(coords[j])
}

/// Some two distinct edges meet improperly.
pub open spec fn self_intersects(coords: Seq<Coord>, crossings: Seq<Vec<bool>>) -> bool {
    exists|i: int, j: int|
        0 <= i < crossings.len() && 0 <= j < crossings.len() && #[trigger] improper_crossing(coords, crossings, i, j)
}

/// Decides self-intersection of a coordinate sequence from the table of
/// which of its edges meet (`crossings[i][j]` for edges `i` and `j`, edge
/// `i` running from coordinate `i` to coordinate `i + 1`). A meeting of two
/// edges counts unless it is explained by the end of one being the start of
/// the other; every unordered pair of edges is looked at.
pub fn self_intersection_from_crossings(coords: &Vec<Coord>, crossings: &Vec<Vec<bool>>) -> (r: bool)
    requires
        is_crossing_table(coords@, crossings@),
    ensures
        r == self_intersects(coords@, crossings@),
{
    let m = crossings.len();
    let mut i: usize = 0;
    while i < m
        invariant
            m == crossings@.len(),
            is_crossing_table(coords@, crossings@),
            i <= m,
            forall|a: int, b: int| 0 <= a < i && 0 <= b < m ==> !#[trigger] improper_crossing(coords@, crossings@, a, b),
        decreases m - i,
    {
        let row = &crossings[i];
        assert(row@.len() == m);
        let mut j: usize = 0;
        while j < m
            invariant
                m == crossings@.len(),
                is_crossing_table(coords@, crossings@),
                i < m,
                j <= m,
                row@ == crossings@[i as int]@,
                row@.len() == m,
                forall|a: int, b: int| 0 <= a < i && 0 <= b < m ==> !#[trigger] improper_crossing(coords@, crossings@, a, b),
                forall|b: int| 0 <= b < j ==> !#[trigger] improper_crossing(coords@, crossings@, i as int, b),
            decreases m - j,
        {
            if i != j && row[j] && !coords[i].same_as(&coords[j + 1]) && !coords[i + 1].same_as(&coords[j]) {
                assert(improper_crossing(coords@, crossings@, i as int, j as int));
                return true;
            }
            j = j + 1;
        }
        i = i + 1;
    }
    false
}

} // verus!
