use vstd::prelude::*;

verus! {

/// A kind of violation of the validity rules.
#[derive(Clone, Copy, Debug, PartialEq, Eq, Structural)]
pub enum Problem {
    /// A component of a coordinate is NaN or infinite.
    NotFinite,
    /// Fewer distinct points than the geometry kind requires.
    TooFewPoints,
}

/// The index of a coordinate within a coordinate sequence.
#[derive(Clone, Copy, Debug, PartialEq, Eq, Structural)]
pub struct CoordinatePosition(pub usize);

/// The index of a member within a collection of geometries.
#[derive(Clone, Copy, Debug, PartialEq, Eq, Structural)]
pub struct GeometryPosition(pub usize);

/// Where, inside the checked geometry, a violation lies.
#[derive(Clone, Copy, Debug, PartialEq, Eq, Structural)]
pub enum ProblemPosition {
    /// The point itself.
    Point,
    /// A coordinate of a line string.
    LineString(CoordinatePosition),
    /// A point of a multi-point.
    MultiPoint(GeometryPosition),
    /// A coordinate of a member line string of a multi-line-string.
    MultiLineString(GeometryPosition, CoordinatePosition),
}

/// A violation together with its position.
#[derive(Clone, Copy, Debug, PartialEq, Eq, Structural)]
pub struct ProblemAtPosition(pub Problem, pub ProblemPosition);

/// A validity report: `None` for a valid geometry, else the violations in
/// traversal order.
pub type Report = Option<Vec<ProblemAtPosition>>;

/// The violations that a report lists (none when it is absent).
pub open spec fn report_view(r: Report) -> Seq<ProblemAtPosition> {
    match r {
        Some(v) => v@,
        None => Seq::empty(),
    }
}

/// The report lists exactly the violations `p`, and is absent exactly when
/// there are none.
pub open spec fn is_report_of(r: Report, p: Seq<ProblemAtPosition>) -> bool {
    report_view(r) == p && (r is None <==> p.len() == 0)
}

/// Turns a list of violations into a report.
pub fn into_report(v: Vec<ProblemAtPosition>) -> (r: Report)
    ensures
        is_report_of(r, v@),
{
    if v.len() == 0 {
        assert(v@ =~= Seq::empty());
        None
    } else {
        Some(v)
    }
}

/// The position of a line string's coordinate, seen from the collection
/// that holds the line string as its member `j`.
pub open spec fn lift_line_position(j: usize, pos: ProblemPosition) -> ProblemPosition {
    match pos {
        ProblemPosition::LineString(c) => ProblemPosition::MultiLineString(GeometryPosition(j), c),
        _ => pos,
    }
}

/// A line string's violation, seen from the collection that holds it as its
/// member `j`.
pub open spec fn lift_line_problem(j: usize, p: ProblemAtPosition) -> ProblemAtPosition {
    ProblemAtPosition(p.0, lift_line_position(j, p.1))
}

/// Every violation is located on a line string's coordinate.
pub open spec fn all_on_line_string(p: Seq<ProblemAtPosition>) -> bool {
    forall|k: int| 0 <= k < p.len() ==> p[k].1 is LineString
}

/// Appends the violations of member `j` of a multi-line-string to `out`,
/// each position wrapped one level deeper.
pub fn push_lifted_line_problems(j: usize, child: &Vec<ProblemAtPosition>, out: &mut Vec<ProblemAtPosition>)
    requires
        all_on_line_string(child@),
    ensures
        final(out)@ == old(out)@ + child@.map_values(|p: ProblemAtPosition| lift_line_problem(j, p)),
{
    let ghost start = out@;
    let mut i: usize = 0;
    while i < child.len()
        invariant
            i <= child.len(),
            all_on_line_string(child@),
            out@ == start + child@.subrange(0, i as int).map_values(|p: ProblemAtPosition| lift_line_problem(j, p)),
        decreases child.len() - i,
    {
        let ProblemAtPosition(problem, position) = child[i];
        match position {
            ProblemPosition::LineString(c) => {
                out.push(ProblemAtPosition(problem, ProblemPosition::MultiLineString(GeometryPosition(j), c)));
            },
            _ => {
                assert(child@[i as int].1 is LineString);
            },
        }
        i = i + 1;
        assert(child@.subrange(0, i as int) == child@.subrange(0, i - 1).push(child@[i - 1]));
    }
    assert(child@.subrange(0, i as int) == child@);
}

} // verus!
