use vstd::prelude::*;
use crate::linestring::{lemma_line_string_valid_iff_no_problems, LineString};
use crate::multilinestring::{lemma_multi_line_string_valid_iff_no_problems, MultiLineString};
use crate::multipoint::{lemma_multi_point_valid_iff_no_problems, MultiPoint, Point};
use crate::problem::{is_report_of, report_view, ProblemAtPosition, Report};

verus! {

/// A geometry of any of the supported kinds.
#[derive(Debug)]
pub enum Geometry {
    Point(Point),
    LineString(LineString),
    MultiPoint(MultiPoint),
    MultiLineString(MultiLineString),
}

impl Geometry {
    /// Validity by the rules of the geometry's kind.
    pub open spec fn valid(self) -> bool {
        match self {
            Geometry::Point(g) => g.valid(),
            Geometry::LineString(g) => g.valid(),
            Geometry::MultiPoint(g) => g.valid(),
            Geometry::MultiLineString(g) => g.valid(),
        }
    }

    /// The violations by the rules of the geometry's kind.
    pub open spec fn problems(self) -> Seq<ProblemAtPosition> {
        match self {
            Geometry::Point(g) => g.problems(),
            Geometry::LineString(g) => g.problems(),
            Geometry::MultiPoint(g) => g.problems(),
            Geometry::MultiLineString(g) => g.problems(),
        }
    }

    /// Whether the geometry is valid.
    pub fn is_valid(&self) -> (r: bool)
        ensures
            r == self.valid(),
    {
        match self {
            Geometry::Point(g) => g.is_valid(),
            Geometry::LineString(g) => g.is_valid(),
            Geometry::MultiPoint(g) => g.is_valid(),
            Geometry::MultiLineString(g) => g.is_valid(),
        }
    }

    /// Every violation of the geometry, or `None` when it is valid.
    pub fn explain_invalidity(&self) -> (r: Report)
        ensures
            is_report_of(r, self.problems()),
    {
        match self {
            Geometry::Point(g) => g.explain_invalidity(),
            Geometry::LineString(g) => g.explain_invalidity(),
            Geometry::MultiPoint(g) => g.explain_invalidity(),
            Geometry::MultiLineString(g) => g.explain_invalidity(),
        }
    }
}

/// For every geometry, `is_valid` holds exactly when `explain_invalidity`
/// reports nothing.
pub proof fn lemma_valid_iff_report_absent(g: Geometry, r: Report)
    requires
        is_report_of(r, g.problems()),
    ensures
        g.valid() <==> r is None,
        g.valid() <==> report_view(r).len() == 0,
{
    match g {
        Geometry::Point(p) => {},
        Geometry::LineString(l) => lemma_line_string_valid_iff_no_problems(l),
        Geometry::MultiPoint(m) => lemma_multi_point_valid_iff_no_problems(m),
        Geometry::MultiLineString(m) => lemma_multi_line_string_valid_iff_no_problems(m),
    }
}

/// Two reports of the same geometry list the same violations in the same
/// order, and one is absent exactly when the other is.
pub proof fn lemma_report_deterministic(g: Geometry, r1: Report, r2: Report)
    requires
        is_report_of(r1, g.problems()),
        is_report_of(r2, g.problems()),
    ensures
        report_view(r1) == report_view(r2),
        r1 is None <==> r2 is None,
{
}

} // verus!
