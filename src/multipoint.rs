use vstd::prelude::*;
use crate::coord::{check_coord_is_not_finite, Coord};
use crate::problem::{into_report, is_report_of, GeometryPosition, Problem, ProblemAtPosition, ProblemPosition, Report};

verus! {

/// A single point.
#[derive(Clone, Copy, Debug)]
pub struct Point(pub Coord);

/// A collection of points.
#[derive(Debug)]
pub struct MultiPoint(pub Vec<Point>);

impl Point {
    /// The point with the given component bit patterns.
    pub fn new(x: u64, y: u64) -> (r: Point)
        ensures
            r.0.x == x,
            r.0.y == y,
    {
        Point(Coord::from_bits(x, y))
    }

    /// A point is valid when its coordinate is finite.
    pub open spec fn valid(self) -> bool {
        self.0.finite()
    }

    /// The violations of a point: `NotFinite` at the point, or none.
    pub open spec fn problems(self) -> Seq<ProblemAtPosition> {
        if self.0.finite() {
            Seq::empty()
        } else {
            seq![ProblemAtPosition(Problem::NotFinite, ProblemPosition::Point)]
        }
    }

    /// Whether the point is valid.
    pub fn is_valid(&self) -> (r: bool)
        ensures
            r == self.valid(),
    {
        self.0.is_valid()
    }

    /// The violations of the point, or `None` when it is valid.
    pub fn explain_invalidity(&self) -> (r: Report)
        ensures
            is_report_of(r, self.problems()),
    {
        let mut reason: Vec<ProblemAtPosition> = Vec::new();
        if check_coord_is_not_finite(&self.0) {
            reason.push(ProblemAtPosition(Problem::NotFinite, ProblemPosition::Point));
        }
        assert(reason@ =~= self.problems());
        into_report(reason)
    }
}

/// The violations among the first `n` points of a multi-point, in order.
pub open spec fn multi_point_problems(s: Seq<Point>, n: nat) -> Seq<ProblemAtPosition>
    decreases n,
{
    if n == 0 {
        Seq::empty()
    } else {
        multi_point_problems(s, (n - 1) as nat) + if s[n - 1].0.finite() {
            Seq::empty()
        } else {
            seq![ProblemAtPosition(Problem::NotFinite, ProblemPosition::MultiPoint(GeometryPosition((n - 1) as usize)))]
        }
    }
}

/// A point's violation, seen from the multi-point that holds it as its
/// member `j`.
pub open spec fn lift_point_problem(j: usize, p: ProblemAtPosition) -> ProblemAtPosition {
    match p.1 {
        ProblemPosition::Point => ProblemAtPosition(p.0, ProblemPosition::MultiPoint(GeometryPosition(j))),
        _ => p,
    }
}

/// The reports of the first `n` members, in member order, each with the
/// member's index attached to its positions.
pub open spec fn lifted_point_reports(s: Seq<Point>, n: nat) -> Seq<ProblemAtPosition>
    decreases n,
{
    if n == 0 {
        Seq::empty()
    } else {
        lifted_point_reports(s, (n - 1) as nat) + s[n - 1].problems().map_values(
            |p: ProblemAtPosition| lift_point_problem((n - 1) as usize, p),
        )
    }
}

impl MultiPoint {
    /// Every point finite.
    pub open spec fn valid(self) -> bool {
        forall|i: int| 0 <= i < self.0@.len() ==> self.0@[i].valid()
    }

    /// A `NotFinite` violation for each point that is not finite, in order.
    pub open spec fn problems(self) -> Seq<ProblemAtPosition> {
        multi_point_problems(self.0@, self.0@.len())
    }

    /// Whether the multi-point is valid.
    pub fn is_valid(&self) -> (r: bool)
        ensures
            r == self.valid(),
    {
        let mut i: usize = 0;
        while i < self.0.len()
            invariant
                i <= self.0.len(),
                forall|k: int| 0 <= k < i ==> self.0@[k].valid(),
            decreases self.0.len() - i,
        {
            if !self.0[i].is_valid() {
                return false;
            }
            i = i + 1;
        }
        true
    }

    /// Every violation of the multi-point, or `None` when it is valid.
    pub fn explain_invalidity(&self) -> (r: Report)
        ensures
            is_report_of(r, self.problems()),
    {
        let mut reason: Vec<ProblemAtPosition> = Vec::new();
        let mut i: usize = 0;
        while i < self.0.len()
            invariant
                i <= self.0.len(),
                reason@ == multi_point_problems(self.0@, i as nat),
            decreases self.0.len() - i,
        {
            if check_coord_is_not_finite(&self.0[i].0) {
                reason.push(ProblemAtPosition(Problem::NotFinite, ProblemPosition::MultiPoint(GeometryPosition(i))));
            }
            i = i + 1;
            assert(reason@ =~= multi_point_problems(self.0@, i as nat));
        }
        into_report(reason)
    }
}

/// The violations among the first `n` points are none exactly when those
/// points are all valid.
pub proof fn lemma_multi_point_problems_empty(s: Seq<Point>, n: nat)
    requires
        n <= s.len(),
    ensures
        multi_point_problems(s, n).len() == 0 <==> forall|i: int| 0 <= i < n ==> s[i].valid(),
    decreases n,
{
    if n > 0 {
        lemma_multi_point_problems_empty(s, (n - 1) as nat);
    }
}

/// A multi-point is valid exactly when its report is empty.
pub proof fn lemma_multi_point_valid_iff_no_problems(mp: MultiPoint)
    ensures
        mp.valid() <==> mp.problems().len() == 0,
{
    lemma_multi_point_problems_empty(mp.0@, mp.0@.len());
}

/// A multi-point's report is the concatenation, in member order, of the
/// reports of its points, with each member's index attached to the
/// positions of its violations.
pub proof fn lemma_multi_point_report_concatenates_members(s: Seq<Point>, n: nat)
    requires
        n <= s.len(),
    ensures
        multi_point_problems(s, n) == lifted_point_reports(s, n),
    decreases n,
{
    if n > 0 {
        lemma_multi_point_problems_empty(s, 0);
        lemma_multi_point_report_concatenates_members(s, (n - 1) as nat);
        let m = s[n - 1].problems().map_values(|p: ProblemAtPosition| lift_point_problem((n - 1) as usize, p));
        if s[n - 1].0.finite() {
            assert(m =~= Seq::empty());
        } else {
            assert(m =~= seq![ProblemAtPosition(Problem::NotFinite, ProblemPosition::MultiPoint(GeometryPosition((n - 1) as usize)))]);
        }
    }
}

} // verus!
