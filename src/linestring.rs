use vstd::prelude::*;
use crate::coord::Coord;
use crate::problem::{
    all_on_line_string, into_report, is_report_of, CoordinatePosition, Problem, ProblemAtPosition,
    ProblemPosition, Report,
};

verus! {

/// A line string: an ordered sequence of coordinates.
#[derive(Debug)]
pub struct LineString(pub Vec<Coord>);

/// The number of points left once every maximal run of consecutive equal
/// coordinates is collapsed to one.
pub open spec fn distinct_count(s: Seq<Coord>) -> nat
    decreases s.len(),
{
    if s.len() <= 1 {
        s.len()
    } else {
        distinct_count(s.drop_last()) + if s[s.len() - 2].same(s[s.len() - 1]) {
            0nat
        } else {
            1nat
        }
    }
}

/// The least number of distinct points: four for a closed ring (its closing
/// point counted twice), two for an open line string.
pub open spec fn min_points(is_ring: bool) -> nat {
    if is_ring {
        4
    } else {
        2
    }
}

/// The violations `NotFinite` among the first `n` coordinates, in order.
pub open spec fn not_finite_line_problems(s: Seq<Coord>, n: nat) -> Seq<ProblemAtPosition>
    decreases n,
{
    if n == 0 {
        Seq::empty()
    } else {
        not_finite_line_problems(s, (n - 1) as nat) + if s[n - 1].finite() {
            Seq::empty()
        } else {
            seq![ProblemAtPosition(Problem::NotFinite, ProblemPosition::LineString(CoordinatePosition((n - 1) as usize)))]
        }
    }
}

/// The single violation of a line string with too few distinct points.
pub open spec fn too_few_line_problem() -> ProblemAtPosition {
    ProblemAtPosition(Problem::TooFewPoints, ProblemPosition::LineString(CoordinatePosition(0)))
}

/// Collapses runs of consecutive equal coordinates and counts what is left.
pub fn count_distinct_points(coords: &Vec<Coord>) -> (r: usize)
    ensures
        r == distinct_count(coords@),
{
    if coords.len() == 0 {
        return 0;
    }
    let mut count: usize = 1;
    let mut i: usize = 1;
    assert(coords@.subrange(0, 1).len() == 1);
    while i < coords.len()
        invariant
            1 <= i <= coords.len(),
            count <= i,
            count == distinct_count(coords@.subrange(0, i as int)),
        decreases coords.len() - i,
    {
        let ghost before = coords@.subrange(0, i as int);
        let ghost after = coords@.subrange(0, i + 1);
        assert(after.drop_last() =~= before);
        if !coords[i - 1].same_as(&coords[i]) {
            count = count + 1;
        }
        i = i + 1;
    }
    assert(coords@.subrange(0, i as int) =~= coords@);
    count
}

/// Whether the line string has fewer distinct points than its kind needs.
pub fn check_too_few_points(geom: &LineString, is_ring: bool) -> (r: bool)
    ensures
        r == (distinct_count(geom.0@) < min_points(is_ring)),
{
    let n_pts: usize = if is_ring {
        4
    } else {
        2
    };
    count_distinct_points(&geom.0) < n_pts
}

impl LineString {
    /// At least two distinct points, and every coordinate finite.
    pub open spec fn valid(self) -> bool {
        distinct_count(self.0@) >= 2 && forall|i: int| 0 <= i < self.0@.len() ==> self.0@[i].finite()
    }

    /// Every violation of the line string: too few distinct points first
    /// (located at coordinate 0), then each coordinate that is not finite.
    pub open spec fn problems(self) -> Seq<ProblemAtPosition> {
        (if distinct_count(self.0@) < 2 {
            seq![too_few_line_problem()]
        } else {
            Seq::empty()
        }) + not_finite_line_problems(self.0@, self.0@.len())
    }

    /// Whether the line string is valid.
    pub fn is_valid(&self) -> (r: bool)
        ensures
            r == self.valid(),
    {
        if check_too_few_points(self, false) {
            return false;
        }
        let mut i: usize = 0;
        while i < self.0.len()
            invariant
                i <= self.0.len(),
                forall|k: int| 0 <= k < i ==> self.0@[k].finite(),
            decreases self.0.len() - i,
        {
            if !self.0[i].is_valid() {
                return false;
            }
            i = i + 1;
        }
        true
    }

    /// Every violation of the line string, or `None` when it is valid.
    pub fn explain_invalidity(&self) -> (r: Report)
        ensures
            is_report_of(r, self.problems()),
    {
        let mut reason: Vec<ProblemAtPosition> = Vec::new();
        if check_too_few_points(self, false) {
            reason.push(ProblemAtPosition(Problem::TooFewPoints, ProblemPosition::LineString(CoordinatePosition(0))));
        }
        let ghost head = reason@;
        let mut i: usize = 0;
        while i < self.0.len()
            invariant
                i <= self.0.len(),
                head == (if distinct_count(self.0@) < 2 {
                    seq![too_few_line_problem()]
                } else {
                    Seq::<ProblemAtPosition>::empty()
                }),
                reason@ == head + not_finite_line_problems(self.0@, i as nat),
            decreases self.0.len() - i,
        {
            if crate::coord::check_coord_is_not_finite(&self.0[i]) {
                reason.push(ProblemAtPosition(Problem::NotFinite, ProblemPosition::LineString(CoordinatePosition(i))));
            }
            i = i + 1;
            assert(reason@ =~= head + not_finite_line_problems(self.0@, i as nat));
        }
        into_report(reason)
    }
}

/// The `NotFinite` violations among the first `n` coordinates are none
/// exactly when those coordinates are all finite.
pub proof fn lemma_not_finite_line_problems_empty(s: Seq<Coord>, n: nat)
    requires
        n <= s.len(),
    ensures
        not_finite_line_problems(s, n).len() == 0 <==> forall|i: int| 0 <= i < n ==> s[i].finite(),
    decreases n,
{
    if n > 0 {
        lemma_not_finite_line_problems_empty(s, (n - 1) as nat);
    }
}

/// The `NotFinite` violations among the first `n` coordinates all lie on
/// line-string coordinates.
pub proof fn lemma_not_finite_line_problems_located(s: Seq<Coord>, n: nat)
    requires
        n <= s.len(),
    ensures
        all_on_line_string(not_finite_line_problems(s, n)),
        forall|k: int| 0 <= k < not_finite_line_problems(s, n).len() ==>
            (#[trigger] not_finite_line_problems(s, n)[k]).0 == Problem::NotFinite,
    decreases n,
{
    if n > 0 {
        lemma_not_finite_line_problems_located(s, (n - 1) as nat);
    }
}

/// Every violation that a line string's report lists is located on one of
/// its coordinates.
pub proof fn lemma_line_problems_located(ls: LineString)
    ensures
        all_on_line_string(ls.problems()),
{
    lemma_not_finite_line_problems_located(ls.0@, ls.0@.len());
}

/// A line string is valid exactly when its report is empty.
pub proof fn lemma_line_string_valid_iff_no_problems(ls: LineString)
    ensures
        ls.valid() <==> ls.problems().len() == 0,
{
    lemma_not_finite_line_problems_empty(ls.0@, ls.0@.len());
}

/// A line string with fewer than two distinct points is reported with
/// exactly one `TooFewPoints` violation, at coordinate 0, which comes first.
pub proof fn lemma_too_few_points_reported_once(ls: LineString)
    requires
        distinct_count(ls.0@) < 2,
    ensures
        ls.problems().len() >= 1,
        ls.problems()[0] == too_few_line_problem(),
        forall|k: int| 1 <= k < ls.problems().len() ==> (#[trigger] ls.problems()[k]).0 != Problem::TooFewPoints,
{
    let t = not_finite_line_problems(ls.0@, ls.0@.len());
    lemma_not_finite_line_problems_located(ls.0@, ls.0@.len());
    assert forall|k: int| 1 <= k < ls.problems().len() implies (#[trigger] ls.problems()[k]).0 != Problem::TooFewPoints by {
        assert(ls.problems()[k] == t[k - 1]);
    }
}

/// The violation `NotFinite` at coordinate `i` of a line string.
pub open spec fn not_finite_at(i: int) -> ProblemAtPosition {
    ProblemAtPosition(Problem::NotFinite, ProblemPosition::LineString(CoordinatePosition(i as usize)))
}

/// Among the first `n` coordinates, coordinate `i` is reported not finite
/// exactly when it is not, and every report names one of them.
pub proof fn lemma_not_finite_line_problems_exact(s: Seq<Coord>, n: nat)
    requires
        n <= s.len(),
        s.len() <= usize::MAX,
    ensures
        forall|k: int| 0 <= k < not_finite_line_problems(s, n).len() ==>
            exists|i: int| 0 <= i < n && !s[i].finite() && #[trigger] not_finite_line_problems(s, n)[k] == not_finite_at(i),
        forall|i: int| 0 <= i < n && !s[i].finite() ==> not_finite_line_problems(s, n).contains(#[trigger] not_finite_at(i)),
    decreases n,
{
    if n > 0 {
        let m = (n - 1) as nat;
        lemma_not_finite_line_problems_exact(s, m);
        let prev = not_finite_line_problems(s, m);
        let cur = not_finite_line_problems(s, n);
        assert forall|k: int| 0 <= k < cur.len() implies exists|i: int|
            0 <= i < n && !s[i].finite() && #[trigger] cur[k] == not_finite_at(i) by {
            if k < prev.len() {
                assert(cur[k] == prev[k]);
            } else {
                assert(cur[k] == not_finite_at(m as int));
            }
        }
        assert forall|i: int| 0 <= i < n && !s[i].finite() implies cur.contains(#[trigger] not_finite_at(i)) by {
            if i < m {
                let k = choose|k: int| 0 <= k < prev.len() && prev[k] == not_finite_at(i);
                assert(cur[k] == prev[k]);
            } else {
                assert(cur[prev.len() as int] == not_finite_at(i));
            }
        }
    }
}

/// A line string's report is exhaustive and precise about coordinates that
/// are not finite: coordinate `i` is reported `NotFinite`, at position `i`,
/// exactly when one of its components is NaN or infinite.
pub proof fn lemma_not_finite_reported_exactly(ls: LineString, i: int)
    requires
        ls.0@.len() <= usize::MAX,
        0 <= i < ls.0@.len(),
    ensures
        ls.problems().contains(not_finite_at(i)) <==> !ls.0@[i].finite(),
{
    let s = ls.0@;
    let t = not_finite_line_problems(s, s.len());
    let head = if distinct_count(s) < 2 {
        seq![too_few_line_problem()]
    } else {
        Seq::<ProblemAtPosition>::empty()
    };
    lemma_not_finite_line_problems_exact(s, s.len());
    if ls.problems().contains(not_finite_at(i)) {
        let k = choose|k: int| 0 <= k < ls.problems().len() && ls.problems()[k] == not_finite_at(i);
        if k >= head.len() {
            assert(ls.problems()[k] == t[k - head.len()]);
            let j = choose|j: int| 0 <= j < s.len() && !s[j].finite() && #[trigger] t[k - head.len()] == not_finite_at(j);
            assert(i as usize == j as usize);
        }
    }
    if !s[i].finite() {
        assert(t.contains(not_finite_at(i)));
        let k = choose|k: int| 0 <= k < t.len() && t[k] == not_finite_at(i);
        assert(ls.problems()[k + head.len()] == t[k]);
    }
}

} // verus!
