use vstd::prelude::*;
use crate::linestring::{lemma_line_problems_located, lemma_line_string_valid_iff_no_problems, LineString};
use crate::problem::{
    into_report, is_report_of, lift_line_problem, push_lifted_line_problems, report_view,
    ProblemAtPosition, Report,
};

verus! {

/// A collection of line strings.
#[derive(Debug)]
pub struct MultiLineString(pub Vec<LineString>);

/// The reports of the first `n` member line strings, in member order, each
/// with the member's index attached to its positions.
pub open spec fn multi_line_problems(s: Seq<LineString>, n: nat) -> Seq<ProblemAtPosition>
    decreases n,
{
    if n == 0 {
        Seq::empty()
    } else {
        multi_line_problems(s, (n - 1) as nat) + s[n - 1].problems().map_values(
            |p: ProblemAtPosition| lift_line_problem((n - 1) as usize, p),
        )
    }
}

impl MultiLineString {
    /// Every member line string valid.
    pub open spec fn valid(self) -> bool {
        forall|i: int| 0 <= i < self.0@.len() ==> self.0@[i].valid()
    }

    /// The concatenation of the members' reports, member index attached.
    pub open spec fn problems(self) -> Seq<ProblemAtPosition> {
        multi_line_problems(self.0@, self.0@.len())
    }

    /// Whether the multi-line-string is valid.
    pub fn is_valid(&self) -> (r: bool)
        ensures
            r == self.valid(),
    {
        let mut i: usize = 0;
        while i < self.0.len()
            invariant
                i <= self.0.len(),
                forall|k: int| 0 <= k < i ==> self.0@[k].valid(),
            decreases self.0.len() - i,
        {
            if !self.0[i].is_valid() {
                return false;
            }
            i = i + 1;
        }
        true
    }

    /// Every violation of the multi-line-string, or `None` when it is valid.
    pub fn explain_invalidity(&self) -> (r: Report)
        ensures
            is_report_of(r, self.problems()),
    {
        let mut reason: Vec<ProblemAtPosition> = Vec::new();
        let mut j: usize = 0;
        while j < self.0.len()
            invariant
                j <= self.0.len(),
                reason@ == multi_line_problems(self.0@, j as nat),
            decreases self.0.len() - j,
        {
            let line = &self.0[j];
            let temp_reason = line.explain_invalidity();
            proof {
                lemma_line_problems_located(*line);
            }
            match temp_reason {
                Some(temp) => {
                    push_lifted_line_problems(j, &temp, &mut reason);
                },
                None => {
                    assert(report_view(temp_reason) =~= Seq::empty());
                },
            }
            j = j + 1;
            assert(reason@ =~= multi_line_problems(self.0@, j as nat));
        }
        into_report(reason)
    }
}

/// The reports of the first `n` members are all empty exactly when those
/// members are all valid.
pub proof fn lemma_multi_line_problems_empty(s: Seq<LineString>, n: nat)
    requires
        n <= s.len(),
    ensures
        multi_line_problems(s, n).len() == 0 <==> forall|i: int| 0 <= i < n ==> s[i].valid(),
    decreases n,
{
    if n > 0 {
        lemma_multi_line_problems_empty(s, (n - 1) as nat);
        lemma_line_string_valid_iff_no_problems(s[n - 1]);
    }
}

/// A multi-line-string is valid exactly when its report is empty.
pub proof fn lemma_multi_line_string_valid_iff_no_problems(ml: MultiLineString)
    ensures
        ml.valid() <==> ml.problems().len() == 0,
{
    lemma_multi_line_problems_empty(ml.0@, ml.0@.len());
}

/// The reports of the first `n` members depend on those members alone.
pub proof fn lemma_multi_line_problems_prefix(s: Seq<LineString>, t: Seq<LineString>, n: nat)
    requires
        n <= s.len(),
        n <= t.len(),
        forall|i: int| 0 <= i < n ==> s[i] == t[i],
    ensures
        multi_line_problems(s, n) == multi_line_problems(t, n),
    decreases n,
{
    if n > 0 {
        lemma_multi_line_problems_prefix(s, t, (n - 1) as nat);
    }
}

/// Adding a line string at the end of a collection keeps the report of the
/// members already there, in order, and appends the new member's report with
/// its index attached; the number of violations grows by the new member's.
pub proof fn lemma_multi_line_report_appends_member(s: Seq<LineString>, l: LineString)
    ensures
        multi_line_problems(s.push(l), s.len() + 1) == multi_line_problems(s, s.len()) + l.problems().map_values(
            |p: ProblemAtPosition| lift_line_problem(s.len() as usize, p),
        ),
        multi_line_problems(s.push(l), s.len() + 1).len() == multi_line_problems(s, s.len()).len() + l.problems().len(),
{
    lemma_multi_line_problems_prefix(s.push(l), s, s.len());
}

} // verus!
