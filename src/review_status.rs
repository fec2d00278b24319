use vstd::prelude::*;
use crate::state::ErrorCode;

verus! {

/// The outcome of a single review.
#[derive(Clone, Copy, Debug, PartialEq, Eq, Structural)]
pub enum Verdict {
    Approved,
    Rejected,
    ReviewRequested,
}

/// Per-paper aggregate of verdict counts.
#[derive(Clone, Copy, Debug, PartialEq, Eq, Structural)]
pub struct ReviewStatus {
    pub approved: i64,
    pub rejected: i64,
    pub review_requested: i64,
}

/// Sum of the three buckets.
pub open spec fn total_of(s: ReviewStatus) -> int {
    s.approved + s.rejected + s.review_requested
}

/// The counters are non-negative and their sum fits in an `i64`.
pub open spec fn counters_ok(s: ReviewStatus) -> bool {
    &&& 0 <= s.approved
    &&& 0 <= s.rejected
    &&& 0 <= s.review_requested
    &&& total_of(s) <= i64::MAX
}

/// The number recorded in the bucket of `v`.
pub open spec fn bucket(s: ReviewStatus, v: Verdict) -> int {
    match v {
        Verdict::Approved => s.approved as int,
        Verdict::Rejected => s.rejected as int,
        Verdict::ReviewRequested => s.review_requested as int,
    }
}

/// `t` is `s` with the bucket of `v` moved by `d` and the other two unchanged.
pub open spec fn shifted(s: ReviewStatus, t: ReviewStatus, v: Verdict, d: int) -> bool {
    forall|w: Verdict| #[trigger] bucket(t, w) == bucket(s, w) + if w == v { d } else { 0 }
}

/// Percentage of rejections, truncated; zero when nothing was recorded.
pub open spec fn ratio_of(s: ReviewStatus) -> int {
    if total_of(s) == 0 {
        0
    } else {
        (s.rejected as int * 100) / total_of(s)
    }
}

/// How a bucket moves when a review's verdict goes from `prev` to `next`: the new
/// bucket gains one, and only a pending request is taken back from the old one.
pub open spec fn edit_delta(prev: Verdict, next: Verdict, w: Verdict) -> int {
    (if w == next { 1int } else { 0int }) - (if w == prev && prev == Verdict::ReviewRequested {
        1int
    } else {
        0int
    })
}

/// Why moving a verdict from `prev` to `next` cannot be counted, if it cannot.
pub open spec fn edit_error(s: ReviewStatus, prev: Verdict) -> Option<ErrorCode> {
    if prev == Verdict::ReviewRequested {
        if s.review_requested == 0 {
            Some(ErrorCode::MathOverflow)
        } else {
            None
        }
    } else if total_of(s) == i64::MAX {
        Some(ErrorCode::MathOverflow)
    } else {
        None
    }
}

/// `t` is `s` after a review's verdict went from `prev` to `next`.
pub open spec fn edited(s: ReviewStatus, t: ReviewStatus, prev: Verdict, next: Verdict) -> bool {
    forall|w: Verdict| #[trigger] bucket(t, w) == bucket(s, w) + edit_delta(prev, next, w)
}

impl ReviewStatus {
    /// All three counters at zero.
    pub fn new() -> (r: ReviewStatus)
        ensures
            r == (ReviewStatus { approved: 0, rejected: 0, review_requested: 0 }),
    {
        ReviewStatus { approved: 0, rejected: 0, review_requested: 0 }
    }

    /// Counts one more verdict in its bucket.
    pub fn update(&mut self, verdict: &Verdict)
        requires
            counters_ok(*old(self)),
            total_of(*old(self)) < i64::MAX,
        ensures
            shifted(*old(self), *final(self), *verdict, 1),
            counters_ok(*final(self)),
            total_of(*final(self)) == total_of(*old(self)) + 1,
    {
        match verdict {
            Verdict::Approved => {
                self.approved = self.approved + 1;
            },
            Verdict::Rejected => {
                self.rejected = self.rejected + 1;
            },
            Verdict::ReviewRequested => {
                self.review_requested = self.review_requested + 1;
            },
        }
    }

    /// Records that one review's verdict went from `prev` to `next`: `next` is counted
    /// and, where `prev` was a pending request, that request is taken back.
    pub fn apply_edit(&mut self, prev: &Verdict, next: &Verdict) -> (r: Result<(), ErrorCode>)
        requires
            counters_ok(*old(self)),
        ensures
            r == (match edit_error(*old(self), *prev) {
                Some(e) => Err(e),
                None => Ok(()),
            }),
            r is Ok ==> edited(*old(self), *final(self), *prev, *next),
            r is Ok ==> total_of(*final(self)) == total_of(*old(self)) + 1 - (
            if *prev == Verdict::ReviewRequested {
                1int
            } else {
                0int
            }),
            r is Err ==> *final(self) == *old(self),
            counters_ok(*final(self)),
    {
        if *prev == Verdict::ReviewRequested {
            if self.review_requested == 0 {
                return Err(ErrorCode::MathOverflow);
            }
            self.review_requested = self.review_requested - 1;
        } else if self.approved + self.rejected + self.review_requested == i64::MAX {
            return Err(ErrorCode::MathOverflow);
        }
        self.update(next);
        Ok(())
    }

    /// Percentage of rejected reviews, truncated toward zero; 0 when there are none.
    pub fn rejection_ratio(&self) -> (r: i64)
        requires
            counters_ok(*self),
        ensures
            r as int == ratio_of(*self),
            0 <= r <= 100,
    {
        let total: i64 = self.rejected + self.approved + self.review_requested;
        if total == 0 {
            return 0;
        }
        let r: i64 = ((self.rejected as i128) * 100 / (total as i128)) as i64;
        proof {
            let rj = self.rejected as int;
            let t = total as int;
            assert(0 <= (rj * 100) / t <= 100) by (nonlinear_arith)
                requires 0 <= rj <= t, t > 0;
        }
        r
    }

}

/// One call that records a verdict on a paper: a new review, or an edit of one
/// from the first verdict to the second.
pub enum ReviewStep {
    Submit(Verdict),
    Edit(Verdict, Verdict),
}

/// `t` is `s` after `step`, as the review operations count it.
pub open spec fn after_step(s: ReviewStatus, t: ReviewStatus, step: ReviewStep) -> bool {
    match step {
        ReviewStep::Submit(v) => shifted(s, t, v, 1),
        ReviewStep::Edit(prev, next) => edited(s, t, prev, next),
    }
}

/// Number of steps that replaced a pending request.
pub open spec fn compensated(steps: Seq<ReviewStep>) -> nat
    decreases steps.len(),
{
    if steps.len() == 0 {
        0
    } else {
        compensated(steps.drop_last()) + match steps.last() {
            ReviewStep::Edit(Verdict::ReviewRequested, _) => 1nat,
            _ => 0nat,
        }
    }
}

proof fn lemma_step_total(s: ReviewStatus, t: ReviewStatus, step: ReviewStep)
    requires
        after_step(s, t, step),
    ensures
        total_of(t) == total_of(s) + 1 - match step {
            ReviewStep::Edit(Verdict::ReviewRequested, _) => 1int,
            _ => 0int,
        },
{
    assert(bucket(t, Verdict::Approved) == bucket(s, Verdict::Approved) + match step {
        ReviewStep::Submit(v) => if v == Verdict::Approved { 1int } else { 0int },
        ReviewStep::Edit(p, n) => edit_delta(p, n, Verdict::Approved),
    });
    assert(bucket(t, Verdict::Rejected) == bucket(s, Verdict::Rejected) + match step {
        ReviewStep::Submit(v) => if v == Verdict::Rejected { 1int } else { 0int },
        ReviewStep::Edit(p, n) => edit_delta(p, n, Verdict::Rejected),
    });
    assert(bucket(t, Verdict::ReviewRequested) == bucket(s, Verdict::ReviewRequested) + match step {
        ReviewStep::Submit(v) => if v == Verdict::ReviewRequested { 1int } else { 0int },
        ReviewStep::Edit(p, n) => edit_delta(p, n, Verdict::ReviewRequested),
    });
}

/// Over any run of review submissions and edits on one paper, the counters' total
/// grows by one per recorded verdict, less one for each pending request that an edit
/// replaced.
pub proof fn lemma_total_tracks_history(states: Seq<ReviewStatus>, steps: Seq<ReviewStep>)
    requires
        states.len() == steps.len() + 1,
        forall|i: int| 0 <= i < steps.len() ==> after_step(states[i], states[i + 1], #[trigger] steps[i]),
    ensures
        total_of(states.last()) == total_of(states[0]) + steps.len() - compensated(steps),
    decreases steps.len(),
{
    if steps.len() > 0 {
        let n = steps.len() - 1;
        lemma_total_tracks_history(states.drop_last(), steps.drop_last());
        assert(after_step(states[n], states[n + 1], steps[n]));
        lemma_step_total(states[n], states[n + 1], steps[n]);
    }
}

/// Editing a pending request to an approval moves one count from the requests to the
/// approvals and leaves the rejections alone.
pub proof fn lemma_request_to_approval(s: ReviewStatus, t: ReviewStatus)
    requires
        edited(s, t, Verdict::ReviewRequested, Verdict::Approved),
    ensures
        t.review_requested == s.review_requested - 1,
        t.approved == s.approved + 1,
        t.rejected == s.rejected,
{
    assert(bucket(t, Verdict::ReviewRequested) == bucket(s, Verdict::ReviewRequested) + edit_delta(Verdict::ReviewRequested, Verdict::Approved, Verdict::ReviewRequested));
    assert(bucket(t, Verdict::Approved) == bucket(s, Verdict::Approved) + edit_delta(Verdict::ReviewRequested, Verdict::Approved, Verdict::Approved));
    assert(bucket(t, Verdict::Rejected) == bucket(s, Verdict::Rejected) + edit_delta(Verdict::ReviewRequested, Verdict::Approved, Verdict::Rejected));
}

/// Editing an approval to a rejection keeps the approval counted and adds a rejection.
pub proof fn lemma_approval_to_rejection(s: ReviewStatus, t: ReviewStatus)
    requires
        edited(s, t, Verdict::Approved, Verdict::Rejected),
    ensures
        t.approved == s.approved,
        t.rejected == s.rejected + 1,
        t.review_requested == s.review_requested,
{
    assert(bucket(t, Verdict::ReviewRequested) == bucket(s, Verdict::ReviewRequested) + edit_delta(Verdict::Approved, Verdict::Rejected, Verdict::ReviewRequested));
    assert(bucket(t, Verdict::Approved) == bucket(s, Verdict::Approved) + edit_delta(Verdict::Approved, Verdict::Rejected, Verdict::Approved));
    assert(bucket(t, Verdict::Rejected) == bucket(s, Verdict::Rejected) + edit_delta(Verdict::Approved, Verdict::Rejected, Verdict::Rejected));
}

} // verus!
