use vstd::prelude::*;
use crate::review_status::{Verdict, counters_ok, edit_error, edited, total_of};
use crate::state::{ErrorCode, Identity, Paper, Review};

verus! {

/// A request by the author of a review to change the verdict of their review of a paper.
pub struct EditReview {
    pub signer: Identity,
    pub paper: Paper,
    pub review: Review,
}

impl EditReview {
    pub open spec fn wf(&self) -> bool {
        counters_ok(self.paper.review_status)
    }
}

/// Why `ctx` cannot change its verdict, if it cannot: the review must be the signer's
/// own and be of this paper, and the counters must allow the move.
pub open spec fn edit_review_error(ctx: EditReview) -> Option<ErrorCode> {
    if ctx.review.owner@ != ctx.signer@ || ctx.review.paper@ != ctx.paper.key() {
        Some(ErrorCode::Unauthorized)
    } else {
        edit_error(ctx.paper.review_status, ctx.review.verdict)
    }
}

/// `q` is `p` after one review's verdict went from `prev` to `next` at `now`.
pub open spec fn paper_review_edited(p: Paper, q: Paper, prev: Verdict, next: Verdict, now: u64) -> bool {
    &&& edited(p.review_status, q.review_status, prev, next)
    &&& total_of(q.review_status) == total_of(p.review_status) + 1 - (if prev
        == Verdict::ReviewRequested {
        1int
    } else {
        0int
    })
    &&& q == (Paper {
        review_status: q.review_status,
        listed: p.listed || next == Verdict::Approved,
        timestamp: now,
        ..p
    })
}

impl EditReview {
    /// Moves the review to `verdict`. The new verdict is counted; a pending request
    /// that is replaced is taken back, other earlier verdicts stay counted. An edit
    /// to approval lists the paper; no edit unlists it.
    pub fn edit_review(&mut self, _id: u64, verdict: Verdict, now: u64) -> (r: Result<(), ErrorCode>)
        requires
            old(self).wf(),
        ensures
            final(self).wf(),
            r == (match edit_review_error(*old(self)) {
                Some(e) => Err(e),
                None => Ok(()),
            }),
            r is Err ==> *final(self) == *old(self),
            r is Ok ==> {
                &&& paper_review_edited(old(self).paper, final(self).paper, old(self).review.verdict, verdict, now)
                &&& final(self).review == (Review { verdict, timestamp: now, ..old(self).review })
                &&& final(self).signer == old(self).signer
            },
    {
        if !self.review.owner.same(&self.signer) || !self.review.paper.same(
            &self.paper.paper_key(),
        ) {
            return Err(ErrorCode::Unauthorized);
        }
        let prev = self.review.verdict;
        self.paper.review_status.apply_edit(&prev, &verdict)?;
        self.review.verdict = verdict;
        self.review.timestamp = now;
        self.paper.timestamp = now;
        if verdict == Verdict::Approved && !self.paper.listed {
            self.paper.listed = true;
        }
        Ok(())
    }
}

} // verus!
