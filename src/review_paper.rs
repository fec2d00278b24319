use vstd::prelude::*;
use crate::review_status::{Verdict, counters_ok, ratio_of, shifted, total_of};
use crate::state::{ErrorCode, Identity, Paper, Review, UserAccount};

verus! {

/// Largest rejection percentage at which a paper stays listed.
pub const MAX_REJECTION_RATIO: i64 = 20;

/// A reader's request to review a paper, with what the ledger holds on them.
pub struct ReviewPaper {
    pub signer: Identity,
    pub reviewer_user_account: UserAccount,
    pub paper: Paper,
    /// The signer holds a co-author record for the paper.
    pub is_author: bool,
    /// The signer holds a purchase record for the paper.
    pub has_purchase: bool,
}

impl ReviewPaper {
    pub open spec fn wf(&self) -> bool {
        counters_ok(self.paper.review_status)
    }
}

/// Why `ctx` may not review, if it may not. Reviewing is reserved for readers who
/// bought the paper and are neither its owner nor a co-author.
pub open spec fn review_error(ctx: ReviewPaper) -> Option<ErrorCode> {
    if ctx.paper.owner@ == ctx.signer@ || ctx.is_author {
        Some(ErrorCode::Unauthorized)
    } else if !ctx.has_purchase {
        Some(ErrorCode::PurchaseRequired)
    } else if ctx.paper.reviews == u32::MAX || total_of(ctx.paper.review_status) == i64::MAX
        || ctx.reviewer_user_account.reviews == u32::MAX {
        Some(ErrorCode::MathOverflow)
    } else {
        None
    }
}

/// `q` is `p` after one more review with `verdict` at `now`: one more review and one
/// more of that verdict, unlisted when the rejection ratio exceeds the limit.
pub open spec fn paper_reviewed(p: Paper, q: Paper, verdict: Verdict, now: u64) -> bool {
    &&& shifted(p.review_status, q.review_status, verdict, 1)
    &&& q == (Paper {
        reviews: (p.reviews + 1) as u32,
        review_status: q.review_status,
        listed: if ratio_of(q.review_status) > MAX_REJECTION_RATIO {
            false
        } else {
            p.listed
        },
        timestamp: now,
        ..p
    })
}

/// `v` is the reviewing user's account `u` with one more review, stamped at `now`.
pub open spec fn reviewer_counted(u: UserAccount, v: UserAccount, now: u64) -> bool {
    v == (UserAccount { reviews: (u.reviews + 1) as u32, timestamp: now, ..u })
}

impl ReviewPaper {
    /// Stores a new verdict on the paper. Its review count and the count of that
    /// verdict go up by one, it is unlisted when its rejection ratio exceeds the limit,
    /// and the account of the reviewing user counts one more review. Returns the new
    /// review record.
    pub fn review_paper(&mut self, _id: u64, verdict: Verdict, uri: String, now: u64) -> (r: Result<Review, ErrorCode>)
        requires
            old(self).wf(),
        ensures
            final(self).wf(),
            r is Err <==> review_error(*old(self)) is Some,
            r is Err ==> r == Err::<Review, ErrorCode>(review_error(*old(self))->0)
                && *final(self) == *old(self),
            r matches Ok(rec) ==> {
                &&& rec.owner == old(self).signer
                &&& rec.paper@ == old(self).paper.key()
                &&& rec.verdict == verdict
                &&& rec.timestamp == now
                &&& rec.review_uri@ == uri@
                &&& paper_reviewed(old(self).paper, final(self).paper, verdict, now)
                &&& reviewer_counted(old(self).reviewer_user_account, final(self).reviewer_user_account, now)
                &&& final(self).signer == old(self).signer
                &&& final(self).is_author == old(self).is_author
                &&& final(self).has_purchase == old(self).has_purchase
            },
    {
        if self.paper.owner.same(&self.signer) || self.is_author {
            return Err(ErrorCode::Unauthorized);
        }
        if !self.has_purchase {
            return Err(ErrorCode::PurchaseRequired);
        }
        let st = self.paper.review_status;
        if self.paper.reviews == u32::MAX || st.approved + st.rejected + st.review_requested
            == i64::MAX || self.reviewer_user_account.reviews == u32::MAX {
            return Err(ErrorCode::MathOverflow);
        }
        let review = Review {
            owner: self.signer,
            paper: self.paper.paper_key(),
            verdict,
            timestamp: now,
            review_uri: uri,
        };
        self.paper.reviews = self.paper.reviews + 1;
        self.paper.timestamp = now;
        self.paper.review_status.update(&verdict);
        let ratio = self.paper.review_status.rejection_ratio();
        if ratio > MAX_REJECTION_RATIO {
            self.paper.listed = false;
        }
        self.reviewer_user_account.reviews = self.reviewer_user_account.reviews + 1;
        self.reviewer_user_account.timestamp = now;
        Ok(review)
    }
}

} // verus!
