use paperfi::edit_review::EditReview;
use paperfi::review_paper::ReviewPaper;
use paperfi::review_status::{ReviewStatus, Verdict};
use paperfi::state::{ErrorCode, Identity, Paper, PaperKey, Review, UserAccount};

fn id(b: u8) -> Identity {
    Identity::new([b; 32])
}

fn paper(owner: u8, status: ReviewStatus, listed: bool) -> Paper {
    Paper {
        id: 7,
        paper_info_url: "https://info".to_string(),
        version: 1,
        owner: id(owner),
        listed,
        price: 0,
        bump: 0,
        user_bump: 0,
        reviews: 0,
        review_status: status,
        sales: 0,
        timestamp: 0,
        paper_uri: "ipfs://paper".to_string(),
    }
}

fn account(owner: u8) -> UserAccount {
    UserAccount {
        name: "n".to_string(),
        title: "t".to_string(),
        purchases: 0,
        papers: 0,
        reviews: 0,
        owner: id(owner),
        bump: 0,
        vault_bump: 0,
        timestamp: 0,
    }
}

fn status(a: i64, r: i64, q: i64) -> ReviewStatus {
    ReviewStatus { approved: a, rejected: r, review_requested: q }
}

fn edit_ctx(st: ReviewStatus, prev: Verdict, listed: bool) -> EditReview {
    EditReview {
        signer: id(2),
        paper: paper(1, st, listed),
        review: Review {
            owner: id(2),
            paper: PaperKey { owner: id(1), id: 7 },
            verdict: prev,
            timestamp: 0,
            review_uri: "u".to_string(),
        },
    }
}

#[test]
fn update_counts_each_bucket() {
    let mut s = ReviewStatus::new();
    s.update(&Verdict::Approved);
    s.update(&Verdict::Rejected);
    s.update(&Verdict::Rejected);
    s.update(&Verdict::ReviewRequested);
    assert_eq!(s, status(1, 2, 1));
}

#[test]
fn ratio_is_zero_without_reviews() {
    assert_eq!(ReviewStatus::new().rejection_ratio(), 0);
}

#[test]
fn ratio_of_one_in_four_is_twenty_five() {
    assert_eq!(status(3, 1, 0).rejection_ratio(), 25);
}

#[test]
fn ratio_truncates() {
    assert_eq!(status(2, 1, 0).rejection_ratio(), 33);
    assert_eq!(status(0, 1, 0).rejection_ratio(), 100);
    assert_eq!(status(4, 1, 0).rejection_ratio(), 20);
}

#[test]
fn edit_request_to_approval_moves_one_count() {
    let mut ctx = edit_ctx(status(0, 0, 1), Verdict::ReviewRequested, false);
    assert_eq!(ctx.edit_review(7, Verdict::Approved, 50), Ok(()));
    assert_eq!(ctx.paper.review_status, status(1, 0, 0));
    assert!(ctx.paper.listed);
    assert_eq!(ctx.review.verdict, Verdict::Approved);
    assert_eq!(ctx.review.timestamp, 50);
    assert_eq!(ctx.paper.timestamp, 50);
}

#[test]
fn edit_approval_to_rejection_keeps_approval() {
    let mut ctx = edit_ctx(status(1, 0, 0), Verdict::Approved, true);
    assert_eq!(ctx.edit_review(7, Verdict::Rejected, 5), Ok(()));
    assert_eq!(ctx.paper.review_status, status(1, 1, 0));
    assert!(ctx.paper.listed);
}

#[test]
fn edit_never_unlists() {
    let mut ctx = edit_ctx(status(0, 3, 1), Verdict::ReviewRequested, true);
    assert_eq!(ctx.edit_review(7, Verdict::Rejected, 5), Ok(()));
    assert_eq!(ctx.paper.review_status, status(0, 4, 0));
    assert!(ctx.paper.listed);
}

#[test]
fn edit_by_another_signer_is_refused() {
    let mut ctx = edit_ctx(status(1, 0, 0), Verdict::Approved, false);
    ctx.signer = id(9);
    assert_eq!(ctx.edit_review(7, Verdict::Rejected, 5), Err(ErrorCode::Unauthorized));
    assert_eq!(ctx.paper.review_status, status(1, 0, 0));
}

#[test]
fn edit_of_missing_request_count_is_refused() {
    let mut ctx = edit_ctx(status(1, 0, 0), Verdict::ReviewRequested, false);
    assert_eq!(ctx.edit_review(7, Verdict::Approved, 5), Err(ErrorCode::MathOverflow));
    assert_eq!(ctx.review.verdict, Verdict::ReviewRequested);
}

#[test]
fn totals_follow_recorded_verdicts() {
    let mut s = ReviewStatus::new();
    s.update(&Verdict::ReviewRequested);
    s.update(&Verdict::Approved);
    s.apply_edit(&Verdict::ReviewRequested, &Verdict::Approved).unwrap();
    s.apply_edit(&Verdict::Approved, &Verdict::Rejected).unwrap();
    // four recorded verdicts, one pending request replaced
    assert_eq!(s.approved + s.rejected + s.review_requested, 3);
}

fn review_ctx(st: ReviewStatus, listed: bool) -> ReviewPaper {
    ReviewPaper {
        signer: id(2),
        reviewer_user_account: account(2),
        paper: paper(1, st, listed),
        is_author: false,
        has_purchase: true,
    }
}

#[test]
fn review_that_pushes_ratio_past_limit_unlists() {
    let mut ctx = review_ctx(status(3, 0, 0), true);
    let rec = ctx.review_paper(7, Verdict::Rejected, "r".to_string(), 9).unwrap();
    assert_eq!(ctx.paper.review_status, status(3, 1, 0));
    assert_eq!(ctx.paper.review_status.rejection_ratio(), 25);
    assert!(!ctx.paper.listed);
    assert_eq!(ctx.paper.reviews, 1);
    assert_eq!(ctx.reviewer_user_account.reviews, 1);
    assert_eq!(ctx.reviewer_user_account.timestamp, 9);
    assert_eq!(rec.verdict, Verdict::Rejected);
    assert_eq!(rec.timestamp, 9);
    assert_eq!(rec.review_uri, "r");
}

#[test]
fn review_at_ratio_limit_keeps_listing() {
    let mut ctx = review_ctx(status(4, 0, 0), true);
    ctx.review_paper(7, Verdict::Rejected, "r".to_string(), 9).unwrap();
    assert_eq!(ctx.paper.review_status.rejection_ratio(), 20);
    assert!(ctx.paper.listed);
}

#[test]
fn owner_cannot_review() {
    let mut ctx = review_ctx(status(0, 0, 0), true);
    ctx.signer = id(1);
    let r = ctx.review_paper(7, Verdict::Approved, "r".to_string(), 9);
    assert!(matches!(r, Err(ErrorCode::Unauthorized)));
    assert_eq!(ctx.paper.reviews, 0);
}

#[test]
fn coauthor_cannot_review() {
    let mut ctx = review_ctx(status(0, 0, 0), true);
    ctx.is_author = true;
    let r = ctx.review_paper(7, Verdict::Approved, "r".to_string(), 9);
    assert!(matches!(r, Err(ErrorCode::Unauthorized)));
}

#[test]
fn review_needs_a_purchase() {
    let mut ctx = review_ctx(status(0, 0, 0), true);
    ctx.has_purchase = false;
    let r = ctx.review_paper(7, Verdict::Approved, "r".to_string(), 9);
    assert!(matches!(r, Err(ErrorCode::PurchaseRequired)));
}
