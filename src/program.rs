use vstd::prelude::*;
use crate::buy_paper::{BuyPaper, Purchase, buy_error, fee_of, fee_percent, is_charged};
use crate::ledger::{
    Ledger, author_at, has_author, has_paper, has_purchase, has_review, has_user, paper_at, purchase_at, review_at,
    user_at,
};
use crate::edit_paper::{EditPaper, edit_paper_error, paper_edited};
use crate::edit_review::{EditReview, edit_review_error, paper_review_edited};
use crate::params::EditPaperParams;
use crate::review_paper::{ReviewPaper, paper_reviewed, review_error, reviewer_counted};
use crate::review_status::Verdict;
use crate::state::{ErrorCode, Identity, Paper, PaperFiConfig, PaperKey, Review, UserAccount};

verus! {

/// Position of the user account of `who`.
pub open spec fn user_index(l: Ledger, who: Seq<u8>) -> int {
    choose|i: int| user_at(l, i, who)
}

/// Position of the paper with key `k`.
pub open spec fn paper_index(l: Ledger, k: (Seq<u8>, u64)) -> int {
    choose|i: int| paper_at(l, i, k)
}

/// Position of the review by `who` of paper `k`.
pub open spec fn review_index(l: Ledger, who: Seq<u8>, k: (Seq<u8>, u64)) -> int {
    choose|i: int| review_at(l, i, who, k)
}

/// Position of the author record of `who` on paper `k`.
pub open spec fn author_index(l: Ledger, who: Seq<u8>, k: (Seq<u8>, u64)) -> int {
    choose|i: int| author_at(l, i, who, k)
}

/// No record of `l1` differs from `l0`.
pub open spec fn unchanged(l0: Ledger, l1: Ledger) -> bool {
    &&& l1.config == l0.config
    &&& l1.users@ == l0.users@
    &&& l1.papers@ == l0.papers@
    &&& l1.authors@ == l0.authors@
    &&& l1.reviews@ == l0.reviews@
    &&& l1.purchases@ == l0.purchases@
}

/// The purchase of paper `k` by `buyer` as the ledger `l` presents it.
pub open spec fn buy_context(l: Ledger, buyer: Identity, k: (Seq<u8>, u64)) -> BuyPaper {
    BuyPaper {
        buyer,
        buyer_user_account: l.users@[user_index(l, buyer@)],
        paper: l.papers@[paper_index(l, k)],
        config: l.config,
        is_author: has_author(l, buyer@, k),
    }
}

/// Why `buyer` cannot buy paper `k`, if they cannot: both the paper and the buyer's
/// account must exist, no purchase record of the pair may exist yet, and the
/// settlement must be allowed.
pub open spec fn ledger_buy_error(l: Ledger, buyer: Identity, k: (Seq<u8>, u64)) -> Option<ErrorCode> {
    if !has_paper(l, k) || !has_user(l, buyer@) {
        Some(ErrorCode::AccountNotInitialized)
    } else if has_purchase(l, buyer@, k) {
        Some(ErrorCode::AccountAlreadyInUse)
    } else {
        buy_error(buy_context(l, buyer, k))
    }
}

/// `l1` is `l0` after `buyer` bought paper `k` at `now`, settled as `pu`.
pub open spec fn buy_committed(l0: Ledger, l1: Ledger, buyer: Identity, k: (Seq<u8>, u64), now: u64, pu: Purchase) -> bool {
    let ctx = buy_context(l0, buyer, k);
    let (pi, ui) = (paper_index(l0, k), user_index(l0, buyer@));
    let (p, u) = (l0.papers@[pi], l0.users@[ui]);
    &&& l1.papers@ == l0.papers@.update(pi, Paper { sales: (p.sales + 1) as u32, ..p })
    &&& l1.users@ == l0.users@.update(ui, UserAccount { purchases: (u.purchases + 1) as u32, ..u })
    &&& l1.purchases@ == l0.purchases@.push(pu.record)
    &&& pu.record.buyer == buyer && pu.record.paper@ == k && pu.record.timestamp == now
    &&& pu.owner_amount == (if is_charged(ctx) { p.price } else { 0 })
    &&& pu.fee_amount == (if is_charged(ctx) { fee_of(p.price, fee_percent(l0.config)) } else { 0 })
    &&& l1.config == l0.config
    &&& l1.authors@ == l0.authors@
    &&& l1.reviews@ == l0.reviews@
}

/// Buys paper `paper` for `buyer` at time `now`: all of it happens, or nothing does.
pub fn buy_paper(ledger: &mut Ledger, buyer: &Identity, paper: &PaperKey, now: u64) -> (r: Result<Purchase, ErrorCode>)
    requires
        old(ledger).wf(),
    ensures
        final(ledger).wf(),
        r is Err <==> ledger_buy_error(*old(ledger), *buyer, paper@) is Some,
        r is Err ==> r == Err::<Purchase, ErrorCode>(ledger_buy_error(*old(ledger), *buyer, paper@)->0)
            && unchanged(*old(ledger), *final(ledger)),
        r matches Ok(pu) ==> buy_committed(*old(ledger), *final(ledger), *buyer, paper@, now, pu),
{
    let ghost l0 = *ledger;
    let pi = match ledger.find_paper(paper) {
        Some(i) => i,
        None => {
            return Err(ErrorCode::AccountNotInitialized);
        },
    };
    let ui = match ledger.find_user(buyer) {
        Some(i) => i,
        None => {
            return Err(ErrorCode::AccountNotInitialized);
        },
    };
    if ledger.find_purchase(buyer, paper).is_some() {
        return Err(ErrorCode::AccountAlreadyInUse);
    }
    let is_author = match ledger.find_author(buyer, paper) {
        Some(ai) => {
            proof {
                assert(author_at(l0, ai as int, buyer@, paper@));
            }
            true
        },
        None => false,
    };
    proof {
        assert(paper_index(l0, paper@) == pi as int);
        assert(user_index(l0, buyer@) == ui as int);
    }
    let mut config = PaperFiConfig::new();
    std::mem::swap(&mut config, &mut ledger.config);
    let mut ctx = BuyPaper {
        buyer: *buyer,
        buyer_user_account: ledger.users.remove(ui),
        paper: ledger.papers.remove(pi),
        config,
        is_author,
    };
    let r = ctx.buy_paper(paper.id, 0, now);
    ledger.users.insert(ui, ctx.buyer_user_account);
    ledger.papers.insert(pi, ctx.paper);
    ledger.config = ctx.config;
    proof {
        assert(ledger.users@ =~= l0.users@.update(ui as int, ledger.users@[ui as int]));
        assert(ledger.papers@ =~= l0.papers@.update(pi as int, ledger.papers@[pi as int]));
    }
    match r {
        Ok(pu) => {
            ledger.purchases.push(pu.record);
            proof {
                let l1 = *ledger;
                assert(forall|i: int, j: int|
                    0 <= i < j < l1.purchases@.len() ==> (#[trigger] l1.purchases@[i].buyer@,
                    l1.purchases@[i].paper@) != (#[trigger] l1.purchases@[j].buyer@,
                    l1.purchases@[j].paper@)) by {
                    assert forall|i: int, j: int|
                        0 <= i < j < l1.purchases@.len() implies (#[trigger] l1.purchases@[i].buyer@,
                        l1.purchases@[i].paper@) != (#[trigger] l1.purchases@[j].buyer@,
                        l1.purchases@[j].paper@) by {
                        if j == l1.purchases@.len() - 1 {
                            assert(l1.purchases@[i] == l0.purchases@[i]);
                            assert(!purchase_at(l0, i, buyer@, paper@));
                        }
                    }
                }
            }
            Ok(pu)
        },
        Err(e) => {
            proof {
                assert(ledger.users@ =~= l0.users@);
                assert(ledger.papers@ =~= l0.papers@);
            }
            Err(e)
        },
    }
}

/// The review of paper `k` by `signer` as the ledger `l` presents it.
pub open spec fn review_context(l: Ledger, signer: Identity, k: (Seq<u8>, u64)) -> ReviewPaper {
    ReviewPaper {
        signer,
        reviewer_user_account: l.users@[user_index(l, signer@)],
        paper: l.papers@[paper_index(l, k)],
        is_author: has_author(l, signer@, k),
        has_purchase: has_purchase(l, signer@, k),
    }
}

/// Why `signer` cannot review paper `k`, if they cannot: the paper and the reviewing user's
/// account must exist, that user must not have reviewed it yet, and must be
/// allowed to review it.
pub open spec fn ledger_review_error(l: Ledger, signer: Identity, k: (Seq<u8>, u64)) -> Option<ErrorCode> {
    if !has_paper(l, k) || !has_user(l, signer@) {
        Some(ErrorCode::AccountNotInitialized)
    } else if has_review(l, signer@, k) {
        Some(ErrorCode::AccountAlreadyInUse)
    } else {
        review_error(review_context(l, signer, k))
    }
}

/// `l1` is `l0` after `signer` reviewed paper `k` with `verdict` at `now`.
pub open spec fn review_committed(l0: Ledger, l1: Ledger, signer: Identity, k: (Seq<u8>, u64), verdict: Verdict, uri: Seq<char>, now: u64) -> bool {
    let (pi, ui) = (paper_index(l0, k), user_index(l0, signer@));
    let rec = l1.reviews@.last();
    &&& l1.papers@ == l0.papers@.update(pi, l1.papers@[pi])
    &&& paper_reviewed(l0.papers@[pi], l1.papers@[pi], verdict, now)
    &&& l1.users@ == l0.users@.update(ui, l1.users@[ui])
    &&& reviewer_counted(l0.users@[ui], l1.users@[ui], now)
    &&& l1.reviews@ == l0.reviews@.push(rec)
    &&& rec.owner == signer && rec.paper@ == k && rec.verdict == verdict
    &&& rec.timestamp == now && rec.review_uri@ == uri
    &&& l1.config == l0.config
    &&& l1.authors@ == l0.authors@
    &&& l1.purchases@ == l0.purchases@
}

/// Records `signer`'s review of paper `paper` with `verdict` at time `now`.
pub fn review_paper(ledger: &mut Ledger, signer: &Identity, paper: &PaperKey, verdict: Verdict, uri: String, now: u64) -> (r: Result<(), ErrorCode>)
    requires
        old(ledger).wf(),
    ensures
        final(ledger).wf(),
        r == (match ledger_review_error(*old(ledger), *signer, paper@) {
            Some(e) => Err(e),
            None => Ok(()),
        }),
        r is Err ==> unchanged(*old(ledger), *final(ledger)),
        r is Ok ==> review_committed(*old(ledger), *final(ledger), *signer, paper@, verdict, uri@, now),
{
    let ghost l0 = *ledger;
    let pi = match ledger.find_paper(paper) {
        Some(i) => i,
        None => {
            return Err(ErrorCode::AccountNotInitialized);
        },
    };
    let ui = match ledger.find_user(signer) {
        Some(i) => i,
        None => {
            return Err(ErrorCode::AccountNotInitialized);
        },
    };
    if ledger.find_review(signer, paper).is_some() {
        return Err(ErrorCode::AccountAlreadyInUse);
    }
    let is_author = match ledger.find_author(signer, paper) {
        Some(ai) => {
            proof {
                assert(author_at(l0, ai as int, signer@, paper@));
            }
            true
        },
        None => false,
    };
    let has_purchase = match ledger.find_purchase(signer, paper) {
        Some(bi) => {
            proof {
                assert(purchase_at(l0, bi as int, signer@, paper@));
            }
            true
        },
        None => false,
    };
    proof {
        assert(paper_index(l0, paper@) == pi as int);
        assert(user_index(l0, signer@) == ui as int);
    }
    let mut ctx = ReviewPaper {
        signer: *signer,
        reviewer_user_account: ledger.users.remove(ui),
        paper: ledger.papers.remove(pi),
        is_author,
        has_purchase,
    };
    let r = ctx.review_paper(paper.id, verdict, uri, now);
    ledger.users.insert(ui, ctx.reviewer_user_account);
    ledger.papers.insert(pi, ctx.paper);
    proof {
        assert(ledger.users@ =~= l0.users@.update(ui as int, ledger.users@[ui as int]));
        assert(ledger.papers@ =~= l0.papers@.update(pi as int, ledger.papers@[pi as int]));
    }
    match r {
        Ok(rec) => {
            ledger.reviews.push(rec);
            proof {
                let l1 = *ledger;
                assert forall|i: int, j: int|
                    0 <= i < j < l1.reviews@.len() implies (#[trigger] l1.reviews@[i].owner@,
                    l1.reviews@[i].paper@) != (#[trigger] l1.reviews@[j].owner@,
                    l1.reviews@[j].paper@) by {
                    if j == l1.reviews@.len() - 1 {
                        assert(l1.reviews@[i] == l0.reviews@[i]);
                        assert(!review_at(l0, i, signer@, paper@));
                    }
                }
                assert forall|i: int| 0 <= i < l1.papers@.len() implies crate::review_status::counters_ok(
                    #[trigger] l1.papers@[i].review_status) by {
                    if i != pi as int {
                        assert(l1.papers@[i] == l0.papers@[i]);
                    }
                }
            }
            Ok(())
        },
        Err(e) => {
            proof {
                assert(ledger.users@ =~= l0.users@);
                assert(ledger.papers@ =~= l0.papers@);
            }
            Err(e)
        },
    }
}

/// Why `signer` cannot change their verdict on paper `k`, if they cannot.
pub open spec fn ledger_edit_review_error(l: Ledger, signer: Identity, k: (Seq<u8>, u64)) -> Option<ErrorCode> {
    if !has_paper(l, k) || !has_review(l, signer@, k) {
        Some(ErrorCode::AccountNotInitialized)
    } else {
        crate::review_status::edit_error(
            l.papers@[paper_index(l, k)].review_status,
            l.reviews@[review_index(l, signer@, k)].verdict,
        )
    }
}

/// `l1` is `l0` after `signer` moved their review of paper `k` to `verdict` at `now`.
pub open spec fn review_edit_committed(l0: Ledger, l1: Ledger, signer: Identity, k: (Seq<u8>, u64), verdict: Verdict, now: u64) -> bool {
    let (pi, ri) = (paper_index(l0, k), review_index(l0, signer@, k));
    let rv = l0.reviews@[ri];
    &&& l1.papers@ == l0.papers@.update(pi, l1.papers@[pi])
    &&& paper_review_edited(l0.papers@[pi], l1.papers@[pi], rv.verdict, verdict, now)
    &&& l1.reviews@ == l0.reviews@.update(ri, Review { verdict, timestamp: now, ..rv })
    &&& l1.config == l0.config
    &&& l1.users@ == l0.users@
    &&& l1.authors@ == l0.authors@
    &&& l1.purchases@ == l0.purchases@
}

/// Moves `signer`'s review of paper `paper` to `verdict` at time `now`.
pub fn edit_review(ledger: &mut Ledger, signer: &Identity, paper: &PaperKey, verdict: Verdict, now: u64) -> (r: Result<(), ErrorCode>)
    requires
        old(ledger).wf(),
    ensures
        final(ledger).wf(),
        r == (match ledger_edit_review_error(*old(ledger), *signer, paper@) {
            Some(e) => Err(e),
            None => Ok(()),
        }),
        r is Err ==> unchanged(*old(ledger), *final(ledger)),
        r is Ok ==> review_edit_committed(*old(ledger), *final(ledger), *signer, paper@, verdict, now),
{
    let ghost l0 = *ledger;
    let pi = match ledger.find_paper(paper) {
        Some(i) => i,
        None => {
            return Err(ErrorCode::AccountNotInitialized);
        },
    };
    let ri = match ledger.find_review(signer, paper) {
        Some(i) => i,
        None => {
            return Err(ErrorCode::AccountNotInitialized);
        },
    };
    proof {
        assert(paper_index(l0, paper@) == pi as int);
        assert(review_index(l0, signer@, paper@) == ri as int);
    }
    let mut ctx = EditReview {
        signer: *signer,
        paper: ledger.papers.remove(pi),
        review: ledger.reviews.remove(ri),
    };
    let r = ctx.edit_review(paper.id, verdict, now);
    ledger.papers.insert(pi, ctx.paper);
    ledger.reviews.insert(ri, ctx.review);
    proof {
        assert(ledger.reviews@ =~= l0.reviews@.update(ri as int, ledger.reviews@[ri as int]));
        assert(ledger.papers@ =~= l0.papers@.update(pi as int, ledger.papers@[pi as int]));
        if r is Err {
            assert(ledger.reviews@ =~= l0.reviews@);
            assert(ledger.papers@ =~= l0.papers@);
        } else {
            let l1 = *ledger;
            assert forall|i: int, j: int|
                0 <= i < j < l1.reviews@.len() implies (#[trigger] l1.reviews@[i].owner@,
                l1.reviews@[i].paper@) != (#[trigger] l1.reviews@[j].owner@,
                l1.reviews@[j].paper@) by {
                assert(l0.reviews@[i].owner@ == l1.reviews@[i].owner@);
                assert(l0.reviews@[j].owner@ == l1.reviews@[j].owner@);
            }
            assert forall|i: int| 0 <= i < l1.papers@.len() implies crate::review_status::counters_ok(
                #[trigger] l1.papers@[i].review_status) by {
                if i != pi as int {
                    assert(l1.papers@[i] == l0.papers@[i]);
                }
            }
        }
    }
    r
}

/// Why the owner `owner` cannot edit their paper number `id` with `params`, if they cannot.
pub open spec fn ledger_edit_paper_error(l: Ledger, owner: Identity, id: u64, params: EditPaperParams) -> Option<ErrorCode> {
    if !has_paper(l, (owner@, id)) {
        Some(ErrorCode::AccountNotInitialized)
    } else {
        edit_paper_error(l.papers@[paper_index(l, (owner@, id))], params)
    }
}

/// Changes the given fields of `owner`'s paper number `id` at time `now`, all together
/// or not at all. Only the owner reaches their papers: the paper is addressed by the
/// caller's own key.
pub fn edit_paper(ledger: &mut Ledger, owner: &Identity, id: u64, params: EditPaperParams, now: u64) -> (r: Result<(), ErrorCode>)
    requires
        old(ledger).wf(),
    ensures
        final(ledger).wf(),
        r == (match ledger_edit_paper_error(*old(ledger), *owner, id, params) {
            Some(e) => Err(e),
            None => Ok(()),
        }),
        r is Err ==> unchanged(*old(ledger), *final(ledger)),
        r is Ok ==> {
            let pi = paper_index(*old(ledger), (owner@, id));
            &&& final(ledger).papers@ == old(ledger).papers@.update(pi, final(ledger).papers@[pi])
            &&& paper_edited(old(ledger).papers@[pi], final(ledger).papers@[pi], params, now)
            &&& final(ledger).config == old(ledger).config
            &&& final(ledger).users@ == old(ledger).users@
            &&& final(ledger).authors@ == old(ledger).authors@
            &&& final(ledger).reviews@ == old(ledger).reviews@
            &&& final(ledger).purchases@ == old(ledger).purchases@
        },
{
    let ghost l0 = *ledger;
    let key = PaperKey { owner: *owner, id };
    let pi = match ledger.find_paper(&key) {
        Some(i) => i,
        None => {
            return Err(ErrorCode::AccountNotInitialized);
        },
    };
    proof {
        assert(paper_index(l0, key@) == pi as int);
    }
    let mut ctx = EditPaper { owner: *owner, paper: ledger.papers.remove(pi) };
    let r = ctx.edit_paper(id, params, now);
    ledger.papers.insert(pi, ctx.paper);
    proof {
        assert(ledger.papers@ =~= l0.papers@.update(pi as int, ledger.papers@[pi as int]));
        if r is Err {
            assert(ledger.papers@ =~= l0.papers@);
        } else {
            let l1 = *ledger;
            assert forall|i: int| 0 <= i < l1.papers@.len() implies crate::review_status::counters_ok(
                #[trigger] l1.papers@[i].review_status) by {
                if i != pi as int {
                    assert(l1.papers@[i] == l0.papers@[i]);
                }
            }
            assert forall|i: int, j: int|
                0 <= i < j < l1.papers@.len() implies #[trigger] l1.papers@[i].key()
                != #[trigger] l1.papers@[j].key() by {
                assert(l0.papers@[i].key() == l1.papers@[i].key());
                assert(l0.papers@[j].key() == l1.papers@[j].key());
            }
        }
    }
    r
}

/// Buying a free paper moves no funds, adds exactly one purchase record, and counts
/// one more sale and one more purchase.
pub proof fn lemma_free_purchase(l0: Ledger, l1: Ledger, buyer: Identity, k: (Seq<u8>, u64), now: u64, pu: Purchase)
    requires
        l0.wf(),
        ledger_buy_error(l0, buyer, k) is None,
        l0.papers@[paper_index(l0, k)].price == 0,
        buy_committed(l0, l1, buyer, k, now, pu),
    ensures
        pu.owner_amount == 0,
        pu.fee_amount == 0,
        l1.purchases@.len() == l0.purchases@.len() + 1,
        l1.purchases@.last() == pu.record,
        l1.papers@[paper_index(l0, k)].sales == l0.papers@[paper_index(l0, k)].sales + 1,
        l1.users@[user_index(l0, buyer@)].purchases == l0.users@[user_index(l0, buyer@)].purchases + 1,
{
    assert(paper_at(l0, paper_index(l0, k), k));
    assert(user_at(l0, user_index(l0, buyer@), buyer@));
}

/// Once a purchase of a paper has gone through, buying it again is refused as a
/// duplicate record, and so cannot count a second sale.
pub proof fn lemma_repeat_purchase_refused(l0: Ledger, l1: Ledger, buyer: Identity, k: (Seq<u8>, u64), now: u64, pu: Purchase)
    requires
        l0.wf(),
        ledger_buy_error(l0, buyer, k) is None,
        buy_committed(l0, l1, buyer, k, now, pu),
    ensures
        ledger_buy_error(l1, buyer, k) == Some(ErrorCode::AccountAlreadyInUse),
{
    let pi = paper_index(l0, k);
    let ui = user_index(l0, buyer@);
    assert(paper_at(l1, pi, k));
    assert(user_at(l1, ui, buyer@));
    assert(purchase_at(l1, l1.purchases@.len() - 1, buyer@, k));
}

} // verus!
