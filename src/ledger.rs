use vstd::prelude::*;
use crate::review_status::counters_ok;
use crate::state::{Identity, Paper, PaperAuthor, PaperFiConfig, PaperKey, PaperOwned, Review, UserAccount};

verus! {

/// Every record of the platform, each kind addressed by its natural key.
pub struct Ledger {
    pub config: PaperFiConfig,
    pub users: Vec<UserAccount>,
    pub papers: Vec<Paper>,
    pub authors: Vec<PaperAuthor>,
    pub reviews: Vec<Review>,
    pub purchases: Vec<PaperOwned>,
}

/// The user account of `who` is at `i`.
pub open spec fn user_at(l: Ledger, i: int, who: Seq<u8>) -> bool {
    0 <= i < l.users@.len() && l.users@[i].owner@ == who
}

/// The paper with key `k` is at `i`.
pub open spec fn paper_at(l: Ledger, i: int, k: (Seq<u8>, u64)) -> bool {
    0 <= i < l.papers@.len() && l.papers@[i].key() == k
}

/// The author record of `who` on paper `k` is at `i`.
pub open spec fn author_at(l: Ledger, i: int, who: Seq<u8>, k: (Seq<u8>, u64)) -> bool {
    0 <= i < l.authors@.len() && l.authors@[i].author@ == who && l.authors@[i].paper@ == k
}

/// The review by `who` of paper `k` is at `i`.
pub open spec fn review_at(l: Ledger, i: int, who: Seq<u8>, k: (Seq<u8>, u64)) -> bool {
    0 <= i < l.reviews@.len() && l.reviews@[i].owner@ == who && l.reviews@[i].paper@ == k
}

/// The purchase record of `who` for paper `k` is at `i`.
pub open spec fn purchase_at(l: Ledger, i: int, who: Seq<u8>, k: (Seq<u8>, u64)) -> bool {
    0 <= i < l.purchases@.len() && l.purchases@[i].buyer@ == who && l.purchases@[i].paper@ == k
}

pub open spec fn has_user(l: Ledger, who: Seq<u8>) -> bool {
    exists|i: int| user_at(l, i, who)
}

pub open spec fn has_paper(l: Ledger, k: (Seq<u8>, u64)) -> bool {
    exists|i: int| paper_at(l, i, k)
}

pub open spec fn has_author(l: Ledger, who: Seq<u8>, k: (Seq<u8>, u64)) -> bool {
    exists|i: int| author_at(l, i, who, k)
}

pub open spec fn has_review(l: Ledger, who: Seq<u8>, k: (Seq<u8>, u64)) -> bool {
    exists|i: int| review_at(l, i, who, k)
}

pub open spec fn has_purchase(l: Ledger, who: Seq<u8>, k: (Seq<u8>, u64)) -> bool {
    exists|i: int| purchase_at(l, i, who, k)
}

impl Ledger {
    /// No two records of a kind share a key; every paper's counters are in range; the
    /// admin list is within its cap and has no repeats.
    pub open spec fn wf(&self) -> bool {
        &&& forall|i: int, j: int|
            0 <= i < j < self.users@.len() ==> #[trigger] self.users@[i].owner@
                != #[trigger] self.users@[j].owner@
        &&& forall|i: int, j: int|
            0 <= i < j < self.papers@.len() ==> #[trigger] self.papers@[i].key()
                != #[trigger] self.papers@[j].key()
        &&& forall|i: int, j: int|
            0 <= i < j < self.authors@.len() ==> (#[trigger] self.authors@[i].author@,
            self.authors@[i].paper@) != (#[trigger] self.authors@[j].author@,
            self.authors@[j].paper@)
        &&& forall|i: int, j: int|
            0 <= i < j < self.reviews@.len() ==> (#[trigger] self.reviews@[i].owner@,
            self.reviews@[i].paper@) != (#[trigger] self.reviews@[j].owner@,
            self.reviews@[j].paper@)
        &&& forall|i: int, j: int|
            0 <= i < j < self.purchases@.len() ==> (#[trigger] self.purchases@[i].buyer@,
            self.purchases@[i].paper@) != (#[trigger] self.purchases@[j].buyer@,
            self.purchases@[j].paper@)
        &&& forall|i: int|
            0 <= i < self.papers@.len() ==> counters_ok(#[trigger] self.papers@[i].review_status)
        &&& self.config.wf()
    }

    /// An empty platform.
    pub fn new() -> (r: Ledger)
        ensures
            r.wf(),
            r.config.admins@.len() == 0,
            r.config.fee is None,
            r.users@.len() == 0,
            r.papers@.len() == 0,
            r.authors@.len() == 0,
            r.reviews@.len() == 0,
            r.purchases@.len() == 0,
    {
        Ledger {
            config: PaperFiConfig::new(),
            users: Vec::new(),
            papers: Vec::new(),
            authors: Vec::new(),
            reviews: Vec::new(),
            purchases: Vec::new(),
        }
    }

    pub fn find_user(&self, who: &Identity) -> (r: Option<usize>)
        ensures
            r matches Some(i) ==> user_at(*self, i as int, who@),
            r is None ==> !has_user(*self, who@),
    {
        let mut i: usize = 0;
        while i < self.users.len()
            invariant
                0 <= i <= self.users@.len(),
                forall|j: int| 0 <= j < i ==> !user_at(*self, j, who@),
            decreases self.users@.len() - i,
        {
            if self.users[i].owner.same(who) {
                return Some(i);
            }
            i = i + 1;
        }
        None
    }

    pub fn find_paper(&self, k: &PaperKey) -> (r: Option<usize>)
        ensures
            r matches Some(i) ==> paper_at(*self, i as int, k@),
            r is None ==> !has_paper(*self, k@),
    {
        let mut i: usize = 0;
        while i < self.papers.len()
            invariant
                0 <= i <= self.papers@.len(),
                forall|j: int| 0 <= j < i ==> !paper_at(*self, j, k@),
            decreases self.papers@.len() - i,
        {
            if self.papers[i].paper_key().same(k) {
                return Some(i);
            }
            i = i + 1;
        }
        None
    }

    pub fn find_author(&self, who: &Identity, k: &PaperKey) -> (r: Option<usize>)
        ensures
            r matches Some(i) ==> author_at(*self, i as int, who@, k@),
            r is None ==> !has_author(*self, who@, k@),
    {
        let mut i: usize = 0;
        while i < self.authors.len()
            invariant
                0 <= i <= self.authors@.len(),
                forall|j: int| 0 <= j < i ==> !author_at(*self, j, who@, k@),
            decreases self.authors@.len() - i,
        {
            if self.authors[i].author.same(who) && self.authors[i].paper.same(k) {
                return Some(i);
            }
            i = i + 1;
        }
        None
    }

    pub fn find_review(&self, who: &Identity, k: &PaperKey) -> (r: Option<usize>)
        ensures
            r matches Some(i) ==> review_at(*self, i as int, who@, k@),
            r is None ==> !has_review(*self, who@, k@),
    {
        let mut i: usize = 0;
        while i < self.reviews.len()
            invariant
                0 <= i <= self.reviews@.len(),
                forall|j: int| 0 <= j < i ==> !review_at(*self, j, who@, k@),
            decreases self.reviews@.len() - i,
        {
            if self.reviews[i].owner.same(who) && self.reviews[i].paper.same(k) {
                return Some(i);
            }
            i = i + 1;
        }
        None
    }

    pub fn find_purchase(&self, who: &Identity, k: &PaperKey) -> (r: Option<usize>)
        ensures
            r matches Some(i) ==> purchase_at(*self, i as int, who@, k@),
            r is None ==> !has_purchase(*self, who@, k@),
    {
        let mut i: usize = 0;
        while i < self.purchases.len()
            invariant
                0 <= i <= self.purchases@.len(),
                forall|j: int| 0 <= j < i ==> !purchase_at(*self, j, who@, k@),
            decreases self.purchases@.len() - i,
        {
            if self.purchases[i].buyer.same(who) && self.purchases[i].paper.same(k) {
                return Some(i);
            }
            i = i + 1;
        }
        None
    }
}

} // verus!
