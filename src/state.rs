use vstd::prelude::*;
use crate::review_status::{ReviewStatus, Verdict};

verus! {

/// Failures that abort an operation.
#[derive(Clone, Copy, Debug, PartialEq, Eq, Structural)]
pub enum ErrorCode {
    InvalidFieldLength,
    FieldIsEmpty,
    EmojisNotAllowed,
    IncorrectPricing,
    Unauthorized,
    PurchaseRequired,
    PublisherCantBuy,
    InvalidAchievement,
    UnknownBadge,
    TooManyAdmins,
    AdminAlreadyExists,
    MathOverflow,
    AccountAlreadyInUse,
    AccountNotInitialized,
}

/// A 32-byte public key naming a user.
#[derive(Clone, Copy, Debug)]
pub struct Identity {
    pub bytes: [u8; 32],
}

impl View for Identity {
    type V = Seq<u8>;

    open spec fn view(&self) -> Seq<u8> {
        self.bytes@
    }
}

impl Identity {
    pub fn new(bytes: [u8; 32]) -> (r: Identity)
        ensures
            r@ == bytes@,
    {
        Identity { bytes }
    }

    /// Byte-wise equality of two keys.
    pub fn same(&self, other: &Identity) -> (r: bool)
        ensures
            r == (self@ == other@),
    {
        let mut i: usize = 0;
        while i < 32
            invariant
                0 <= i <= 32,
                self@.len() == 32,
                other@.len() == 32,
                forall|j: int| 0 <= j < i ==> self@[j] == other@[j],
            decreases 32 - i,
        {
            if self.bytes[i] != other.bytes[i] {
                return false;
            }
            i = i + 1;
        }
        proof {
            assert(self@ =~= other@);
        }
        true
    }
}

/// Natural key of a paper: its owner and the number the owner chose.
#[derive(Clone, Copy, Debug)]
pub struct PaperKey {
    pub owner: Identity,
    pub id: u64,
}

impl View for PaperKey {
    type V = (Seq<u8>, u64);

    open spec fn view(&self) -> (Seq<u8>, u64) {
        (self.owner@, self.id)
    }
}

impl PaperKey {
    pub fn same(&self, other: &PaperKey) -> (r: bool)
        ensures
            r == (self@ == other@),
    {
        self.id == other.id && self.owner.same(&other.owner)
    }
}

/// A published paper.
pub struct Paper {
    pub id: u64,
    pub paper_info_url: String,
    pub version: u32,
    pub owner: Identity,
    pub listed: bool,
    pub price: u64,
    pub bump: u8,
    pub user_bump: u8,
    pub reviews: u32,
    pub review_status: ReviewStatus,
    pub sales: u32,
    pub timestamp: u64,
    pub paper_uri: String,
}

/// Smallest non-zero price of a paper.
pub const MIN_PRICE: u64 = 1_000_000;

/// Longest text field of a paper, exclusive, in bytes.
pub const MAX_TEXT_LEN: usize = 200;

/// Price is free or at least the floor.
pub open spec fn price_ok(price: u64) -> bool {
    price == 0 || price >= MIN_PRICE
}

impl Paper {
    pub open spec fn key(&self) -> (Seq<u8>, u64) {
        (self.owner@, self.id)
    }

    pub fn paper_key(&self) -> (r: PaperKey)
        ensures
            r@ == self.key(),
    {
        PaperKey { owner: self.owner, id: self.id }
    }
}

/// Per-user activity counters and profile.
pub struct UserAccount {
    pub name: String,
    pub title: String,
    pub purchases: u32,
    pub papers: u32,
    pub reviews: u32,
    pub owner: Identity,
    pub bump: u8,
    pub vault_bump: u8,
    pub timestamp: u64,
}

/// One user's verdict on one paper.
pub struct Review {
    pub owner: Identity,
    pub paper: PaperKey,
    pub verdict: Verdict,
    pub timestamp: u64,
    pub review_uri: String,
}

/// Proof that `buyer` purchased `paper`.
#[derive(Clone, Copy, Debug)]
pub struct PaperOwned {
    pub buyer: Identity,
    pub paper: PaperKey,
    pub timestamp: u64,
    pub bump: u8,
}

/// Marks `author` as co-author of `paper`.
#[derive(Clone, Copy, Debug)]
pub struct PaperAuthor {
    pub author: Identity,
    pub paper: PaperKey,
    pub verify: bool,
    pub bump: u8,
}

/// Platform-wide settings.
pub struct PaperFiConfig {
    pub admins: Vec<Identity>,
    pub fee: Option<u8>,
    pub bump: u8,
    pub vault_bump: u8,
}

/// Largest number of admins.
pub const MAX_ADMINS: usize = 3;

/// Fee percentage set when the platform is first configured.
pub const DEFAULT_FEE: u8 = 2;

impl PaperFiConfig {
    /// A configuration that holds nothing yet.
    pub fn new() -> (r: PaperFiConfig)
        ensures
            r.admins@.len() == 0,
            r.fee is None,
            r.bump == 0,
            r.vault_bump == 0,
    {
        PaperFiConfig { admins: Vec::new(), fee: None, bump: 0, vault_bump: 0 }
    }

    /// Whether `who` is among the admins.
    pub open spec fn has_admin(&self, who: Seq<u8>) -> bool {
        exists|i: int| 0 <= i < self.admins@.len() && #[trigger] self.admins@[i]@ == who
    }

    pub fn is_admin(&self, who: &Identity) -> (r: bool)
        ensures
            r == self.has_admin(who@),
    {
        let mut i: usize = 0;
        while i < self.admins.len()
            invariant
                0 <= i <= self.admins@.len(),
                forall|j: int| 0 <= j < i ==> #[trigger] self.admins@[j]@ != who@,
            decreases self.admins@.len() - i,
        {
            if self.admins[i].same(who) {
                return true;
            }
            i = i + 1;
        }
        false
    }
}

} // verus!
