use vstd::prelude::*;
use crate::state::{ErrorCode, Identity, Paper, PaperFiConfig, PaperOwned, UserAccount};

verus! {

/// A buyer's request to purchase a paper, with what the ledger holds on them.
pub struct BuyPaper {
    pub buyer: Identity,
    pub buyer_user_account: UserAccount,
    pub paper: Paper,
    pub config: PaperFiConfig,
    /// The buyer holds a co-author record for the paper.
    pub is_author: bool,
}

/// What a successful purchase hands back: the proof-of-purchase record and the two
/// transfers to make from the buyer, to the owner's vault and to the platform's vault.
pub struct Purchase {
    pub record: PaperOwned,
    pub owner_amount: u64,
    pub fee_amount: u64,
}

/// Fee percentage in force; none configured counts as zero.
pub open spec fn fee_percent(config: PaperFiConfig) -> u64 {
    match config.fee {
        Some(f) => f as u64,
        None => 0,
    }
}

/// Whether the buyer pays: the paper has a price and the buyer is not a co-author.
pub open spec fn is_charged(ctx: BuyPaper) -> bool {
    ctx.paper.price > 0 && !ctx.is_author
}

/// Platform fee on `price` at `pct` percent, truncated.
pub open spec fn fee_of(price: u64, pct: u64) -> int {
    (price as int * pct as int) / 100
}

/// Why the purchase is refused, if it is.
pub open spec fn buy_error(ctx: BuyPaper) -> Option<ErrorCode> {
    if ctx.buyer@ == ctx.paper.owner@ {
        Some(ErrorCode::PublisherCantBuy)
    } else if is_charged(ctx) && ctx.paper.price as int * fee_percent(ctx.config) as int
        > u64::MAX {
        Some(ErrorCode::MathOverflow)
    } else if ctx.paper.sales == u32::MAX || ctx.buyer_user_account.purchases == u32::MAX {
        Some(ErrorCode::MathOverflow)
    } else {
        None
    }
}

impl BuyPaper {
    /// Settles a purchase: records it, counts one more sale on the paper and one more
    /// purchase for the buyer, and says what the buyer pays: the price to the owner and
    /// `price * fee / 100` to the platform, or nothing when the paper is free or the
    /// buyer is a co-author.
    pub fn buy_paper(&mut self, _id: u64, bump: u8, now: u64) -> (r: Result<Purchase, ErrorCode>)
        ensures
            r is Err <==> buy_error(*old(self)) is Some,
            r is Err ==> r == Err::<Purchase, ErrorCode>(buy_error(*old(self))->0)
                && *final(self) == *old(self),
            r matches Ok(pu) ==> {
                let (p, q) = (old(self).paper, final(self).paper);
                &&& pu.record.buyer == old(self).buyer
                &&& pu.record.paper@ == p.key()
                &&& pu.record.timestamp == now
                &&& pu.record.bump == bump
                &&& pu.owner_amount == (if is_charged(*old(self)) {
                    p.price
                } else {
                    0
                })
                &&& pu.fee_amount == (if is_charged(*old(self)) {
                    fee_of(p.price, fee_percent(old(self).config))
                } else {
                    0
                })
                &&& q == (Paper { sales: (p.sales + 1) as u32, ..p })
                &&& final(self).buyer_user_account == (UserAccount {
                    purchases: (old(self).buyer_user_account.purchases + 1) as u32,
                    ..old(self).buyer_user_account
                })
                &&& final(self).buyer == old(self).buyer
                &&& final(self).is_author == old(self).is_author
                &&& final(self).config == old(self).config
            },
    {
        if self.buyer.same(&self.paper.owner) {
            return Err(ErrorCode::PublisherCantBuy);
        }
        let record = PaperOwned {
            buyer: self.buyer,
            paper: self.paper.paper_key(),
            timestamp: now,
            bump,
        };
        let mut owner_amount: u64 = 0;
        let mut fee_amount: u64 = 0;
        if self.paper.price > 0 && !self.is_author {
            let pct: u64 = match self.config.fee {
                Some(f) => f as u64,
                None => 0,
            };
            let total = match self.paper.price.checked_mul(pct) {
                Some(t) => t,
                None => {
                    return Err(ErrorCode::MathOverflow);
                },
            };
            owner_amount = self.paper.price;
            fee_amount = total / 100;
        }
        if self.paper.sales == u32::MAX || self.buyer_user_account.purchases == u32::MAX {
            return Err(ErrorCode::MathOverflow);
        }
        self.paper.sales = self.paper.sales + 1;
        self.buyer_user_account.purchases = self.buyer_user_account.purchases + 1;
        Ok(Purchase { record, owner_amount, fee_amount })
    }
}

} // verus!
