use vstd::prelude::*;
use vstd::string::StrSliceExecFns;
use crate::state::{ErrorCode, UserAccount};

verus! {

/// The counters a badge can be earned on.
#[derive(Clone, Copy, Debug, PartialEq, Eq, Structural)]
pub enum Achievement {
    Papers,
    Reviews,
    Purchases,
}

/// The achievement a badge name selects, if any.
pub open spec fn achievement_named(name: Seq<char>) -> Option<Achievement> {
    if name == "papers"@ {
        Some(Achievement::Papers)
    } else if name == "reviews"@ {
        Some(Achievement::Reviews)
    } else if name == "purchases"@ {
        Some(Achievement::Purchases)
    } else {
        None
    }
}

/// The counter of `user` that `a` reads.
pub open spec fn counter_of(user: UserAccount, a: Achievement) -> u32 {
    match a {
        Achievement::Papers => user.papers,
        Achievement::Reviews => user.reviews,
        Achievement::Purchases => user.purchases,
    }
}

/// Outcome of the achievement check for badge `name` at threshold `record`.
pub open spec fn achievement_result(user: UserAccount, name: Seq<char>, record: u32) -> Result<(), ErrorCode> {
    match achievement_named(name) {
        Some(a) => if counter_of(user, a) >= record {
            Ok(())
        } else {
            Err(ErrorCode::InvalidAchievement)
        },
        None => Err(ErrorCode::UnknownBadge),
    }
}

/// Character-wise equality of two texts.
fn same_text(a: &str, b: &str) -> (r: bool)
    ensures
        r == (a@ == b@),
{
    let n = a.unicode_len();
    if n != b.unicode_len() {
        return false;
    }
    let mut i: usize = 0;
    while i < n
        invariant
            n == a@.len(),
            n == b@.len(),
            0 <= i <= n,
            forall|j: int| 0 <= j < i ==> a@[j] == b@[j],
        decreases n - i,
    {
        if a.get_char(i) != b.get_char(i) {
            return false;
        }
        i = i + 1;
    }
    proof {
        assert(a@ =~= b@);
    }
    true
}

impl Achievement {
    /// The achievement called `name`: "papers", "reviews" or "purchases".
    pub fn from_name(name: &str) -> (r: Option<Achievement>)
        ensures
            r == achievement_named(name@),
    {
        if same_text(name, "papers") {
            Some(Achievement::Papers)
        } else if same_text(name, "reviews") {
            Some(Achievement::Reviews)
        } else if same_text(name, "purchases") {
            Some(Achievement::Purchases)
        } else {
            None
        }
    }

    /// The counter of `user` this achievement is measured on.
    pub fn counter(&self, user: &UserAccount) -> (r: u32)
        ensures
            r == counter_of(*user, *self),
    {
        match self {
            Achievement::Papers => user.papers,
            Achievement::Reviews => user.reviews,
            Achievement::Purchases => user.purchases,
        }
    }
}

/// Passes when the counter named by `name` has reached `record`; an unknown name is
/// refused whatever the threshold.
pub fn check_user_achievement(user_account: &UserAccount, name: &str, record: u32) -> (r: Result<(), ErrorCode>)
    ensures
        r == achievement_result(*user_account, name@, record),
{
    match Achievement::from_name(name) {
        Some(a) => {
            if a.counter(user_account) >= record {
                Ok(())
            } else {
                Err(ErrorCode::InvalidAchievement)
            }
        },
        None => Err(ErrorCode::UnknownBadge),
    }
}

/// Reaching the threshold of the reviews badge is exactly having that many reviews.
pub proof fn lemma_reviews_threshold(user: UserAccount, record: u32)
    ensures
        achievement_result(user, "reviews"@, record) is Ok <==> user.reviews >= record,
        achievement_result(user, "reviews"@, record) is Err ==> achievement_result(user, "reviews"@, record)
            == Err::<(), ErrorCode>(ErrorCode::InvalidAchievement),
{
    reveal_strlit("papers");
    reveal_strlit("reviews");
    assert("reviews"@ != "papers"@) by {
        assert("reviews"@[0] != "papers"@[0]);
    }
}

/// A name outside the known set is refused as unknown, whatever the threshold.
pub proof fn lemma_unknown_badge(user: UserAccount, name: Seq<char>, record: u32)
    requires
        name != "papers"@,
        name != "reviews"@,
        name != "purchases"@,
    ensures
        achievement_result(user, name, record) == Err::<(), ErrorCode>(ErrorCode::UnknownBadge),
{
}

} // verus!
