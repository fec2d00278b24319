use vstd::prelude::*;
use crate::achievement::{check_user_achievement, achievement_result};
use crate::params::PrintBadgeArgs;
use crate::state::{ErrorCode, Identity, UserAccount};

verus! {

/// A user's request for an achievement badge.
pub struct PrintBadge {
    pub user: Identity,
    pub user_account: UserAccount,
}

/// What the asset minter is handed once the achievement check has passed: the badge's name and
/// metadata location, its owner, and the attributes it carries.
pub struct BadgeMint {
    pub owner: Identity,
    pub name: String,
    pub uri: String,
    pub achievement: String,
    pub record: u32,
    pub timestamp: i64,
}

/// Why the badge is refused, if it is: the account must be the user's own and the
/// achievement check must pass.
pub open spec fn badge_error(ctx: PrintBadge, name: Seq<char>, record: u32) -> Option<ErrorCode> {
    if ctx.user_account.owner@ != ctx.user@ {
        Some(ErrorCode::Unauthorized)
    } else {
        match achievement_result(ctx.user_account, name, record) {
            Err(e) => Some(e),
            Ok(_) => None,
        }
    }
}

impl PrintBadge {
    /// Checks the achievement named by `args.name` against `args.record` and, when it
    /// holds, returns what to mint, stamped at `now`.
    pub fn print_badge(&self, args: PrintBadgeArgs, now: i64) -> (r: Result<BadgeMint, ErrorCode>)
        ensures
            r is Err <==> badge_error(*self, args.name@, args.record) is Some,
            r is Err ==> r == Err::<BadgeMint, ErrorCode>(
                badge_error(*self, args.name@, args.record)->0,
            ),
            r matches Ok(m) ==> {
                &&& m.owner == self.user
                &&& m.name@ == args.name@
                &&& m.uri@ == args.uri@
                &&& m.achievement@ == args.achievement@
                &&& m.record == args.record
                &&& m.timestamp == now
            },
    {
        if !self.user_account.owner.same(&self.user) {
            return Err(ErrorCode::Unauthorized);
        }
        check_user_achievement(&self.user_account, args.name.as_str(), args.record)?;
        Ok(
            BadgeMint {
                owner: self.user,
                name: args.name,
                uri: args.uri,
                achievement: args.achievement,
                record: args.record,
                timestamp: now,
            },
        )
    }
}

} // verus!
