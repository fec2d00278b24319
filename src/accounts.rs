use vstd::prelude::*;
use crate::initialize::{Initialize, InitializeBumps, admin_error};
use crate::ledger::{
    Ledger, author_at, has_author, has_paper, has_user, paper_at, user_at,
};
use crate::params::{CreateBadgeArgs, EditUserParams, PrintBadgeArgs, pick};
use crate::print_badge::{BadgeMint, PrintBadge, badge_error};
use crate::program::{author_index, paper_index, unchanged, user_index};
use crate::review_status::ReviewStatus;
use crate::state::{
    DEFAULT_FEE, ErrorCode, Identity, MAX_TEXT_LEN, Paper, PaperAuthor, PaperFiConfig, PaperKey,
    UserAccount, price_ok,
};
use crate::validation::{check_field, contains_emoji, field_error, has_restricted, opt_view, update_field};

verus! {

/// Longest user name, exclusive, in bytes.
pub const MAX_NAME_LEN: usize = 48;

/// Longest user title, exclusive, in bytes.
pub const MAX_TITLE_LEN: usize = 32;

/// Version number of a newly published paper.
pub const FIRST_VERSION: u32 = 1;

/// Why `user` cannot sign up with `name` and `title`, if they cannot.
pub open spec fn signup_error(l: Ledger, user: Identity, name: Seq<char>, title: Seq<char>) -> Option<ErrorCode> {
    if has_user(l, user@) {
        Some(ErrorCode::AccountAlreadyInUse)
    } else if field_error(Some(name), MAX_NAME_LEN) is Some {
        field_error(Some(name), MAX_NAME_LEN)
    } else {
        field_error(Some(title), MAX_TITLE_LEN)
    }
}

/// Opens the account of `user`, with every counter at zero.
pub fn signup(ledger: &mut Ledger, user: &Identity, name: String, title: String, now: u64) -> (r: Result<(), ErrorCode>)
    requires
        old(ledger).wf(),
    ensures
        final(ledger).wf(),
        r == (match signup_error(*old(ledger), *user, name@, title@) {
            Some(e) => Err(e),
            None => Ok(()),
        }),
        r is Err ==> unchanged(*old(ledger), *final(ledger)),
        r is Ok ==> {
            &&& final(ledger).users@ == old(ledger).users@.push(
                UserAccount {
                    name,
                    title,
                    purchases: 0,
                    papers: 0,
                    reviews: 0,
                    owner: *user,
                    bump: 0,
                    vault_bump: 0,
                    timestamp: now,
                },
            )
            &&& final(ledger).config == old(ledger).config
            &&& final(ledger).papers@ == old(ledger).papers@
            &&& final(ledger).authors@ == old(ledger).authors@
            &&& final(ledger).reviews@ == old(ledger).reviews@
            &&& final(ledger).purchases@ == old(ledger).purchases@
        },
{
    let ghost l0 = *ledger;
    if ledger.find_user(user).is_some() {
        return Err(ErrorCode::AccountAlreadyInUse);
    }
    check_field(name.as_str(), MAX_NAME_LEN)?;
    check_field(title.as_str(), MAX_TITLE_LEN)?;
    ledger.users.push(
        UserAccount {
            name,
            title,
            purchases: 0,
            papers: 0,
            reviews: 0,
            owner: *user,
            bump: 0,
            vault_bump: 0,
            timestamp: now,
        },
    );
    proof {
        let l1 = *ledger;
        assert forall|i: int, j: int|
            0 <= i < j < l1.users@.len() implies #[trigger] l1.users@[i].owner@
            != #[trigger] l1.users@[j].owner@ by {
            if j == l1.users@.len() - 1 {
                assert(!user_at(l0, i, user@));
            }
        }
    }
    Ok(())
}

/// Why `user` cannot change their profile with `params`, if they cannot.
pub open spec fn edit_user_error(l: Ledger, user: Identity, params: EditUserParams) -> Option<ErrorCode> {
    if !has_user(l, user@) {
        Some(ErrorCode::AccountNotInitialized)
    } else if field_error(opt_view(params.name), MAX_NAME_LEN) is Some {
        field_error(opt_view(params.name), MAX_NAME_LEN)
    } else {
        field_error(opt_view(params.title), MAX_TITLE_LEN)
    }
}

/// Changes the given profile fields of `user`, both or neither.
pub fn edit_user(ledger: &mut Ledger, user: &Identity, params: EditUserParams, now: u64) -> (r: Result<(), ErrorCode>)
    requires
        old(ledger).wf(),
    ensures
        final(ledger).wf(),
        r == (match edit_user_error(*old(ledger), *user, params) {
            Some(e) => Err(e),
            None => Ok(()),
        }),
        r is Err ==> unchanged(*old(ledger), *final(ledger)),
        r is Ok ==> {
            let ui = user_index(*old(ledger), user@);
            let (u, v) = (old(ledger).users@[ui], final(ledger).users@[ui]);
            &&& final(ledger).users@ == old(ledger).users@.update(ui, v)
            &&& v.name@ == pick(opt_view(params.name), u.name@)
            &&& v.title@ == pick(opt_view(params.title), u.title@)
            &&& v == (UserAccount { name: v.name, title: v.title, timestamp: now, ..u })
            &&& final(ledger).config == old(ledger).config
            &&& final(ledger).papers@ == old(ledger).papers@
            &&& final(ledger).authors@ == old(ledger).authors@
            &&& final(ledger).reviews@ == old(ledger).reviews@
            &&& final(ledger).purchases@ == old(ledger).purchases@
        },
{
    let ghost l0 = *ledger;
    let ui = match ledger.find_user(user) {
        Some(i) => i,
        None => {
            return Err(ErrorCode::AccountNotInitialized);
        },
    };
    proof {
        assert(user_index(l0, user@) == ui as int);
    }
    let mut name = ledger.users[ui].name.clone();
    let mut title = ledger.users[ui].title.clone();
    update_field(&mut name, params.name, MAX_NAME_LEN)?;
    update_field(&mut title, params.title, MAX_TITLE_LEN)?;
    let mut account = ledger.users.remove(ui);
    account.name = name;
    account.title = title;
    account.timestamp = now;
    ledger.users.insert(ui, account);
    proof {
        let l1 = *ledger;
        assert(l1.users@ =~= l0.users@.update(ui as int, l1.users@[ui as int]));
        assert forall|i: int, j: int|
            0 <= i < j < l1.users@.len() implies #[trigger] l1.users@[i].owner@
            != #[trigger] l1.users@[j].owner@ by {
            assert(l0.users@[i].owner@ == l1.users@[i].owner@);
            assert(l0.users@[j].owner@ == l1.users@[j].owner@);
        }
    }
    Ok(())
}

/// Why `owner` cannot publish paper number `id`, if they cannot.
pub open spec fn new_paper_error(l: Ledger, owner: Identity, id: u64, url: Seq<char>, price: u64, uri: Seq<char>) -> Option<ErrorCode> {
    if !has_user(l, owner@) {
        Some(ErrorCode::AccountNotInitialized)
    } else if has_paper(l, (owner@, id)) {
        Some(ErrorCode::AccountAlreadyInUse)
    } else if field_error(Some(url), MAX_TEXT_LEN) is Some {
        field_error(Some(url), MAX_TEXT_LEN)
    } else if field_error(Some(uri), MAX_TEXT_LEN) is Some {
        field_error(Some(uri), MAX_TEXT_LEN)
    } else if !price_ok(price) {
        Some(ErrorCode::IncorrectPricing)
    } else if has_restricted(url) || has_restricted(uri) {
        Some(ErrorCode::EmojisNotAllowed)
    } else if l.users@[user_index(l, owner@)].papers == u32::MAX {
        Some(ErrorCode::MathOverflow)
    } else {
        None
    }
}

/// Publishes paper number `id` of `owner`: unlisted, with no reviews or sales, and
/// counted among the owner's papers.
pub fn new_paper(ledger: &mut Ledger, owner: &Identity, id: u64, paper_info_url: String, price: u64, uri: String, now: u64) -> (r: Result<(), ErrorCode>)
    requires
        old(ledger).wf(),
    ensures
        final(ledger).wf(),
        r == (match new_paper_error(*old(ledger), *owner, id, paper_info_url@, price, uri@) {
            Some(e) => Err(e),
            None => Ok(()),
        }),
        r is Err ==> unchanged(*old(ledger), *final(ledger)),
        r is Ok ==> {
            let ui = user_index(*old(ledger), owner@);
            let u = old(ledger).users@[ui];
            &&& final(ledger).papers@ == old(ledger).papers@.push(
                Paper {
                    id,
                    paper_info_url,
                    version: FIRST_VERSION,
                    owner: *owner,
                    listed: false,
                    price,
                    bump: 0,
                    user_bump: 0,
                    reviews: 0,
                    review_status: ReviewStatus { approved: 0, rejected: 0, review_requested: 0 },
                    sales: 0,
                    timestamp: now,
                    paper_uri: uri,
                },
            )
            &&& final(ledger).users@ == old(ledger).users@.update(
                ui,
                UserAccount { papers: (u.papers + 1) as u32, timestamp: now, ..u },
            )
            &&& final(ledger).config == old(ledger).config
            &&& final(ledger).authors@ == old(ledger).authors@
            &&& final(ledger).reviews@ == old(ledger).reviews@
            &&& final(ledger).purchases@ == old(ledger).purchases@
        },
{
    let ghost l0 = *ledger;
    let ui = match ledger.find_user(owner) {
        Some(i) => i,
        None => {
            return Err(ErrorCode::AccountNotInitialized);
        },
    };
    proof {
        assert(user_index(l0, owner@) == ui as int);
    }
    let key = PaperKey { owner: *owner, id };
    if ledger.find_paper(&key).is_some() {
        return Err(ErrorCode::AccountAlreadyInUse);
    }
    check_field(paper_info_url.as_str(), MAX_TEXT_LEN)?;
    check_field(uri.as_str(), MAX_TEXT_LEN)?;
    if !(price == 0 || price >= crate::state::MIN_PRICE) {
        return Err(ErrorCode::IncorrectPricing);
    }
    if contains_emoji(paper_info_url.as_str()) || contains_emoji(uri.as_str()) {
        return Err(ErrorCode::EmojisNotAllowed);
    }
    if ledger.users[ui].papers == u32::MAX {
        return Err(ErrorCode::MathOverflow);
    }
    let mut account = ledger.users.remove(ui);
    account.papers = account.papers + 1;
    account.timestamp = now;
    ledger.users.insert(ui, account);
    ledger.papers.push(
        Paper {
            id,
            paper_info_url,
            version: FIRST_VERSION,
            owner: *owner,
            listed: false,
            price,
            bump: 0,
            user_bump: 0,
            reviews: 0,
            review_status: ReviewStatus::new(),
            sales: 0,
            timestamp: now,
            paper_uri: uri,
        },
    );
    proof {
        let l1 = *ledger;
        assert(l1.users@ =~= l0.users@.update(ui as int, l1.users@[ui as int]));
        assert forall|i: int, j: int|
            0 <= i < j < l1.users@.len() implies #[trigger] l1.users@[i].owner@
            != #[trigger] l1.users@[j].owner@ by {
            assert(l0.users@[i].owner@ == l1.users@[i].owner@);
            assert(l0.users@[j].owner@ == l1.users@[j].owner@);
        }
        assert forall|i: int, j: int|
            0 <= i < j < l1.papers@.len() implies #[trigger] l1.papers@[i].key()
            != #[trigger] l1.papers@[j].key() by {
            if j == l1.papers@.len() - 1 {
                assert(!paper_at(l0, i, key@));
            }
        }
        assert forall|i: int| 0 <= i < l1.papers@.len() implies crate::review_status::counters_ok(
            #[trigger] l1.papers@[i].review_status) by {
            if i < l0.papers@.len() {
                assert(l1.papers@[i] == l0.papers@[i]);
            }
        }
    }
    Ok(())
}

/// Why `owner` cannot name `author` as co-author of their paper number `id`, if they
/// cannot.
pub open spec fn new_author_error(l: Ledger, owner: Identity, author: Identity, id: u64) -> Option<ErrorCode> {
    if !has_paper(l, (owner@, id)) {
        Some(ErrorCode::AccountNotInitialized)
    } else if author@ == owner@ {
        Some(ErrorCode::Unauthorized)
    } else if has_author(l, author@, (owner@, id)) {
        Some(ErrorCode::AccountAlreadyInUse)
    } else {
        None
    }
}

/// Records `author` as an unverified co-author of `owner`'s paper number `id`.
pub fn new_author(ledger: &mut Ledger, owner: &Identity, author: Identity, id: u64) -> (r: Result<(), ErrorCode>)
    requires
        old(ledger).wf(),
    ensures
        final(ledger).wf(),
        r == (match new_author_error(*old(ledger), *owner, author, id) {
            Some(e) => Err(e),
            None => Ok(()),
        }),
        r is Err ==> unchanged(*old(ledger), *final(ledger)),
        r is Ok ==> {
            let rec = final(ledger).authors@.last();
            &&& final(ledger).authors@ == old(ledger).authors@.push(rec)
            &&& rec.author == author && rec.paper@ == (owner@, id) && !rec.verify
            &&& final(ledger).config == old(ledger).config
            &&& final(ledger).users@ == old(ledger).users@
            &&& final(ledger).papers@ == old(ledger).papers@
            &&& final(ledger).reviews@ == old(ledger).reviews@
            &&& final(ledger).purchases@ == old(ledger).purchases@
        },
{
    let ghost l0 = *ledger;
    let key = PaperKey { owner: *owner, id };
    if ledger.find_paper(&key).is_none() {
        return Err(ErrorCode::AccountNotInitialized);
    }
    if author.same(owner) {
        return Err(ErrorCode::Unauthorized);
    }
    if ledger.find_author(&author, &key).is_some() {
        return Err(ErrorCode::AccountAlreadyInUse);
    }
    ledger.authors.push(PaperAuthor { author, paper: key, verify: false, bump: 0 });
    proof {
        let l1 = *ledger;
        assert forall|i: int, j: int|
            0 <= i < j < l1.authors@.len() implies (#[trigger] l1.authors@[i].author@,
            l1.authors@[i].paper@) != (#[trigger] l1.authors@[j].author@,
            l1.authors@[j].paper@) by {
            if j == l1.authors@.len() - 1 {
                assert(!author_at(l0, i, author@, key@));
            }
        }
    }
    Ok(())
}

/// Confirms `author`'s co-authorship of paper `paper`; confirming twice changes nothing.
pub fn verify(ledger: &mut Ledger, author: &Identity, paper: &PaperKey) -> (r: Result<(), ErrorCode>)
    requires
        old(ledger).wf(),
    ensures
        final(ledger).wf(),
        r is Ok <==> has_author(*old(ledger), author@, paper@),
        r is Err ==> r == Err::<(), ErrorCode>(ErrorCode::AccountNotInitialized) && unchanged(
            *old(ledger),
            *final(ledger),
        ),
        r is Ok ==> {
            let ai = author_index(*old(ledger), author@, paper@);
            &&& final(ledger).authors@ == old(ledger).authors@.update(
                ai,
                PaperAuthor { verify: true, ..old(ledger).authors@[ai] },
            )
            &&& final(ledger).config == old(ledger).config
            &&& final(ledger).users@ == old(ledger).users@
            &&& final(ledger).papers@ == old(ledger).papers@
            &&& final(ledger).reviews@ == old(ledger).reviews@
            &&& final(ledger).purchases@ == old(ledger).purchases@
        },
{
    let ghost l0 = *ledger;
    let ai = match ledger.find_author(author, paper) {
        Some(i) => i,
        None => {
            return Err(ErrorCode::AccountNotInitialized);
        },
    };
    proof {
        assert(author_index(l0, author@, paper@) == ai as int);
    }
    let mut ctx = crate::verify_author::VerifyAuthor {
        author: *author,
        paper_author: ledger.authors.remove(ai),
    };
    let _ = ctx.verify_author();
    ledger.authors.insert(ai, ctx.paper_author);
    proof {
        let l1 = *ledger;
        assert(l1.authors@ =~= l0.authors@.update(ai as int, l1.authors@[ai as int]));
        assert forall|i: int, j: int|
            0 <= i < j < l1.authors@.len() implies (#[trigger] l1.authors@[i].author@,
            l1.authors@[i].paper@) != (#[trigger] l1.authors@[j].author@,
            l1.authors@[j].paper@) by {
            assert(l0.authors@[i].author@ == l1.authors@[i].author@);
            assert(l0.authors@[j].author@ == l1.authors@[j].author@);
            assert(l0.authors@[i].paper@ == l1.authors@[i].paper@);
            assert(l0.authors@[j].paper@ == l1.authors@[j].paper@);
        }
    }
    Ok(())
}

/// Registers `admin` on the platform; the first registration also sets the fee.
pub fn initialize(ledger: &mut Ledger, admin: &Identity, bumps: InitializeBumps) -> (r: Result<(), ErrorCode>)
    requires
        old(ledger).wf(),
    ensures
        final(ledger).wf(),
        r == (match admin_error(old(ledger).config, *admin) {
            Some(e) => Err(e),
            None => Ok(()),
        }),
        r is Err ==> unchanged(*old(ledger), *final(ledger)),
        r is Ok ==> {
            let (c, d) = (old(ledger).config, final(ledger).config);
            &&& d.admins@ == c.admins@.push(*admin)
            &&& d.fee == (if c.fee is None {
                Some(DEFAULT_FEE)
            } else {
                c.fee
            })
            &&& final(ledger).users@ == old(ledger).users@
            &&& final(ledger).papers@ == old(ledger).papers@
            &&& final(ledger).authors@ == old(ledger).authors@
            &&& final(ledger).reviews@ == old(ledger).reviews@
            &&& final(ledger).purchases@ == old(ledger).purchases@
        },
{
    let mut config = PaperFiConfig::new();
    std::mem::swap(&mut config, &mut ledger.config);
    let mut ctx = Initialize { admin: *admin, config };
    let r = ctx.generate_accounts(bumps);
    ledger.config = ctx.config;
    r
}

/// Checks `user`'s achievement for the badge `args` and, when it holds, returns what
/// to mint, stamped at `now`.
pub fn mint_achievement_nft(ledger: &Ledger, user: &Identity, args: PrintBadgeArgs, now: i64) -> (r: Result<BadgeMint, ErrorCode>)
    requires
        ledger.wf(),
    ensures
        !has_user(*ledger, user@) ==> r == Err::<BadgeMint, ErrorCode>(ErrorCode::AccountNotInitialized),
        has_user(*ledger, user@) ==> {
            let ctx = PrintBadge { user: *user, user_account: ledger.users@[user_index(*ledger, user@)] };
            &&& r is Err <==> badge_error(ctx, args.name@, args.record) is Some
            &&& r is Err ==> r == Err::<BadgeMint, ErrorCode>(badge_error(ctx, args.name@, args.record)->0)
            &&& r matches Ok(m) ==> m.owner == *user && m.name@ == args.name@ && m.uri@ == args.uri@
                && m.achievement@ == args.achievement@ && m.record == args.record && m.timestamp == now
        },
{
    let ui = match ledger.find_user(user) {
        Some(i) => i,
        None => {
            return Err(ErrorCode::AccountNotInitialized);
        },
    };
    proof {
        assert(user_index(*ledger, user@) == ui as int);
    }
    let account = &ledger.users[ui];
    let ctx = PrintBadge { user: *user, user_account: UserAccount {
        name: String::new(),
        title: String::new(),
        purchases: account.purchases,
        papers: account.papers,
        reviews: account.reviews,
        owner: account.owner,
        bump: account.bump,
        vault_bump: account.vault_bump,
        timestamp: account.timestamp,
    } };
    ctx.print_badge(args, now)
}

/// Lets an admin create a badge collection; hands back what the asset minter needs.
pub fn make_badge(ledger: &Ledger, admin: &Identity, args: CreateBadgeArgs) -> (r: Result<CreateBadgeArgs, ErrorCode>)
    ensures
        r is Ok <==> ledger.config.has_admin(admin@),
        r is Err ==> r == Err::<CreateBadgeArgs, ErrorCode>(ErrorCode::Unauthorized),
        r matches Ok(a) ==> a == args,
{
    if !ledger.config.is_admin(admin) {
        return Err(ErrorCode::Unauthorized);
    }
    Ok(args)
}

/// A user may withdraw from their own vault once their account exists.
pub fn user_withdraw(ledger: &Ledger, user: &Identity) -> (r: Result<(), ErrorCode>)
    ensures
        r is Ok <==> has_user(*ledger, user@),
        r is Err ==> r == Err::<(), ErrorCode>(ErrorCode::AccountNotInitialized),
{
    match ledger.find_user(user) {
        Some(_) => Ok(()),
        None => Err(ErrorCode::AccountNotInitialized),
    }
}

/// Only an admin may withdraw from the platform's vault.
pub fn admin_withdraw(ledger: &Ledger, admin: &Identity) -> (r: Result<(), ErrorCode>)
    ensures
        r is Ok <==> ledger.config.has_admin(admin@),
        r is Err ==> r == Err::<(), ErrorCode>(ErrorCode::Unauthorized),
{
    if ledger.config.is_admin(admin) {
        Ok(())
    } else {
        Err(ErrorCode::Unauthorized)
    }
}

} // verus!
