use paperfi::accounts::{
    admin_withdraw, edit_user, initialize, make_badge, mint_achievement_nft, new_author, new_paper,
    signup, user_withdraw, verify,
};
use paperfi::achievement::{check_user_achievement, Achievement};
use paperfi::initialize::InitializeBumps;
use paperfi::ledger::Ledger;
use paperfi::params::{CreateBadgeArgs, EditPaperParams, EditUserParams, PrintBadgeArgs};
use paperfi::program::{buy_paper, edit_paper, edit_review, review_paper};
use paperfi::review_status::Verdict;
use paperfi::state::{ErrorCode, Identity, PaperKey, UserAccount};
use paperfi::validation::{contains_emoji, update_field, update_numeric_field};

fn id(b: u8) -> Identity {
    Identity::new([b; 32])
}

fn key(owner: u8, n: u64) -> PaperKey {
    PaperKey { owner: id(owner), id: n }
}

fn bumps() -> InitializeBumps {
    InitializeBumps { config: 1, config_vault: 2 }
}

/// A platform with an admin, users 1 to 3, and paper 7 of user 1 at `price`.
fn market(price: u64) -> Ledger {
    let mut l = Ledger::new();
    initialize(&mut l, &id(9), bumps()).unwrap();
    for u in 1..=3u8 {
        signup(&mut l, &id(u), format!("user{}", u), "reader".to_string(), 1).unwrap();
    }
    new_paper(&mut l, &id(1), 7, "https://info".to_string(), price, "ipfs://p".to_string(), 2)
        .unwrap();
    l
}

fn no_changes() -> EditPaperParams {
    EditPaperParams { paper_info_url: None, listed: None, price: None, version: None, paper_uri: None }
}

fn user(l: &Ledger, b: u8) -> &UserAccount {
    l.users.iter().find(|u| u.owner.bytes == [b; 32]).unwrap()
}

#[test]
fn edit_below_price_floor_changes_nothing() {
    let mut l = market(0);
    let params = EditPaperParams {
        paper_info_url: Some("https://new".to_string()),
        listed: Some(true),
        price: Some(500_000),
        version: Some(4),
        paper_uri: Some("ipfs://new".to_string()),
    };
    assert_eq!(edit_paper(&mut l, &id(1), 7, params, 30), Err(ErrorCode::IncorrectPricing));
    let p = &l.papers[0];
    assert_eq!(p.paper_info_url, "https://info");
    assert_eq!(p.paper_uri, "ipfs://p");
    assert_eq!(p.price, 0);
    assert_eq!(p.version, 1);
    assert!(!p.listed);
    assert_eq!(p.timestamp, 2);
}

#[test]
fn edit_applies_all_given_fields() {
    let mut l = market(0);
    let params = EditPaperParams {
        paper_info_url: Some("https://new".to_string()),
        listed: Some(true),
        price: Some(1_000_000),
        version: None,
        paper_uri: None,
    };
    assert_eq!(edit_paper(&mut l, &id(1), 7, params, 30), Ok(()));
    let p = &l.papers[0];
    assert_eq!(p.paper_info_url, "https://new");
    assert_eq!(p.paper_uri, "ipfs://p");
    assert_eq!(p.price, 1_000_000);
    assert_eq!(p.version, 1);
    assert!(p.listed);
    assert_eq!(p.timestamp, 30);
}

#[test]
fn edit_rejects_emoji_and_bad_lengths() {
    let mut l = market(0);
    let mut params = no_changes();
    params.paper_uri = Some("ipfs://\u{1F600}".to_string());
    assert_eq!(edit_paper(&mut l, &id(1), 7, params, 3), Err(ErrorCode::EmojisNotAllowed));
    let mut params = no_changes();
    params.paper_info_url = Some(String::new());
    assert_eq!(edit_paper(&mut l, &id(1), 7, params, 3), Err(ErrorCode::FieldIsEmpty));
    let mut params = no_changes();
    params.paper_info_url = Some("a".repeat(200));
    assert_eq!(edit_paper(&mut l, &id(1), 7, params, 3), Err(ErrorCode::InvalidFieldLength));
    assert_eq!(edit_paper(&mut l, &id(2), 7, no_changes(), 3), Err(ErrorCode::AccountNotInitialized));
    assert_eq!(l.papers[0].paper_uri, "ipfs://p");
}

#[test]
fn free_purchase_moves_no_funds() {
    let mut l = market(0);
    let pu = buy_paper(&mut l, &id(2), &key(1, 7), 40).unwrap();
    assert_eq!(pu.owner_amount, 0);
    assert_eq!(pu.fee_amount, 0);
    assert_eq!(l.purchases.len(), 1);
    assert_eq!(l.purchases[0].timestamp, 40);
    assert_eq!(l.papers[0].sales, 1);
    assert_eq!(user(&l, 2).purchases, 1);
}

#[test]
fn second_purchase_is_a_duplicate() {
    let mut l = market(2_000_000);
    buy_paper(&mut l, &id(2), &key(1, 7), 40).unwrap();
    let again = buy_paper(&mut l, &id(2), &key(1, 7), 41);
    assert!(matches!(again, Err(ErrorCode::AccountAlreadyInUse)));
    assert_eq!(l.papers[0].sales, 1);
    assert_eq!(user(&l, 2).purchases, 1);
    assert_eq!(l.purchases.len(), 1);
}

#[test]
fn buyer_pays_price_plus_percentage_fee() {
    let mut l = market(2_000_000);
    let pu = buy_paper(&mut l, &id(2), &key(1, 7), 40).unwrap();
    assert_eq!(pu.owner_amount, 2_000_000);
    assert_eq!(pu.fee_amount, 40_000);
    assert_eq!(pu.owner_amount + pu.fee_amount, 2_040_000);
}

#[test]
fn fee_truncates() {
    let mut l = market(1_000_049);
    let pu = buy_paper(&mut l, &id(2), &key(1, 7), 40).unwrap();
    assert_eq!(pu.fee_amount, 20_000);
}

#[test]
fn coauthor_gets_paper_free() {
    let mut l = market(2_000_000);
    new_author(&mut l, &id(1), id(3), 7).unwrap();
    let pu = buy_paper(&mut l, &id(3), &key(1, 7), 40).unwrap();
    assert_eq!(pu.owner_amount, 0);
    assert_eq!(pu.fee_amount, 0);
    assert_eq!(l.papers[0].sales, 1);
}

#[test]
fn publisher_cannot_buy() {
    let mut l = market(2_000_000);
    let r = buy_paper(&mut l, &id(1), &key(1, 7), 40);
    assert!(matches!(r, Err(ErrorCode::PublisherCantBuy)));
    assert!(l.purchases.is_empty());
}

#[test]
fn buying_unknown_paper_fails() {
    let mut l = market(0);
    let r = buy_paper(&mut l, &id(2), &key(1, 8), 40);
    assert!(matches!(r, Err(ErrorCode::AccountNotInitialized)));
}

#[test]
fn review_flow_through_ledger() {
    let mut l = market(0);
    for u in [2u8, 3] {
        buy_paper(&mut l, &id(u), &key(1, 7), 40).unwrap();
    }
    assert_eq!(review_paper(&mut l, &id(2), &key(1, 7), Verdict::ReviewRequested, "r".to_string(), 50), Ok(()));
    assert_eq!(review_paper(&mut l, &id(3), &key(1, 7), Verdict::Rejected, "r".to_string(), 51), Ok(()));
    assert_eq!(
        review_paper(&mut l, &id(3), &key(1, 7), Verdict::Approved, "r".to_string(), 52),
        Err(ErrorCode::AccountAlreadyInUse)
    );
    assert_eq!(l.papers[0].reviews, 2);
    assert!(!l.papers[0].listed);
    assert_eq!(edit_review(&mut l, &id(2), &key(1, 7), Verdict::Approved, 60), Ok(()));
    let st = l.papers[0].review_status;
    assert_eq!((st.approved, st.rejected, st.review_requested), (1, 1, 0));
    assert!(l.papers[0].listed);
    assert_eq!(user(&l, 3).reviews, 1);
    assert_eq!(
        edit_review(&mut l, &id(1), &key(1, 7), Verdict::Approved, 60),
        Err(ErrorCode::AccountNotInitialized)
    );
}

#[test]
fn owner_and_unbought_reviews_refused() {
    let mut l = market(0);
    assert_eq!(
        review_paper(&mut l, &id(1), &key(1, 7), Verdict::Approved, "r".to_string(), 5),
        Err(ErrorCode::Unauthorized)
    );
    assert_eq!(
        review_paper(&mut l, &id(2), &key(1, 7), Verdict::Approved, "r".to_string(), 5),
        Err(ErrorCode::PurchaseRequired)
    );
    assert!(l.reviews.is_empty());
}

#[test]
fn achievement_check_on_reviews() {
    let mut acct = UserAccount {
        name: "n".to_string(),
        title: "t".to_string(),
        purchases: 0,
        papers: 0,
        reviews: 5,
        owner: id(1),
        bump: 0,
        vault_bump: 0,
        timestamp: 0,
    };
    assert_eq!(check_user_achievement(&acct, "reviews", 5), Ok(()));
    acct.reviews = 4;
    assert_eq!(check_user_achievement(&acct, "reviews", 5), Err(ErrorCode::InvalidAchievement));
    assert_eq!(check_user_achievement(&acct, "unknown", 0), Err(ErrorCode::UnknownBadge));
    assert_eq!(check_user_achievement(&acct, "unknown", 5), Err(ErrorCode::UnknownBadge));
    assert_eq!(check_user_achievement(&acct, "papers", 0), Ok(()));
    assert_eq!(check_user_achievement(&acct, "purchases", 1), Err(ErrorCode::InvalidAchievement));
    assert_eq!(Achievement::from_name("purchases"), Some(Achievement::Purchases));
    assert_eq!(Achievement::from_name("Reviews"), None);
}

#[test]
fn badge_minted_only_past_threshold() {
    let mut l = market(0);
    let args = |n: &str, rec: u32| PrintBadgeArgs {
        name: n.to_string(),
        uri: "ipfs://badge".to_string(),
        achievement: "First paper".to_string(),
        record: rec,
        timestamp: 0,
    };
    let m = mint_achievement_nft(&l, &id(1), args("papers", 1), 77).unwrap();
    assert_eq!(m.record, 1);
    assert_eq!(m.timestamp, 77);
    assert_eq!(m.achievement, "First paper");
    assert!(matches!(mint_achievement_nft(&l, &id(1), args("papers", 2), 77), Err(ErrorCode::InvalidAchievement)));
    assert!(matches!(mint_achievement_nft(&l, &id(4), args("papers", 0), 77), Err(ErrorCode::AccountNotInitialized)));
    new_paper(&mut l, &id(1), 8, "https://i".to_string(), 0, "ipfs://q".to_string(), 3).unwrap();
    assert!(mint_achievement_nft(&l, &id(1), args("papers", 2), 77).is_ok());
}

#[test]
fn admins_are_capped_and_unique() {
    let mut l = Ledger::new();
    assert_eq!(initialize(&mut l, &id(1), bumps()), Ok(()));
    assert_eq!(l.config.fee, Some(2));
    assert_eq!(l.config.bump, 1);
    assert_eq!(initialize(&mut l, &id(1), bumps()), Err(ErrorCode::AdminAlreadyExists));
    assert_eq!(initialize(&mut l, &id(2), InitializeBumps { config: 5, config_vault: 6 }), Ok(()));
    assert_eq!(l.config.bump, 1);
    assert_eq!(initialize(&mut l, &id(3), bumps()), Ok(()));
    assert_eq!(initialize(&mut l, &id(4), bumps()), Err(ErrorCode::TooManyAdmins));
    assert_eq!(l.config.admins.len(), 3);
    assert_eq!(admin_withdraw(&l, &id(2)), Ok(()));
    assert_eq!(admin_withdraw(&l, &id(4)), Err(ErrorCode::Unauthorized));
    let args = CreateBadgeArgs { name: "Critic".to_string(), uri: "ipfs://c".to_string() };
    assert!(make_badge(&l, &id(3), args).is_ok());
    let args = CreateBadgeArgs { name: "Critic".to_string(), uri: "ipfs://c".to_string() };
    assert!(matches!(make_badge(&l, &id(5), args), Err(ErrorCode::Unauthorized)));
}

#[test]
fn author_verification_is_idempotent() {
    let mut l = market(0);
    assert_eq!(new_author(&mut l, &id(1), id(1), 7), Err(ErrorCode::Unauthorized));
    assert_eq!(new_author(&mut l, &id(1), id(2), 7), Ok(()));
    assert_eq!(new_author(&mut l, &id(1), id(2), 7), Err(ErrorCode::AccountAlreadyInUse));
    assert_eq!(new_author(&mut l, &id(2), id(3), 7), Err(ErrorCode::AccountNotInitialized));
    assert!(!l.authors[0].verify);
    assert_eq!(verify(&mut l, &id(3), &key(1, 7)), Err(ErrorCode::AccountNotInitialized));
    assert_eq!(verify(&mut l, &id(2), &key(1, 7)), Ok(()));
    assert!(l.authors[0].verify);
    assert_eq!(verify(&mut l, &id(2), &key(1, 7)), Ok(()));
    assert!(l.authors[0].verify);
}

#[test]
fn signup_and_profile_edits() {
    let mut l = market(0);
    assert_eq!(signup(&mut l, &id(1), "x".to_string(), "y".to_string(), 1), Err(ErrorCode::AccountAlreadyInUse));
    assert_eq!(signup(&mut l, &id(5), "a".repeat(48), "y".to_string(), 1), Err(ErrorCode::InvalidFieldLength));
    assert_eq!(signup(&mut l, &id(5), "x".to_string(), String::new(), 1), Err(ErrorCode::FieldIsEmpty));
    assert_eq!(user(&l, 1).papers, 1);
    let params = EditUserParams { name: Some("Ada".to_string()), title: None };
    assert_eq!(edit_user(&mut l, &id(2), params, 8), Ok(()));
    assert_eq!(user(&l, 2).name, "Ada");
    assert_eq!(user(&l, 2).title, "reader");
    let params = EditUserParams { name: Some("Bob".to_string()), title: Some(String::new()) };
    assert_eq!(edit_user(&mut l, &id(2), params, 9), Err(ErrorCode::FieldIsEmpty));
    assert_eq!(user(&l, 2).name, "Ada");
    assert_eq!(user_withdraw(&l, &id(2)), Ok(()));
    assert_eq!(user_withdraw(&l, &id(6)), Err(ErrorCode::AccountNotInitialized));
}

#[test]
fn publishing_validates_fields() {
    let mut l = market(0);
    let np = |l: &mut Ledger, n: u64, url: &str, price: u64| {
        new_paper(l, &id(1), n, url.to_string(), price, "ipfs://p".to_string(), 4)
    };
    assert_eq!(np(&mut l, 7, "https://x", 0), Err(ErrorCode::AccountAlreadyInUse));
    assert_eq!(np(&mut l, 8, "https://x", 999_999), Err(ErrorCode::IncorrectPricing));
    assert_eq!(np(&mut l, 8, "\u{2600}", 0), Err(ErrorCode::EmojisNotAllowed));
    assert_eq!(new_paper(&mut l, &id(8), 8, "u".to_string(), 0, "v".to_string(), 4), Err(ErrorCode::AccountNotInitialized));
    assert_eq!(np(&mut l, 8, "https://x", 1_000_000), Ok(()));
    assert_eq!(l.papers.len(), 2);
    assert!(!l.papers[1].listed);
    assert_eq!(l.papers[1].review_status.rejection_ratio(), 0);
}

#[test]
fn field_helpers() {
    let mut f = "old".to_string();
    assert_eq!(update_field(&mut f, None, 10), Ok(()));
    assert_eq!(f, "old");
    assert_eq!(update_field(&mut f, Some("0123456789".to_string()), 10), Err(ErrorCode::InvalidFieldLength));
    assert_eq!(f, "old");
    assert_eq!(update_field(&mut f, Some("new".to_string()), 10), Ok(()));
    assert_eq!(f, "new");
    let mut n: u64 = 3;
    assert_eq!(update_numeric_field(&mut n, None), Ok(()));
    assert_eq!(n, 3);
    assert_eq!(update_numeric_field(&mut n, Some(9)), Ok(()));
    assert_eq!(n, 9);
}

#[test]
fn restricted_symbols() {
    assert!(!contains_emoji("plain text, accents: é ü"));
    assert!(!contains_emoji(""));
    assert!(contains_emoji("star \u{2B50}"));
    assert!(contains_emoji("\u{1F1E6}"));
    assert!(contains_emoji("\u{24C2}"));
    assert!(!contains_emoji("\u{24C1}"));
    assert!(contains_emoji("x\u{1F680}y"));
}

#[test]
fn non_owner_cannot_edit_paper() {
    let mut l = market(0);
    let mut ctx = paperfi::edit_paper::EditPaper { owner: id(2), paper: l.papers.remove(0) };
    let mut params = no_changes();
    params.listed = Some(true);
    assert_eq!(ctx.edit_paper(7, params, 5), Err(ErrorCode::Unauthorized));
    assert!(!ctx.paper.listed);
    ctx.owner = id(1);
    let mut params = no_changes();
    params.listed = Some(true);
    assert_eq!(ctx.edit_paper(7, params, 5), Ok(()));
    assert!(ctx.paper.listed);
}

#[test]
fn oversized_fee_product_is_an_overflow() {
    let mut l = market(u64::MAX);
    let r = buy_paper(&mut l, &id(2), &key(1, 7), 40);
    assert!(matches!(r, Err(ErrorCode::MathOverflow)));
    assert_eq!(l.papers[0].sales, 0);
    assert!(l.purchases.is_empty());
}
