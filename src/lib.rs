//! Record keeping and settlement for a paper-publishing marketplace: papers and their
//! listing, review verdicts and their counts, purchases with fee splitting, co-author
//! records, admin registration and achievement thresholds.
//!
//! Each operation either applies all of its changes or returns an error and changes
//! nothing. Time and money movements stay outside: callers pass the current time in,
//! and a purchase hands back the transfers to make.
use vstd::prelude::*;

pub mod review_status;
pub mod state;
pub mod validation;
pub mod achievement;
pub mod params;
pub mod edit_paper;
pub mod review_paper;
pub mod edit_review;
pub mod buy_paper;
pub mod initialize;
pub mod verify_author;
pub mod print_badge;
pub mod ledger;
pub mod program;
pub mod accounts;

verus! {

} // verus!
