use vstd::prelude::*;

verus! {

/// Profile fields to change; an absent field stays as it is.
pub struct EditUserParams {
    pub name: Option<String>,
    pub title: Option<String>,
}

/// Name and metadata location of a badge collection.
pub struct CreateBadgeArgs {
    pub name: String,
    pub uri: String,
}

/// A badge to issue: `name` selects the achievement checked, `record` its threshold.
pub struct PrintBadgeArgs {
    pub name: String,
    pub uri: String,
    pub achievement: String,
    pub record: u32,
    pub timestamp: u64,
}

/// Paper fields to change; an absent field stays as it is.
pub struct EditPaperParams {
    pub paper_info_url: Option<String>,
    pub listed: Option<bool>,
    pub price: Option<u64>,
    pub version: Option<u32>,
    pub paper_uri: Option<String>,
}

/// Value of an optional update applied over `current`.
pub open spec fn pick<T>(incoming: Option<T>, current: T) -> T {
    match incoming {
        Some(v) => v,
        None => current,
    }
}

} // verus!
