use vstd::prelude::*;
use crate::params::{EditPaperParams, pick};
use crate::state::{ErrorCode, Identity, Paper, MAX_TEXT_LEN, MIN_PRICE, price_ok};
use crate::validation::{
    contains_emoji, field_error, has_restricted, opt_view, update_field, update_numeric_field,
};

verus! {

/// The owner's request to change one of their papers.
pub struct EditPaper {
    pub owner: Identity,
    pub paper: Paper,
}

/// Why an edit of `p` with `params` is refused, if it is: the text fields are checked
/// first, then the resulting price, then the resulting texts for restricted symbols.
pub open spec fn edit_paper_error(p: Paper, params: EditPaperParams) -> Option<ErrorCode> {
    let url = pick(opt_view(params.paper_info_url), p.paper_info_url@);
    let uri = pick(opt_view(params.paper_uri), p.paper_uri@);
    if field_error(opt_view(params.paper_info_url), MAX_TEXT_LEN) is Some {
        field_error(opt_view(params.paper_info_url), MAX_TEXT_LEN)
    } else if field_error(opt_view(params.paper_uri), MAX_TEXT_LEN) is Some {
        field_error(opt_view(params.paper_uri), MAX_TEXT_LEN)
    } else if !price_ok(pick(params.price, p.price)) {
        Some(ErrorCode::IncorrectPricing)
    } else if has_restricted(url) || has_restricted(uri) {
        Some(ErrorCode::EmojisNotAllowed)
    } else {
        None
    }
}

/// Why `owner` cannot edit `p` with `params`, if they cannot: only the paper's owner
/// may edit it.
pub open spec fn owner_edit_error(owner: Identity, p: Paper, params: EditPaperParams) -> Option<ErrorCode> {
    if owner@ != p.owner@ {
        Some(ErrorCode::Unauthorized)
    } else {
        edit_paper_error(p, params)
    }
}

/// `q` is `p` with every given field of `params` applied, stamped at `now`.
pub open spec fn paper_edited(p: Paper, q: Paper, params: EditPaperParams, now: u64) -> bool {
    &&& q.paper_info_url@ == pick(opt_view(params.paper_info_url), p.paper_info_url@)
    &&& q.paper_uri@ == pick(opt_view(params.paper_uri), p.paper_uri@)
    &&& q.price == pick(params.price, p.price)
    &&& q.version == pick(params.version, p.version)
    &&& q.listed == pick(params.listed, p.listed)
    &&& q.timestamp == now
    &&& q.id == p.id
    &&& q.owner == p.owner
    &&& q.bump == p.bump
    &&& q.user_bump == p.user_bump
    &&& q.reviews == p.reviews
    &&& q.review_status == p.review_status
    &&& q.sales == p.sales
}

impl EditPaper {
    /// Applies all given fields at once, or none of them when one check fails.
    pub fn edit_paper(&mut self, _id: u64, params: EditPaperParams, now: u64) -> (r: Result<(), ErrorCode>)
        ensures
            r == (match owner_edit_error(old(self).owner, old(self).paper, params) {
                Some(e) => Err(e),
                None => Ok(()),
            }),
            r is Ok ==> paper_edited(old(self).paper, final(self).paper, params, now),
            r is Err ==> *final(self) == *old(self),
            final(self).owner == old(self).owner,
    {
        if !self.owner.same(&self.paper.owner) {
            return Err(ErrorCode::Unauthorized);
        }
        let mut url = self.paper.paper_info_url.clone();
        let mut uri = self.paper.paper_uri.clone();
        let mut price = self.paper.price;
        let mut version = self.paper.version;
        update_field(&mut url, params.paper_info_url, MAX_TEXT_LEN)?;
        update_field(&mut uri, params.paper_uri, MAX_TEXT_LEN)?;
        let _ = update_numeric_field(&mut price, params.price);
        let _ = update_numeric_field(&mut version, params.version);
        if !(price == 0 || price >= MIN_PRICE) {
            return Err(ErrorCode::IncorrectPricing);
        }
        if contains_emoji(url.as_str()) {
            return Err(ErrorCode::EmojisNotAllowed);
        }
        if contains_emoji(uri.as_str()) {
            return Err(ErrorCode::EmojisNotAllowed);
        }
        self.paper.paper_info_url = url;
        self.paper.paper_uri = uri;
        self.paper.price = price;
        self.paper.version = version;
        match params.listed {
            Some(listed) => {
                self.paper.listed = listed;
            },
            None => {},
        }
        self.paper.timestamp = now;
        Ok(())
    }
}

/// An edit that sets a price between zero and the floor is refused; when the given
/// texts are acceptable the refusal is the price-floor error. A refused edit changes
/// no field (see `EditPaper::edit_paper`).
pub proof fn lemma_price_below_floor_refused(p: Paper, params: EditPaperParams)
    requires
        params.price matches Some(v) && 0 < v < MIN_PRICE,
    ensures
        edit_paper_error(p, params) is Some,
        field_error(opt_view(params.paper_info_url), MAX_TEXT_LEN) is None && field_error(
            opt_view(params.paper_uri),
            MAX_TEXT_LEN,
        ) is None ==> edit_paper_error(p, params) == Some(ErrorCode::IncorrectPricing),
{
}

} // verus!
