use vstd::prelude::*;
use crate::state::{ErrorCode, Identity, PaperAuthor};

verus! {

/// A co-author's confirmation of their author record.
pub struct VerifyAuthor {
    pub author: Identity,
    pub paper_author: PaperAuthor,
}

impl VerifyAuthor {
    /// Sets the record's verification flag; only the author it names may do so, and
    /// doing it again changes nothing.
    pub fn verify_author(&mut self) -> (r: Result<(), ErrorCode>)
        ensures
            r is Ok <==> old(self).author@ == old(self).paper_author.author@,
            r is Err ==> r == Err::<(), ErrorCode>(ErrorCode::Unauthorized) && *final(self)
                == *old(self),
            r is Ok ==> final(self).paper_author == (PaperAuthor {
                verify: true,
                ..old(self).paper_author
            }),
            final(self).author == old(self).author,
    {
        if !self.author.same(&self.paper_author.author) {
            return Err(ErrorCode::Unauthorized);
        }
        if !self.paper_author.verify {
            self.paper_author.verify = true;
        }
        Ok(())
    }
}

} // verus!
