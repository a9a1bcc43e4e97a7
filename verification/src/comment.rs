//! Free-text comment attached to a magazine slot.

use vstd::prelude::*;

verus! {

/// A slot comment. The text is unconstrained free text; filter and sort
/// projections carry it through verbatim.
#[derive(Debug, PartialEq)]
pub struct Comment {
    pub comment: String,
}

impl Comment {
    /// The placeholder text a fresh slot carries.
    pub open spec fn default_text() -> Seq<char> {
        "__"@
    }

    /// A fresh comment holding the placeholder text.
    pub fn default() -> (c: Comment)
        ensures
            c.comment@ == Comment::default_text(),
    {
        Comment { comment: "__".to_owned() }
    }
}

impl Clone for Comment {
    fn clone(&self) -> (c: Self)
        ensures
            c == *self,
    {
        Comment { comment: self.comment.clone() }
    }
}

} // verus!
