use vstd::prelude::*;

use super::NewsArticle;

verus! {

/// A type with a default summary that only invites to read on.
pub trait Summary2 {
    fn summarize(&self) -> (r: String)
        ensures
            r@ == "(Read more...)"@,
    {
        "(Read more...)".to_owned()
    }
}

impl Summary2 for NewsArticle {
}

} // verus!
