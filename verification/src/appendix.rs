//! Keywords as names: a substring test whose natural name, `match`, is a keyword.

use vstd::prelude::*;

use crate::text::{chars_of, has_substring, occurs_in};

verus! {

/// Whether `needle` occurs in `haystack`.
pub fn match_in(needle: &str, haystack: &str) -> (r: bool)
    ensures
        r == has_substring(haystack@, needle@),
{
    let text = chars_of(haystack);
    let pat = chars_of(needle);
    assert(text@.subrange(0, text@.len() as int) =~= text@);
    occurs_in(&text, 0, text.len(), &pat)
}

} // verus!
