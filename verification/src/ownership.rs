//! Ownership: a function that makes a string hands the string itself over.

use vstd::prelude::*;

verus! {

/// The string `"hello"`, returned by value: a reference to it would outlive it.
pub fn dangle() -> (r: String)
    ensures
        r@ == "hello"@,
{
    let s = "hello".to_owned();
    s
}

} // verus!
