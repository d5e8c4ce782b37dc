//! Small arithmetic library functions and the colors of the RYB model.

pub mod artistic;

use vstd::prelude::*;

/// Primary colors in the RYB model.
pub use artistic::PrimaryColor;

verus! {

/// The sum of two numbers.
pub fn add(left: usize, right: usize) -> (r: usize)
    requires
        left + right <= usize::MAX,
    ensures
        r == left + right,
{
    left + right
}

/// Adds one to the number given: `add_one(5)` is `6`. Never panics: `i32::MAX` wraps
/// around to `i32::MIN`.
pub fn add_one(x: i32) -> (r: i32)
    ensures
        r == if x == i32::MAX {
            i32::MIN as int
        } else {
            x + 1
        },
{
    x.wrapping_add(1)
}

} // verus!
