//! Functions, statements and expressions.

use vstd::prelude::*;

verus! {

/// A function whose body ends in an expression: it evaluates the block `{ let x = 3; x + 1 }`
/// and returns it, whatever it is given. (The caller prints the arguments.)
pub fn another_function(value: i32, unit: char) -> (r: i32)
    ensures
        r == 4,
{
    let _x: i32 = 6;
    let _x: i32 = {
        let x: i32 = 3;
        x + 1
    };
    _x
}

} // verus!
