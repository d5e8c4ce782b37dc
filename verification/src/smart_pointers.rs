//! Smart pointers: a box of one's own that dereferences to its content.

use vstd::prelude::*;
use core::ops::Deref;

verus! {

/// A box that holds its value in place and behaves like a reference to it.
pub struct MyBox<T>(pub T);

impl<T> MyBox<T> {
    /// A box holding `x`.
    pub fn new(x: T) -> (r: MyBox<T>)
        ensures
            r.0 == x,
    {
        MyBox(x)
    }
}

impl<T> Deref for MyBox<T> {
    type Target = T;

    fn deref(&self) -> (r: &T)
        ensures
            *r == self.0,
    {
        &self.0
    }
}

} // verus!
