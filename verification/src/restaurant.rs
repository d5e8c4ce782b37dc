//! The restaurant: its front of house is public, the back office is private.

mod back_office;

use vstd::prelude::*;
use std::collections::HashMap;

/// An order, with its number.
pub use back_office::Order;

verus! {

/// What a guest does: gets on the waiting list, by each kind of path to the function.
pub fn eat_at_restaurant() {
    crate::restaurant::back_office::hosting::add_to_waitlist();
    back_office::hosting::add_to_waitlist();
    self::back_office::hosting::add_to_waitlist();
    let _map: HashMap<String, i32> = HashMap::new();
}

} // verus!
