use vstd::prelude::*;

verus! {

/// Puts a guest on the waiting list.
pub fn add_to_waitlist() {
}

fn seat_at_table() {
    super::play_music()
}

} // verus!
