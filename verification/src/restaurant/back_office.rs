//! The back office: its items are private unless marked public.

pub mod hosting;
mod serving;

use vstd::prelude::*;

verus! {

fn play_music() {
}

/// An order of the restaurant, with its number.
pub struct Order {
    pub id: u32,
}

} // verus!
