//! Supplementary features.

use vstd::prelude::*;

verus! {

/// Primary colors in the RYB model.
#[derive(Debug, Clone, Copy, PartialEq, Eq, Structural)]
pub enum PrimaryColor {
    Red,
    Yellow,
    Blue,
}

} // verus!
