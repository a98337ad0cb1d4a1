//! Matching of numbers to the variants of an enum.

use vstd::prelude::*;

verus! {

/// No variant has the number.
#[derive(Debug, PartialEq, Eq, Structural, Clone, Copy)]
pub struct Error {
    pub num: isize,
}

} // verus!
