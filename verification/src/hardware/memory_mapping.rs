//! A memory mapping to read any type T from a specified memory location.

use core::marker::PhantomData;
use vstd::prelude::*;

verus! {

/// The place of a value of type T in memory. The library computes such places; reading and
/// writing them is left to its user.
pub struct MemoryMapping<T> {
    val: usize,
    of: PhantomData<T>,
}

impl<T> View for MemoryMapping<T> {
    type V = usize;

    /// The address of the value.
    closed spec fn view(&self) -> usize {
        self.val
    }
}

impl<T> MemoryMapping<T> {
    /// The place at the address.
    pub fn new(address: usize) -> (mapping: MemoryMapping<T>)
        ensures
            mapping@ == address,
    {
        MemoryMapping { val: address, of: PhantomData }
    }

    /// The address of the value.
    pub fn address(&self) -> (address: usize)
        ensures
            address == self@,
    {
        self.val
    }
}

} // verus!
