//! A binary structure for easy bit manipulation.
//!
//! The inner type T is the container for the bits.

use crate::riscv_utils::RegisterEntry;
use vstd::prelude::*;
use vstd::std_specs::convert::FromSpecImpl;

verus! {

/// The bit operations of an unsigned integer that holds the bits of a [BinaryStruct].
pub trait BinaryOperations: Copy + Sized {
    /// Number of bits of the type.
    spec fn spec_bit_size() -> nat;

    /// Whether the bit is one.
    spec fn spec_is_set(self, bit: nat) -> bool;

    /// The value with the bit set to one, or to zero.
    spec fn spec_at(self, bit: nat, set: bool) -> Self;

    /// Writing one bit sets that bit and keeps the others.
    proof fn lemma_at(self, bit: nat, set: bool, other: nat)
        requires
            bit < Self::spec_bit_size(),
            other < Self::spec_bit_size(),
        ensures
            self.spec_at(bit, set).spec_is_set(other) == (if other == bit {
                set
            } else {
                self.spec_is_set(other)
            }),
    ;

    /// Number of bits of the type.
    fn bit_size() -> (size: usize)
        ensures
            size == Self::spec_bit_size(),
    ;

    /// The value with no bit set.
    fn zero() -> (zero: Self)
        ensures
            forall|bit: nat| bit < Self::spec_bit_size() ==> !#[trigger] zero.spec_is_set(bit),
    ;

    /// Whether the bit is one.
    fn test_bit(self, bit: usize) -> (set: bool)
        requires
            bit < Self::spec_bit_size(),
        ensures
            set == self.spec_is_set(bit as nat),
    ;

    /// The value with the bit set to one, or to zero.
    fn with_bit(self, bit: usize, set: bool) -> (res: Self)
        requires
            bit < Self::spec_bit_size(),
        ensures
            res == self.spec_at(bit as nat, set),
    ;
}

impl BinaryOperations for u8 {
    open spec fn spec_bit_size() -> nat {
        8
    }

    open spec fn spec_is_set(self, bit: nat) -> bool {
        self & (1u8 << (bit as u8)) != 0
    }

    open spec fn spec_at(self, bit: nat, set: bool) -> u8 {
        if set {
            self | (1u8 << (bit as u8))
        } else {
            self & !(1u8 << (bit as u8))
        }
    }

    proof fn lemma_at(self, bit: nat, set: bool, other: nat) {
        let b = bit as u8;
        let o = other as u8;
        let x = self;
        assert(b < 8 && o < 8 ==> ((x | (1u8 << b)) & (1u8 << o) != 0) == (if o == b {
            true
        } else {
            x & (1u8 << o) != 0
        })) by (bit_vector);
        assert(b < 8 && o < 8 ==> ((x & !(1u8 << b)) & (1u8 << o) != 0) == (if o == b {
            false
        } else {
            x & (1u8 << o) != 0
        })) by (bit_vector);
    }

    fn bit_size() -> (size: usize) {
        8
    }

    fn zero() -> (zero: u8) {
        assert forall|bit: nat| bit < 8 implies !#[trigger] 0u8.spec_is_set(bit) by {
            let b = bit as u8;
            assert(b < 8 ==> 0u8 & (1u8 << b) == 0) by (bit_vector);
        }
        0
    }

    fn test_bit(self, bit: usize) -> (set: bool) {
        self & (1u8 << (bit as u8)) != 0
    }

    fn with_bit(self, bit: usize, set: bool) -> (res: u8) {
        if set {
            self | (1u8 << (bit as u8))
        } else {
            self & !(1u8 << (bit as u8))
        }
    }
}

impl BinaryOperations for u32 {
    open spec fn spec_bit_size() -> nat {
        32
    }

    open spec fn spec_is_set(self, bit: nat) -> bool {
        self & (1u32 << (bit as u32)) != 0
    }

    open spec fn spec_at(self, bit: nat, set: bool) -> u32 {
        if set {
            self | (1u32 << (bit as u32))
        } else {
            self & !(1u32 << (bit as u32))
        }
    }

    proof fn lemma_at(self, bit: nat, set: bool, other: nat) {
        let b = bit as u32;
        let o = other as u32;
        let x = self;
        assert(b < 32 && o < 32 ==> ((x | (1u32 << b)) & (1u32 << o) != 0) == (if o == b {
            true
        } else {
            x & (1u32 << o) != 0
        })) by (bit_vector);
        assert(b < 32 && o < 32 ==> ((x & !(1u32 << b)) & (1u32 << o) != 0) == (if o == b {
            false
        } else {
            x & (1u32 << o) != 0
        })) by (bit_vector);
    }

    fn bit_size() -> (size: usize) {
        32
    }

    fn zero() -> (zero: u32) {
        assert forall|bit: nat| bit < 32 implies !#[trigger] 0u32.spec_is_set(bit) by {
            let b = bit as u32;
            assert(b < 32 ==> 0u32 & (1u32 << b) == 0) by (bit_vector);
        }
        0
    }

    fn test_bit(self, bit: usize) -> (set: bool) {
        self & (1u32 << (bit as u32)) != 0
    }

    fn with_bit(self, bit: usize, set: bool) -> (res: u32) {
        if set {
            self | (1u32 << (bit as u32))
        } else {
            self & !(1u32 << (bit as u32))
        }
    }
}

impl BinaryOperations for u64 {
    open spec fn spec_bit_size() -> nat {
        64
    }

    open spec fn spec_is_set(self, bit: nat) -> bool {
        self & (1u64 << (bit as u64)) != 0
    }

    open spec fn spec_at(self, bit: nat, set: bool) -> u64 {
        if set {
            self | (1u64 << (bit as u64))
        } else {
            self & !(1u64 << (bit as u64))
        }
    }

    proof fn lemma_at(self, bit: nat, set: bool, other: nat) {
        let b = bit as u64;
        let o = other as u64;
        let x = self;
        assert(b < 64 && o < 64 ==> ((x | (1u64 << b)) & (1u64 << o) != 0) == (if o == b {
            true
        } else {
            x & (1u64 << o) != 0
        })) by (bit_vector);
        assert(b < 64 && o < 64 ==> ((x & !(1u64 << b)) & (1u64 << o) != 0) == (if o == b {
            false
        } else {
            x & (1u64 << o) != 0
        })) by (bit_vector);
    }

    fn bit_size() -> (size: usize) {
        64
    }

    fn zero() -> (zero: u64) {
        assert forall|bit: nat| bit < 64 implies !#[trigger] 0u64.spec_is_set(bit) by {
            let b = bit as u64;
            assert(b < 64 ==> 0u64 & (1u64 << b) == 0) by (bit_vector);
        }
        0
    }

    fn test_bit(self, bit: usize) -> (set: bool) {
        self & (1u64 << (bit as u64)) != 0
    }

    fn with_bit(self, bit: usize, set: bool) -> (res: u64) {
        if set {
            self | (1u64 << (bit as u64))
        } else {
            self & !(1u64 << (bit as u64))
        }
    }
}

impl BinaryOperations for usize {
    open spec fn spec_bit_size() -> nat {
        usize::BITS as nat
    }

    open spec fn spec_is_set(self, bit: nat) -> bool {
        self & (1usize << (bit as usize)) != 0
    }

    open spec fn spec_at(self, bit: nat, set: bool) -> usize {
        if set {
            self | (1usize << (bit as usize))
        } else {
            self & !(1usize << (bit as usize))
        }
    }

    proof fn lemma_at(self, bit: nat, set: bool, other: nat) {
        let b = bit as usize;
        let o = other as usize;
        let x = self;
        assert(b < usize::BITS && o < usize::BITS ==> ((x | (1usize << b)) & (1usize << o) != 0) == (if o == b {
            true
        } else {
            x & (1usize << o) != 0
        })) by (bit_vector);
        assert(b < usize::BITS && o < usize::BITS ==> ((x & !(1usize << b)) & (1usize << o) != 0) == (if o == b {
            false
        } else {
            x & (1usize << o) != 0
        })) by (bit_vector);
    }

    fn bit_size() -> (size: usize) {
        usize::BITS as usize
    }

    fn zero() -> (zero: usize) {
        assert forall|bit: nat| bit < usize::BITS implies !#[trigger] 0usize.spec_is_set(bit) by {
            let b = bit as usize;
            assert(b < usize::BITS ==> 0usize & (1usize << b) == 0) by (bit_vector);
        }
        0
    }

    fn test_bit(self, bit: usize) -> (set: bool) {
        self & (1usize << (bit as usize)) != 0
    }

    fn with_bit(self, bit: usize, set: bool) -> (res: usize) {
        if set {
            self | (1usize << (bit as usize))
        } else {
            self & !(1usize << (bit as usize))
        }
    }
}

/// A byte of single bits.
pub type Byte = BinaryStruct<u8>;

/// An unsigned integer as a row of bits, the lowest one first.
#[derive(Clone, Copy)]
pub struct BinaryStruct<T>(pub T);

impl<T> View for BinaryStruct<T> {
    type V = T;

    /// The bits, as the integer that holds them.
    open spec fn view(&self) -> T {
        self.0
    }
}

impl<T: BinaryOperations> BinaryStruct<T> {
    /// Whether the bit is one.
    pub open spec fn bit(self, bit: nat) -> bool {
        self@.spec_is_set(bit)
    }

    /// Whether the bit is one.
    pub fn is_set(&self, bit: usize) -> (set: bool)
        requires
            bit < T::spec_bit_size(),
        ensures
            set == self.bit(bit as nat),
    {
        self.0.test_bit(bit)
    }

    /// Sets the bit to one, or to zero, and keeps the others.
    pub fn at(&mut self, bit: usize, set: bool)
        requires
            bit < T::spec_bit_size(),
        ensures
            final(self)@ == old(self)@.spec_at(bit as nat, set),
            forall|other: nat|
                other < T::spec_bit_size() ==> #[trigger] final(self).bit(other) == (if other
                    == bit {
                    set
                } else {
                    old(self).bit(other)
                }),
    {
        proof {
            assert forall|other: nat| other < T::spec_bit_size() implies #[trigger] self.0.spec_at(
                bit as nat,
                set,
            ).spec_is_set(other) == (if other == bit {
                set
            } else {
                self.0.spec_is_set(other)
            }) by {
                self.0.lemma_at(bit as nat, set, other);
            }
        }
        self.0 = self.0.with_bit(bit, set);
    }

    /// Writes the bit that the entry names with the value that it gives.
    pub fn write_register_entry(&mut self, register_entry: RegisterEntry)
        requires
            register_entry.0 < T::spec_bit_size(),
        ensures
            final(self)@ == old(self)@.spec_at(register_entry.0 as nat, register_entry.1),
            forall|other: nat|
                other < T::spec_bit_size() ==> #[trigger] final(self).bit(other) == (if other
                    == register_entry.0 {
                    register_entry.1
                } else {
                    old(self).bit(other)
                }),
    {
        let (bit, set) = register_entry;
        self.at(bit, set)
    }

    /// Replaces all bits.
    pub fn write(&mut self, data: T)
        ensures
            final(self)@ == data,
    {
        self.0 = data;
    }

    /// The integer that holds the bits.
    pub fn get(&self) -> (data: T)
        ensures
            data == self@,
    {
        self.0
    }

    /// The integer that holds the bits.
    pub fn into_inner(self) -> (data: T)
        ensures
            data == self@,
    {
        self.0
    }

    /// Checks if the specified bit fits into the bit-size of T.
    pub fn assert_valid(bit: usize) -> (valid: bool)
        ensures
            valid == (bit < T::spec_bit_size()),
    {
        bit < T::bit_size()
    }
}

impl<T> From<T> for BinaryStruct<T> {
    fn from(data: T) -> (res: BinaryStruct<T>) {
        BinaryStruct(data)
    }
}

impl<T> FromSpecImpl<T> for BinaryStruct<T> {
    open spec fn obeys_from_spec() -> bool {
        true
    }

    open spec fn from_spec(data: T) -> BinaryStruct<T> {
        BinaryStruct(data)
    }
}

/// A type of numbers of at most `DIGITS` decimal digits.
pub trait MaxDigits<const DIGITS: usize> {
    /// A place for every digit of the largest number, each zero.
    fn max_digits() -> (digits: [u8; DIGITS])
        ensures
            forall|i: int| 0 <= i < DIGITS ==> digits[i] == 0,
    ;
}

impl MaxDigits<20> for usize {
    fn max_digits() -> (digits: [u8; 20]) {
        [0;20]
    }
}

} // verus!
