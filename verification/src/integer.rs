//! Integers of a chosen width.
//!
//! [`UInt`] and [`SInt`] hold an unsigned or a signed integer of `LEN` bits
//! in the smallest native integer that has room for it. The traits of this
//! module say what the native integers and the width-bounded ones have in
//! common: a width, and a lossy conversion from and to 64 bits.

use crate::word::{low_mask, signed_of};
use vstd::prelude::*;

pub mod alias;
pub mod sint;
pub mod storage;
pub mod uint;

pub use sint::SInt;
pub use uint::{UInt, ValueDoesNotFitErr};

verus! {

/// An integer type of a fixed width that is kept in a native word.
pub trait Integer: Copy + Sized {
    /// The number of bits that carry the value.
    const BITS: usize;

    /// The number of bits of the native word that the value is kept in.
    const STORAGE_BITS: usize;

    /// The width is at least one bit, and the word has room for it.
    proof fn lemma_bits()
        ensures
            1 <= Self::BITS <= Self::STORAGE_BITS <= 64,
    ;
}

/// Unsigned integer types: `u8`, `u16`, `u32`, `u64` and every [`UInt`].
pub trait UnsignedInt: Integer + TryFrom<u64> + Into<u64> {
    /// The value as a 64-bit number.
    spec fn spec_value(self) -> u64;

    /// The value of this type that `new` makes of a 64-bit number.
    spec fn spec_new(value: u64) -> Self;

    /// Creates a value of this type from a [`u64`]. This is lossy: the
    /// number is masked to the `BITS` low bits.
    fn new(value: u64) -> (r: Self)
        ensures
            r == Self::spec_new(value),
            r.spec_value() == value & low_mask(Self::BITS as u64),
    ;

    /// Returns the value as a [`u64`].
    fn value(self) -> (r: u64)
        ensures
            r == self.spec_value(),
            r <= low_mask(Self::BITS as u64),
    ;

    /// `new` keeps the `BITS` low bits of a number and nothing else.
    proof fn lemma_new_value(value: u64)
        ensures
            Self::spec_new(value).spec_value() == value & low_mask(Self::BITS as u64),
    ;

    /// Two values with the same number are the same value.
    proof fn lemma_value_injective(a: Self, b: Self)
        requires
            a.spec_value() == b.spec_value(),
        ensures
            a == b,
    ;
}

/// Signed integer types: `i8`, `i16`, `i32` and `i64`.
pub trait SignedInt: Integer + TryFrom<i64> + Into<i64> {
    /// The value as a 64-bit number.
    spec fn spec_value(self) -> i64;

    /// The value of this type that `new` makes of a 64-bit number.
    spec fn spec_new(value: i64) -> Self;

    /// Creates a value of this type from an [`i64`]. This is lossy: the
    /// `BITS` low bits are kept and read in two's complement.
    fn new(value: i64) -> (r: Self)
        ensures
            r == Self::spec_new(value),
            r.spec_value() == signed_of(value as u64, Self::BITS as u64),
    ;

    /// Returns the value as an [`i64`].
    fn value(self) -> (r: i64)
        ensures
            r == self.spec_value(),
            r == signed_of(r as u64, Self::BITS as u64),
    ;

    /// `new` keeps the `BITS` low bits of a number, read in two's
    /// complement, and nothing else.
    proof fn lemma_new_value(value: i64)
        ensures
            Self::spec_new(value).spec_value() == signed_of(value as u64, Self::BITS as u64),
    ;

    /// Two values with the same number are the same value.
    proof fn lemma_value_injective(a: Self, b: Self)
        requires
            a.spec_value() == b.spec_value(),
        ensures
            a == b,
    ;
}

/// The number of bits of the native integer that stores an integer of `len`
/// bits: the smallest of 8, 16, 32 and 64 that is at least `len`.
pub open spec fn storage_class(len: nat) -> nat {
    if len <= 8 {
        8
    } else if len <= 16 {
        16
    } else if len <= 32 {
        32
    } else {
        64
    }
}

/// Marks a native integer as the storage of integers of `LEN` bits: the
/// smallest native integer with more than `LEN` bits.
pub trait IsStorageForBits<const LEN: usize>: Integer {
    /// The native integer is the smallest that has room for `LEN` bits, and
    /// has at least one bit to spare.
    proof fn lemma_storage()
        ensures
            1 <= LEN < Self::BITS,
            Self::BITS == Self::STORAGE_BITS,
            Self::BITS == storage_class(LEN as nat),
    ;
}

/// What the conversions between the native integers and 64 bits do to the
/// bits of a number.
proof fn lemma_native_casts(v: u64, x: i64, a8: u8, a16: u16, a32: u32, b8: i8, b16: i16, b32: i32)
    by (bit_vector)
    ensures
        v as u8 as u64 == v & low_mask(8),
        v as u16 as u64 == v & low_mask(16),
        v as u32 as u64 == v & low_mask(32),
        v == v & low_mask(64),
        a8 as u64 <= low_mask(8),
        a16 as u64 <= low_mask(16),
        a32 as u64 <= low_mask(32),
        v <= low_mask(64),
        x as i8 as i64 == signed_of(x as u64, 8),
        x as i16 as i64 == signed_of(x as u64, 16),
        x as i32 as i64 == signed_of(x as u64, 32),
        x == signed_of(x as u64, 64),
        b8 as i64 == signed_of((b8 as i64) as u64, 8),
        b16 as i64 == signed_of((b16 as i64) as u64, 16),
        b32 as i64 == signed_of((b32 as i64) as u64, 32),
{
}

impl Integer for u8 {
    const BITS: usize = 8;

    const STORAGE_BITS: usize = 8;

    proof fn lemma_bits()
        ensures
            Self::BITS == 8,
            Self::STORAGE_BITS == 8,
    {
    }
}

impl UnsignedInt for u8 {
    open spec fn spec_value(self) -> u64 {
        self as u64
    }

    open spec fn spec_new(value: u64) -> Self {
        value as u8
    }

    fn new(value: u64) -> (r: Self) {
        proof {
            lemma_native_casts(value, 0, 0, 0, 0, 0, 0, 0);
        }
        value as u8
    }

    fn value(self) -> (r: u64) {
        proof {
            lemma_native_casts(0, 0, self, 0, 0, 0, 0, 0);
        }
        self as u64
    }

    proof fn lemma_new_value(value: u64) {
        lemma_native_casts(value, 0, 0, 0, 0, 0, 0, 0);
    }

    proof fn lemma_value_injective(a: Self, b: Self) {
    }
}

impl Integer for u16 {
    const BITS: usize = 16;

    const STORAGE_BITS: usize = 16;

    proof fn lemma_bits()
        ensures
            Self::BITS == 16,
            Self::STORAGE_BITS == 16,
    {
    }
}

impl UnsignedInt for u16 {
    open spec fn spec_value(self) -> u64 {
        self as u64
    }

    open spec fn spec_new(value: u64) -> Self {
        value as u16
    }

    fn new(value: u64) -> (r: Self) {
        proof {
            lemma_native_casts(value, 0, 0, 0, 0, 0, 0, 0);
        }
        value as u16
    }

    fn value(self) -> (r: u64) {
        proof {
            lemma_native_casts(0, 0, 0, self, 0, 0, 0, 0);
        }
        self as u64
    }

    proof fn lemma_new_value(value: u64) {
        lemma_native_casts(value, 0, 0, 0, 0, 0, 0, 0);
    }

    proof fn lemma_value_injective(a: Self, b: Self) {
    }
}

impl Integer for u32 {
    const BITS: usize = 32;

    const STORAGE_BITS: usize = 32;

    proof fn lemma_bits()
        ensures
            Self::BITS == 32,
            Self::STORAGE_BITS == 32,
    {
    }
}

impl UnsignedInt for u32 {
    open spec fn spec_value(self) -> u64 {
        self as u64
    }

    open spec fn spec_new(value: u64) -> Self {
        value as u32
    }

    fn new(value: u64) -> (r: Self) {
        proof {
            lemma_native_casts(value, 0, 0, 0, 0, 0, 0, 0);
        }
        value as u32
    }

    fn value(self) -> (r: u64) {
        proof {
            lemma_native_casts(0, 0, 0, 0, self, 0, 0, 0);
        }
        self as u64
    }

    proof fn lemma_new_value(value: u64) {
        lemma_native_casts(value, 0, 0, 0, 0, 0, 0, 0);
    }

    proof fn lemma_value_injective(a: Self, b: Self) {
    }
}

impl Integer for u64 {
    const BITS: usize = 64;

    const STORAGE_BITS: usize = 64;

    proof fn lemma_bits()
        ensures
            Self::BITS == 64,
            Self::STORAGE_BITS == 64,
    {
    }
}

impl UnsignedInt for u64 {
    open spec fn spec_value(self) -> u64 {
        self
    }

    open spec fn spec_new(value: u64) -> Self {
        value
    }

    fn new(value: u64) -> (r: Self) {
        proof {
            lemma_native_casts(value, 0, 0, 0, 0, 0, 0, 0);
        }
        value
    }

    fn value(self) -> (r: u64) {
        proof {
            lemma_native_casts(self, 0, 0, 0, 0, 0, 0, 0);
        }
        self
    }

    proof fn lemma_new_value(value: u64) {
        lemma_native_casts(value, 0, 0, 0, 0, 0, 0, 0);
    }

    proof fn lemma_value_injective(a: Self, b: Self) {
    }
}

impl Integer for i8 {
    const BITS: usize = 8;

    const STORAGE_BITS: usize = 8;

    proof fn lemma_bits()
        ensures
            Self::BITS == 8,
            Self::STORAGE_BITS == 8,
    {
    }
}

impl SignedInt for i8 {
    open spec fn spec_value(self) -> i64 {
        self as i64
    }

    open spec fn spec_new(value: i64) -> Self {
        value as i8
    }

    fn new(value: i64) -> (r: Self) {
        proof {
            lemma_native_casts(0, value, 0, 0, 0, 0, 0, 0);
        }
        value as i8
    }

    fn value(self) -> (r: i64) {
        proof {
            lemma_native_casts(0, 0, 0, 0, 0, self, 0, 0);
        }
        self as i64
    }

    proof fn lemma_new_value(value: i64) {
        lemma_native_casts(0, value, 0, 0, 0, 0, 0, 0);
    }

    proof fn lemma_value_injective(a: Self, b: Self) {
    }
}

impl Integer for i16 {
    const BITS: usize = 16;

    const STORAGE_BITS: usize = 16;

    proof fn lemma_bits()
        ensures
            Self::BITS == 16,
            Self::STORAGE_BITS == 16,
    {
    }
}

impl SignedInt for i16 {
    open spec fn spec_value(self) -> i64 {
        self as i64
    }

    open spec fn spec_new(value: i64) -> Self {
        value as i16
    }

    fn new(value: i64) -> (r: Self) {
        proof {
            lemma_native_casts(0, value, 0, 0, 0, 0, 0, 0);
        }
        value as i16
    }

    fn value(self) -> (r: i64) {
        proof {
            lemma_native_casts(0, 0, 0, 0, 0, 0, self, 0);
        }
        self as i64
    }

    proof fn lemma_new_value(value: i64) {
        lemma_native_casts(0, value, 0, 0, 0, 0, 0, 0);
    }

    proof fn lemma_value_injective(a: Self, b: Self) {
    }
}

impl Integer for i32 {
    const BITS: usize = 32;

    const STORAGE_BITS: usize = 32;

    proof fn lemma_bits()
        ensures
            Self::BITS == 32,
            Self::STORAGE_BITS == 32,
    {
    }
}

impl SignedInt for i32 {
    open spec fn spec_value(self) -> i64 {
        self as i64
    }

    open spec fn spec_new(value: i64) -> Self {
        value as i32
    }

    fn new(value: i64) -> (r: Self) {
        proof {
            lemma_native_casts(0, value, 0, 0, 0, 0, 0, 0);
        }
        value as i32
    }

    fn value(self) -> (r: i64) {
        proof {
            lemma_native_casts(0, 0, 0, 0, 0, 0, 0, self);
        }
        self as i64
    }

    proof fn lemma_new_value(value: i64) {
        lemma_native_casts(0, value, 0, 0, 0, 0, 0, 0);
    }

    proof fn lemma_value_injective(a: Self, b: Self) {
    }
}

impl Integer for i64 {
    const BITS: usize = 64;

    const STORAGE_BITS: usize = 64;

    proof fn lemma_bits()
        ensures
            Self::BITS == 64,
            Self::STORAGE_BITS == 64,
    {
    }
}

impl SignedInt for i64 {
    open spec fn spec_value(self) -> i64 {
        self
    }

    open spec fn spec_new(value: i64) -> Self {
        value
    }

    fn new(value: i64) -> (r: Self) {
        proof {
            lemma_native_casts(0, value, 0, 0, 0, 0, 0, 0);
        }
        value
    }

    fn value(self) -> (r: i64) {
        proof {
            lemma_native_casts(0, self, 0, 0, 0, 0, 0, 0);
        }
        self
    }

    proof fn lemma_new_value(value: i64) {
        lemma_native_casts(0, value, 0, 0, 0, 0, 0, 0);
    }

    proof fn lemma_value_injective(a: Self, b: Self) {
    }
}

} // verus!
