//! Unsigned integers of `LEN` bits.

use crate::integer::{Integer, IsStorageForBits, UnsignedInt};
use crate::word::{lemma_low_mask, low_mask, unsigned_mask};
use vstd::prelude::*;
use vstd::std_specs::convert::{FromSpecImpl, TryFromSpecImpl};

verus! {

/// An unsigned integer with `LEN` bits, kept in the native integer `T`.
///
/// The bits of `T` above the `LEN` low ones are always zero.
#[derive(Copy, Debug, PartialEq, Eq, PartialOrd, Ord, Hash)]
pub struct UInt<T: UnsignedInt + IsStorageForBits<LEN>, const LEN: usize>(T);

/// The error of a conversion into a [`UInt`] that has no room for the value.
#[derive(Clone, Copy, Debug, PartialEq, Eq)]
pub struct ValueDoesNotFitErr;

impl<T: UnsignedInt + IsStorageForBits<LEN>, const LEN: usize> UInt<T, LEN> {
    /// Whether the stored word has no bits above the `LEN` low ones. Every
    /// value that exists at run time has this property.
    #[verifier::type_invariant]
    pub closed spec fn wf(self) -> bool {
        self.0.spec_value() <= low_mask(LEN as u64)
    }

    /// `spec_new` looks at the `LEN` low bits of the number alone.
    pub proof fn lemma_new_low_bits(a: u64, b: u64)
        requires
            a & low_mask(LEN as u64) == b & low_mask(LEN as u64),
        ensures
            Self::spec_new(a) == Self::spec_new(b),
    {
    }

    /// A value is the one that `spec_new` makes of its own number.
    pub proof fn lemma_new_of_value(x: Self)
        requires
            x.wf(),
        ensures
            Self::spec_new(x.spec_value()) == x,
    {
        Self::lemma_new_value(x.spec_value());
        lemma_low_mask(x.spec_value(), LEN as u64, LEN as u64);
        Self::lemma_value_injective(Self::spec_new(x.spec_value()), x);
    }

    /// Creates a value from a native integer. This is lossy: the integer is
    /// masked to its `LEN` low bits.
    pub fn new(value: T) -> (r: Self)
        ensures
            r.wf(),
            r.spec_value() == value.spec_value() & low_mask(LEN as u64),
            r == Self::spec_new(value.spec_value()),
    {
        let word = value.value() & unsigned_mask(LEN);
        proof {
            T::lemma_storage();
            T::lemma_bits();
            lemma_low_mask(value.spec_value(), LEN as u64, T::BITS as u64);
        }
        UInt(T::new(word))
    }

    /// What `try_new` returns: the value that holds `value` where `value`
    /// is at most `2^LEN - 1`, and the error for any larger number.
    pub open spec fn spec_try_new(value: u64) -> Result<Self, ValueDoesNotFitErr> {
        if value <= low_mask(LEN as u64) {
            Ok(Self::spec_new(value))
        } else {
            Err(ValueDoesNotFitErr)
        }
    }

    /// Creates a value from a 64-bit number that fits in `LEN` bits, and
    /// fails for a number that does not.
    pub fn try_new(value: u64) -> (r: Result<Self, ValueDoesNotFitErr>)
        ensures
            r == Self::spec_try_new(value),
            r.is_ok() <==> value <= low_mask(LEN as u64),
            r.is_ok() ==> r.unwrap().wf() && r.unwrap().spec_value() == value,
    {
        if value <= unsigned_mask(LEN) {
            proof {
                T::lemma_storage();
                T::lemma_bits();
                lemma_low_mask(value, LEN as u64, T::BITS as u64);
            }
            Ok(UInt(T::new(value)))
        } else {
            Err(ValueDoesNotFitErr)
        }
    }

    /// Returns the value as a native integer, which is at most `2^LEN - 1`.
    pub fn value(self) -> (r: T)
        ensures
            r.spec_value() == self.spec_value(),
            r.spec_value() <= low_mask(LEN as u64),
    {
        proof {
            use_type_invariant(&self);
        }
        self.0
    }
}

impl<T: UnsignedInt + IsStorageForBits<LEN>, const LEN: usize> Clone for UInt<T, LEN> {
    fn clone(&self) -> (r: Self)
        ensures
            r == *self,
    {
        *self
    }
}

impl<T: UnsignedInt + IsStorageForBits<LEN>, const LEN: usize> Default for UInt<T, LEN> {
    /// The value zero.
    fn default() -> (r: Self)
        ensures
            r.wf(),
            r.spec_value() == 0,
    {
        proof {
            T::lemma_bits();
            lemma_low_mask(0, T::BITS as u64, T::BITS as u64);
            lemma_low_mask(0, LEN as u64, LEN as u64);
        }
        UInt(T::new(0))
    }
}

impl<T: UnsignedInt + IsStorageForBits<LEN>, const LEN: usize> Integer for UInt<T, LEN> {
    const BITS: usize = LEN;

    const STORAGE_BITS: usize = T::STORAGE_BITS;

    proof fn lemma_bits()
        ensures
            Self::BITS == LEN,
            Self::STORAGE_BITS == T::STORAGE_BITS,
    {
        T::lemma_storage();
        T::lemma_bits();
    }
}

impl<T: UnsignedInt + IsStorageForBits<LEN>, const LEN: usize> TryFromSpecImpl<u64> for UInt<T, LEN> {
    open spec fn obeys_try_from_spec() -> bool {
        true
    }

    open spec fn try_from_spec(value: u64) -> Result<Self, Self::Error> {
        Self::spec_try_new(value)
    }
}

impl<T: UnsignedInt + IsStorageForBits<LEN>, const LEN: usize> TryFrom<u64> for UInt<T, LEN> {
    type Error = ValueDoesNotFitErr;

    /// The same as [`UInt::try_new`].
    fn try_from(value: u64) -> (r: Result<Self, Self::Error>) {
        Self::try_new(value)
    }
}

impl<T: UnsignedInt + IsStorageForBits<LEN>, const LEN: usize> FromSpecImpl<UInt<T, LEN>> for u64 {
    open spec fn obeys_from_spec() -> bool {
        true
    }

    open spec fn from_spec(value: UInt<T, LEN>) -> u64 {
        value.spec_value()
    }
}

impl<T: UnsignedInt + IsStorageForBits<LEN>, const LEN: usize> From<UInt<T, LEN>> for u64 {
    /// The value as a 64-bit number.
    fn from(value: UInt<T, LEN>) -> (r: u64) {
        value.value().value()
    }
}

impl<T: UnsignedInt + IsStorageForBits<LEN>, const LEN: usize> UnsignedInt for UInt<T, LEN> {
    closed spec fn spec_value(self) -> u64 {
        self.0.spec_value()
    }

    closed spec fn spec_new(value: u64) -> Self {
        UInt(T::spec_new(value & low_mask(LEN as u64)))
    }

    fn new(value: u64) -> (r: Self) {
        let word = value & unsigned_mask(LEN);
        proof {
            T::lemma_storage();
            T::lemma_bits();
            lemma_low_mask(value, LEN as u64, T::BITS as u64);
        }
        UInt(T::new(word))
    }

    fn value(self) -> (r: u64) {
        proof {
            use_type_invariant(&self);
        }
        self.0.value()
    }

    proof fn lemma_new_value(value: u64) {
        T::lemma_storage();
        T::lemma_bits();
        T::lemma_new_value(value & low_mask(LEN as u64));
        lemma_low_mask(value, LEN as u64, T::BITS as u64);
    }

    proof fn lemma_value_injective(a: Self, b: Self) {
        T::lemma_value_injective(a.0, b.0);
    }
}

} // verus!
