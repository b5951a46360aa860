//! Signed integers of `LEN` bits.

use crate::integer::{Integer, IsStorageForBits, SignedInt};
use crate::word::{
    bit_of, bits_of, lemma_empty_range, lemma_signed_cast, lemma_signed_of,
    lemma_signed_with_bits_of_same, low_mask, sign_extend, sign_extend_of, signed_of, with_bit_of,
    with_bits_of, word_bit, word_bits, word_try_bit, word_try_bits, word_try_with_bit,
    word_try_with_bits, word_with_bit, word_with_bits,
};
use vstd::prelude::*;

verus! {

/// A signed integer with `LEN` bits, kept in the native integer `T` in
/// two's complement.
///
/// The bits of `T` above bit `LEN - 1` are always copies of that bit, so
/// that `T` holds the value itself.
#[derive(Copy, Debug, PartialEq, Eq, PartialOrd, Ord, Hash)]
pub struct SInt<T: SignedInt + IsStorageForBits<LEN>, const LEN: usize>(T);

impl<T: SignedInt + IsStorageForBits<LEN>, const LEN: usize> SInt<T, LEN> {
    /// Whether the stored word is the two's complement form of a number of
    /// `LEN` bits. Every value that exists at run time has this property.
    #[verifier::type_invariant]
    pub closed spec fn wf(self) -> bool {
        self.0.spec_value() == signed_of(self.0.spec_value() as u64, LEN as u64)
    }

    /// The value as a 64-bit number.
    pub closed spec fn spec_value(self) -> i64 {
        self.0.spec_value()
    }

    /// The bits of the value, written out in two's complement over 64 bits.
    pub open spec fn spec_word(self) -> u64 {
        self.spec_value() as u64
    }

    /// The value whose `LEN` low bits are those of `word`.
    pub closed spec fn spec_from_word(word: u64) -> Self {
        SInt(T::spec_new(signed_of(word, LEN as u64)))
    }

    /// The value of `spec_from_word` is the low `LEN` bits of the word,
    /// read in two's complement.
    pub proof fn lemma_from_word(word: u64)
        ensures
            Self::spec_from_word(word).wf(),
            Self::spec_from_word(word).spec_value() == signed_of(word, LEN as u64),
    {
        T::lemma_storage();
        T::lemma_bits();
        T::lemma_new_value(signed_of(word, LEN as u64));
        lemma_signed_of(word, LEN as u64, T::BITS as u64);
    }

    /// `spec_from_word` looks at the `LEN` low bits of the word alone.
    pub proof fn lemma_from_word_low_bits(a: u64, b: u64)
        requires
            a & low_mask(LEN as u64) == b & low_mask(LEN as u64),
        ensures
            Self::spec_from_word(a) == Self::spec_from_word(b),
    {
        lemma_signed_of(a, LEN as u64, LEN as u64);
        lemma_signed_of(b, LEN as u64, LEN as u64);
    }

    /// A value is the one that `spec_from_word` makes of its own bits.
    pub proof fn lemma_from_word_of_word(x: Self)
        requires
            x.wf(),
        ensures
            Self::spec_from_word(x.spec_word()) == x,
    {
        Self::lemma_from_word(x.spec_word());
        Self::lemma_value_injective(Self::spec_from_word(x.spec_word()), x);
    }

    /// Writing back the bits that were read from a range gives the value
    /// that they were read from: `x.with_bits(s, e, x.bits(s, e)) == x`.
    pub proof fn lemma_with_bits_of_own_bits(x: Self, start: u8, end: u8)
        requires
            x.wf(),
            start <= end <= Self::STORAGE_BITS,
        ensures
            Self::spec_from_word(
                with_bits_of(
                    x.spec_word(),
                    start as u64,
                    end as u64,
                    Self::spec_from_word(
                        bits_of(x.spec_word(), start as u64, end as u64),
                    ).spec_word(),
                ),
            ) == x,
    {
        let (s, e, n) = (start as u64, end as u64, LEN as u64);
        let word = x.spec_word();
        let read = bits_of(word, s, e);
        T::lemma_storage();
        T::lemma_bits();
        Self::lemma_from_word(read);
        lemma_signed_cast(sign_extend_of(read, n), x.spec_value());
        lemma_signed_cast(sign_extend_of(word, n), 0);
        let written = with_bits_of(word, s, e, sign_extend_of(read, n));
        lemma_signed_with_bits_of_same(word, n, s, e);
        Self::lemma_from_word(written);
        Self::lemma_value_injective(Self::spec_from_word(written), x);
    }

    /// Two values with the same number are the same value.
    pub proof fn lemma_value_injective(a: Self, b: Self)
        requires
            a.spec_value() == b.spec_value(),
        ensures
            a == b,
    {
        T::lemma_value_injective(a.0, b.0);
    }

    fn word(self) -> (word: u64)
        ensures
            word == self.spec_word(),
            self.wf(),
    {
        proof {
            use_type_invariant(&self);
        }
        #[verifier::truncate] (self.0.value() as u64)
    }

    fn from_word(word: u64) -> (r: Self)
        ensures
            r == Self::spec_from_word(word),
            r.wf(),
            r.spec_value() == signed_of(word, LEN as u64),
    {
        proof {
            T::lemma_storage();
            T::lemma_bits();
            Self::lemma_from_word(word);
            lemma_signed_of(word, LEN as u64, 64);
        }
        SInt(T::new(sign_extend(#[verifier::truncate] (word as i64), LEN)))
    }

    /// Creates a value from a native integer. This is lossy: the integer is
    /// masked to its `LEN` low bits, and these are read in two's
    /// complement.
    pub fn new(value: T) -> (r: Self)
        ensures
            r.wf(),
            r.spec_value() == signed_of(value.spec_value() as u64, LEN as u64),
            r == Self::spec_from_word(value.spec_value() as u64),
    {
        Self::from_word(#[verifier::truncate] (value.value() as u64))
    }

    /// Returns the value as a native integer. It lies between
    /// `-2^(LEN-1)` and `2^(LEN-1) - 1`.
    pub fn value(self) -> (r: T)
        ensures
            r.spec_value() == self.spec_value(),
            r.spec_value() == signed_of(r.spec_value() as u64, LEN as u64),
    {
        proof {
            use_type_invariant(&self);
        }
        self.0
    }

    /// Returns whether the bit at `index` is set.
    pub fn bit(self, index: u8) -> (r: bool)
        requires
            index < Self::STORAGE_BITS,
        ensures
            r == bit_of(self.spec_word(), index as u64),
    {
        word_bit(self.word(), index)
    }

    /// Returns whether the bit at `index` is set, or `None` if `index` is
    /// not inside the word.
    pub fn try_bit(self, index: u8) -> (r: Option<bool>)
        ensures
            r == (if index < Self::STORAGE_BITS {
                Some(bit_of(self.spec_word(), index as u64))
            } else {
                None
            }),
    {
        proof {
            Self::lemma_bits();
        }
        if (index as usize) < Self::STORAGE_BITS {
            word_try_bit(self.word(), index)
        } else {
            None
        }
    }

    /// Returns the value with the bit at `index` set to `value`.
    pub fn with_bit(self, index: u8, value: bool) -> (r: Self)
        requires
            index < Self::STORAGE_BITS,
        ensures
            r == Self::spec_from_word(with_bit_of(self.spec_word(), index as u64, value)),
            r.spec_value() == signed_of(
                with_bit_of(self.spec_word(), index as u64, value),
                LEN as u64,
            ),
    {
        proof {
            Self::lemma_bits();
        }
        Self::from_word(word_with_bit(self.word(), index, value))
    }

    /// Returns the value with the bit at `index` set to `value`, or `None`
    /// if `index` is not inside the word.
    pub fn try_with_bit(self, index: u8, value: bool) -> (r: Option<Self>)
        ensures
            r == (if index < Self::STORAGE_BITS {
                Some(Self::spec_from_word(with_bit_of(self.spec_word(), index as u64, value)))
            } else {
                None
            }),
    {
        proof {
            Self::lemma_bits();
        }
        if (index as usize) < Self::STORAGE_BITS {
            match word_try_with_bit(self.word(), index, value) {
                Some(word) => Some(Self::from_word(word)),
                None => None,
            }
        } else {
            None
        }
    }

    /// Returns the bits from `start` (inclusive) to `end` (exclusive), moved
    /// down to bit 0.
    pub fn bits(self, start: u8, end: u8) -> (r: Self)
        requires
            start <= end <= Self::STORAGE_BITS,
        ensures
            r == Self::spec_from_word(bits_of(self.spec_word(), start as u64, end as u64)),
            r.spec_value() == signed_of(
                bits_of(self.spec_word(), start as u64, end as u64),
                LEN as u64,
            ),
    {
        proof {
            Self::lemma_bits();
            lemma_empty_range(self.spec_word(), start as u64, 0);
        }
        Self::from_word(word_bits(self.word(), start, end))
    }

    /// Returns the bits from `start` (inclusive) to `end` (exclusive), moved
    /// down to bit 0, or `None` if the range is not inside the word.
    pub fn try_bits(self, start: u8, end: u8) -> (r: Option<Self>)
        ensures
            r == (if start <= end && end <= Self::STORAGE_BITS {
                Some(Self::spec_from_word(bits_of(self.spec_word(), start as u64, end as u64)))
            } else {
                None
            }),
    {
        proof {
            Self::lemma_bits();
            lemma_empty_range(self.spec_word(), start as u64, 0);
        }
        if end as usize > Self::STORAGE_BITS {
            None
        } else if start == end {
            Some(Self::from_word(0))
        } else {
            match word_try_bits(self.word(), start, end) {
                Some(word) => Some(Self::from_word(word)),
                None => None,
            }
        }
    }

    /// Returns the value with the bits from `start` (inclusive) to `end`
    /// (exclusive) replaced by the low bits of `value`.
    pub fn with_bits(self, start: u8, end: u8, value: Self) -> (r: Self)
        requires
            start <= end <= Self::STORAGE_BITS,
        ensures
            r == Self::spec_from_word(
                with_bits_of(self.spec_word(), start as u64, end as u64, value.spec_word()),
            ),
            r.spec_value() == signed_of(
                with_bits_of(self.spec_word(), start as u64, end as u64, value.spec_word()),
                LEN as u64,
            ),
    {
        proof {
            Self::lemma_bits();
            lemma_empty_range(self.spec_word(), start as u64, value.spec_word());
        }
        Self::from_word(word_with_bits(self.word(), start, end, value.word()))
    }

    /// Returns the value with the bits from `start` (inclusive) to `end`
    /// (exclusive) replaced by the low bits of `value`, or `None` if the
    /// range is not inside the word.
    pub fn try_with_bits(self, start: u8, end: u8, value: Self) -> (r: Option<Self>)
        ensures
            r == (if start <= end && end <= Self::STORAGE_BITS {
                Some(
                    Self::spec_from_word(
                        with_bits_of(
                            self.spec_word(),
                            start as u64,
                            end as u64,
                            value.spec_word(),
                        ),
                    ),
                )
            } else {
                None
            }),
    {
        proof {
            Self::lemma_bits();
            lemma_empty_range(self.spec_word(), start as u64, value.spec_word());
        }
        if end as usize > Self::STORAGE_BITS {
            None
        } else if start == end {
            Some(Self::from_word(self.word()))
        } else {
            match word_try_with_bits(self.word(), start, end, value.word()) {
                Some(word) => Some(Self::from_word(word)),
                None => None,
            }
        }
    }
}

impl<T: SignedInt + IsStorageForBits<LEN>, const LEN: usize> Clone for SInt<T, LEN> {
    fn clone(&self) -> (r: Self)
        ensures
            r == *self,
    {
        *self
    }
}

impl<T: SignedInt + IsStorageForBits<LEN>, const LEN: usize> Default for SInt<T, LEN> {
    /// The value zero.
    fn default() -> (r: Self)
        ensures
            r.wf(),
            r.spec_value() == 0,
    {
        proof {
            lemma_signed_zero(LEN as u64);
        }
        Self::from_word(0)
    }
}

/// Zero reads as zero in any number of bits.
proof fn lemma_signed_zero(n: u64)
    by (bit_vector)
    ensures
        signed_of(0, n) == 0,
{
}

impl<T: SignedInt + IsStorageForBits<LEN>, const LEN: usize> Integer for SInt<T, LEN> {
    const BITS: usize = LEN;

    const STORAGE_BITS: usize = T::STORAGE_BITS;

    proof fn lemma_bits()
        ensures
            Self::BITS == LEN,
            Self::STORAGE_BITS == T::STORAGE_BITS,
    {
        T::lemma_storage();
        T::lemma_bits();
    }
}

} // verus!
