//! Reading and writing single bits and bit ranges of an unsigned integer.

use crate::integer::UnsignedInt;
use crate::word::{
    bit_of, bits_of, lemma_bit_of_low_bits, lemma_bit_of_with_bits_of, lemma_bits_of_fits,
    lemma_bits_of_low_bits, lemma_bits_of_with_bits_of, lemma_empty_range, lemma_low_mask,
    lemma_with_bits_of_commute, lemma_with_bits_of_low_bits, lemma_with_bits_of_same, low_mask,
    with_bit_of, with_bits_of, word_bit, word_bits, word_try_bit, word_try_bits,
    word_try_with_bit, word_try_with_bits, word_with_bit, word_with_bits,
};
use vstd::prelude::*;

verus! {

/// The value that [`BitUtils::with_bit`] returns: the word of `x` with one
/// bit replaced, cut to the width of `T`.
pub open spec fn spec_with_bit<T: UnsignedInt>(x: T, index: u8, value: bool) -> T {
    T::spec_new(with_bit_of(x.spec_value(), index as u64, value))
}

/// The value that [`BitUtils::bits`] returns: the bits `start..end` of `x`,
/// moved down to bit 0.
pub open spec fn spec_bits<T: UnsignedInt>(x: T, start: u8, end: u8) -> T {
    T::spec_new(bits_of(x.spec_value(), start as u64, end as u64))
}

/// The value that [`BitUtils::with_bits`] returns: the word of `x` with the
/// bits `start..end` replaced by the low bits of `value`, cut to the width
/// of `T`.
pub open spec fn spec_with_bits<T: UnsignedInt>(x: T, start: u8, end: u8, value: T) -> T {
    T::spec_new(with_bits_of(x.spec_value(), start as u64, end as u64, value.spec_value()))
}

/// Methods that read and change the value of single bits and of bit ranges.
/// Bit 0 is the least significant bit.
///
/// A position is valid if it lies inside the native word that stores the
/// value, which has `STORAGE_BITS` bits. A write computes the new word and
/// then keeps its `BITS` low bits, so that the result is again a value of
/// the type. The methods whose names begin with `try_` accept any position
/// and return `None` for one that is not valid; the others expect a valid
/// one.
pub trait BitUtils: UnsignedInt {
    /// Returns whether the bit at `index` is set.
    fn bit(self, index: u8) -> (r: bool)
        requires
            index < Self::STORAGE_BITS,
        ensures
            r == bit_of(self.spec_value(), index as u64),
    {
        word_bit(self.value(), index)
    }

    /// Returns whether the bit at `index` is set, or `None` if `index` is
    /// not inside the word.
    fn try_bit(self, index: u8) -> (r: Option<bool>)
        ensures
            r == (if index < Self::STORAGE_BITS {
                Some(bit_of(self.spec_value(), index as u64))
            } else {
                None
            }),
    {
        proof {
            Self::lemma_bits();
        }
        if (index as usize) < Self::STORAGE_BITS {
            word_try_bit(self.value(), index)
        } else {
            None
        }
    }

    /// Returns the value with the bit at `index` set to `value`.
    fn with_bit(self, index: u8, value: bool) -> (r: Self)
        requires
            index < Self::STORAGE_BITS,
        ensures
            r == spec_with_bit(self, index, value),
            r.spec_value() == with_bit_of(self.spec_value(), index as u64, value) & low_mask(
                Self::BITS as u64,
            ),
    {
        proof {
            Self::lemma_bits();
        }
        Self::new(word_with_bit(self.value(), index, value))
    }

    /// Returns the value with the bit at `index` set to `value`, or `None`
    /// if `index` is not inside the word.
    fn try_with_bit(self, index: u8, value: bool) -> (r: Option<Self>)
        ensures
            r == (if index < Self::STORAGE_BITS {
                Some(spec_with_bit(self, index, value))
            } else {
                None
            }),
    {
        proof {
            Self::lemma_bits();
        }
        if (index as usize) < Self::STORAGE_BITS {
            match word_try_with_bit(self.value(), index, value) {
                Some(word) => Some(Self::new(word)),
                None => None,
            }
        } else {
            None
        }
    }

    /// Returns the bits from `start` (inclusive) to `end` (exclusive), moved
    /// down to bit 0.
    fn bits(self, start: u8, end: u8) -> (r: Self)
        requires
            start <= end <= Self::STORAGE_BITS,
        ensures
            r == spec_bits(self, start, end),
            r.spec_value() == bits_of(self.spec_value(), start as u64, end as u64),
    {
        let word = self.value();
        proof {
            Self::lemma_bits();
            lemma_bits_of_fits(word, Self::BITS as u64, start as u64, end as u64);
            lemma_empty_range(word, start as u64, 0);
        }
        Self::new(word_bits(word, start, end))
    }

    /// Returns the bits from `start` (inclusive) to `end` (exclusive), moved
    /// down to bit 0, or `None` if the range is not inside the word.
    fn try_bits(self, start: u8, end: u8) -> (r: Option<Self>)
        ensures
            r == (if start <= end && end <= Self::STORAGE_BITS {
                Some(spec_bits(self, start, end))
            } else {
                None
            }),
    {
        proof {
            Self::lemma_bits();
            lemma_empty_range(self.spec_value(), start as u64, 0);
        }
        if end as usize > Self::STORAGE_BITS {
            None
        } else if start == end {
            Some(Self::new(0))
        } else {
            match word_try_bits(self.value(), start, end) {
                Some(word) => Some(Self::new(word)),
                None => None,
            }
        }
    }

    /// Returns the value with the bits from `start` (inclusive) to `end`
    /// (exclusive) replaced by the low bits of `value`.
    fn with_bits(self, start: u8, end: u8, value: Self) -> (r: Self)
        requires
            start <= end <= Self::STORAGE_BITS,
        ensures
            r == spec_with_bits(self, start, end, value),
            r.spec_value() == with_bits_of(
                self.spec_value(),
                start as u64,
                end as u64,
                value.spec_value(),
            ) & low_mask(Self::BITS as u64),
    {
        proof {
            Self::lemma_bits();
            lemma_empty_range(self.spec_value(), start as u64, value.spec_value());
        }
        Self::new(word_with_bits(self.value(), start, end, value.value()))
    }

    /// Returns the value with the bits from `start` (inclusive) to `end`
    /// (exclusive) replaced by the low bits of `value`, or `None` if the
    /// range is not inside the word.
    fn try_with_bits(self, start: u8, end: u8, value: Self) -> (r: Option<Self>)
        ensures
            r == (if start <= end && end <= Self::STORAGE_BITS {
                Some(spec_with_bits(self, start, end, value))
            } else {
                None
            }),
    {
        proof {
            Self::lemma_bits();
            lemma_empty_range(self.spec_value(), start as u64, value.spec_value());
        }
        if end as usize > Self::STORAGE_BITS {
            None
        } else if start == end {
            Some(Self::new(self.value()))
        } else {
            match word_try_with_bits(self.value(), start, end, value.value()) {
                Some(word) => Some(Self::new(word)),
                None => None,
            }
        }
    }
}

impl<T: UnsignedInt> BitUtils for T {

}

/// Writing back the bits that were read from a range gives the value that
/// they were read from: `w.with_bits(s, e, w.bits(s, e)) == w`.
pub proof fn lemma_with_bits_of_own_bits<T: UnsignedInt>(word: T, start: u8, end: u8)
    requires
        word.spec_value() <= low_mask(T::BITS as u64),
        start <= end <= T::STORAGE_BITS,
    ensures
        spec_with_bits(word, start, end, spec_bits(word, start, end)) == word,
{
    let w = word.spec_value();
    let read = bits_of(w, start as u64, end as u64);
    T::lemma_bits();
    T::lemma_new_value(read);
    lemma_bits_of_fits(w, T::BITS as u64, start as u64, end as u64);
    lemma_with_bits_of_same(w, start as u64, end as u64);
    T::lemma_new_value(w);
    lemma_low_mask(w, T::BITS as u64, T::BITS as u64);
    T::lemma_value_injective(spec_with_bits(word, start, end, spec_bits(word, start, end)), word);
}

/// Reading a range that was just written, and that lies inside the `BITS`
/// bits of the type, gives the low bits of the value written.
pub proof fn lemma_bits_of_written<T: UnsignedInt>(word: T, start: u8, end: u8, value: T)
    requires
        start <= end <= T::BITS,
    ensures
        spec_bits(spec_with_bits(word, start, end, value), start, end).spec_value()
            == value.spec_value() & low_mask((end - start) as u64),
{
    let w = word.spec_value();
    let written = with_bits_of(w, start as u64, end as u64, value.spec_value());
    let read = bits_of(written, start as u64, end as u64);
    T::lemma_bits();
    T::lemma_new_value(written);
    lemma_bits_of_low_bits(written, T::BITS as u64, start as u64, end as u64);
    lemma_bits_of_with_bits_of(w, start as u64, end as u64, value.spec_value());
    T::lemma_new_value(read);
    lemma_low_mask(written, T::BITS as u64, T::BITS as u64);
    lemma_bits_of_fits(written & low_mask(T::BITS as u64), T::BITS as u64, start as u64, end as u64);
}

/// Writes to two ranges that share no bit can be made in either order.
pub proof fn lemma_with_bits_commute<T: UnsignedInt>(
    word: T,
    start1: u8,
    end1: u8,
    value1: T,
    start2: u8,
    end2: u8,
    value2: T,
)
    requires
        start1 <= end1 <= T::STORAGE_BITS,
        start2 <= end2 <= T::STORAGE_BITS,
        end1 <= start2 || end2 <= start1,
    ensures
        spec_with_bits(spec_with_bits(word, start1, end1, value1), start2, end2, value2)
            == spec_with_bits(spec_with_bits(word, start2, end2, value2), start1, end1, value1),
{
    let w = word.spec_value();
    let n = T::BITS as u64;
    let first1 = with_bits_of(w, start1 as u64, end1 as u64, value1.spec_value());
    let first2 = with_bits_of(w, start2 as u64, end2 as u64, value2.spec_value());
    T::lemma_bits();
    T::lemma_new_value(first1);
    T::lemma_new_value(first2);
    T::lemma_new_value(
        with_bits_of(first1 & low_mask(n), start2 as u64, end2 as u64, value2.spec_value()),
    );
    T::lemma_new_value(
        with_bits_of(first2 & low_mask(n), start1 as u64, end1 as u64, value1.spec_value()),
    );
    lemma_with_bits_of_low_bits(first1, n, start2 as u64, end2 as u64, value2.spec_value());
    lemma_with_bits_of_low_bits(first2, n, start1 as u64, end1 as u64, value1.spec_value());
    lemma_with_bits_of_commute(
        w,
        start1 as u64,
        end1 as u64,
        value1.spec_value(),
        start2 as u64,
        end2 as u64,
        value2.spec_value(),
    );
    T::lemma_value_injective(
        spec_with_bits(spec_with_bits(word, start1, end1, value1), start2, end2, value2),
        spec_with_bits(spec_with_bits(word, start2, end2, value2), start1, end1, value1),
    );
}

/// After a write to a range, each bit of the value inside the range is the
/// matching bit of what was written, and each bit outside the range is what
/// it was before.
pub proof fn lemma_bit_of_with_bits<T: UnsignedInt>(
    word: T,
    start: u8,
    end: u8,
    value: T,
    index: u8,
)
    requires
        start <= end <= T::STORAGE_BITS,
        index < T::BITS,
    ensures
        bit_of(spec_with_bits(word, start, end, value).spec_value(), index as u64) == (if start
            <= index && index < end {
            bit_of(value.spec_value(), (index - start) as u64)
        } else {
            bit_of(word.spec_value(), index as u64)
        }),
{
    let w = word.spec_value();
    let written = with_bits_of(w, start as u64, end as u64, value.spec_value());
    T::lemma_bits();
    T::lemma_new_value(written);
    lemma_bit_of_low_bits(written, T::BITS as u64, index as u64);
    lemma_bit_of_with_bits_of(w, start as u64, end as u64, value.spec_value(), index as u64);
}

/// Of two writes to ranges that overlap, the later one wins: a bit that
/// lies in the range of the second write holds what the second write put
/// there, and a bit that lies only in the range of the first write holds
/// what the first write put there.
pub proof fn lemma_last_write_wins<T: UnsignedInt>(
    word: T,
    start1: u8,
    end1: u8,
    value1: T,
    start2: u8,
    end2: u8,
    value2: T,
    index: u8,
)
    requires
        start1 <= end1 <= T::STORAGE_BITS,
        start2 <= end2 <= T::STORAGE_BITS,
        index < T::BITS,
    ensures
        bit_of(
            spec_with_bits(
                spec_with_bits(word, start1, end1, value1),
                start2,
                end2,
                value2,
            ).spec_value(),
            index as u64,
        ) == (if start2 <= index && index < end2 {
            bit_of(value2.spec_value(), (index - start2) as u64)
        } else if start1 <= index && index < end1 {
            bit_of(value1.spec_value(), (index - start1) as u64)
        } else {
            bit_of(word.spec_value(), index as u64)
        }),
{
    let first = spec_with_bits(word, start1, end1, value1);
    lemma_bit_of_with_bits(word, start1, end1, value1, index);
    lemma_bit_of_with_bits(first, start2, end2, value2, index);
}

} // verus!
