//! Reading and writing the fields of a record.
//!
//! A record keeps its fields in one word. A field takes the bits
//! `start..end` of that word and holds a value of a type that can be turned
//! into raw bits. The functions of this module are the bodies of the
//! accessors of a record: a getter reads the bits of the field and makes a
//! value of them, a setter turns the value into bits and writes them.

use crate::bit_utils::{spec_with_bits, BitUtils};
use crate::integer::{Integer, UnsignedInt};
use crate::word::{
    bits_of, lemma_bits_of_low_bits, lemma_bits_of_with_bits_of, lemma_low_mask, low_mask,
    with_bits_of,
};
use crate::{Bits, TryBits};
use vstd::prelude::*;

verus! {

/// The raw bits of a field of type `F` that is read from the bits
/// `start..end` of `word`.
pub open spec fn spec_field_bits<S: UnsignedInt, F: TryBits>(word: S, start: u8, end: u8) -> F::Bits {
    F::Bits::spec_new(bits_of(word.spec_value(), start as u64, end as u64))
}

/// The word that is written into a record for the field value `value`.
pub open spec fn spec_field_word<S: UnsignedInt, F: TryBits>(value: F) -> S {
    S::spec_new(value.spec_into_bits().spec_value())
}

/// The first bit of the element `index` of a field that holds elements of
/// type `E` from bit `start` on.
pub open spec fn spec_element_start<E: TryBits>(start: u8, index: usize) -> int {
    start + E::Bits::BITS * index
}

/// Reads the field that takes the bits `start..end` of `word`, for a type
/// of which every bit pattern is a value.
pub fn get<S: UnsignedInt, F: Bits>(word: S, start: u8, end: u8) -> (r: F)
    requires
        start <= end <= S::STORAGE_BITS,
    ensures
        F::spec_try_from_bits(spec_field_bits::<S, F>(word, start, end)) == Some(r),
{
    let raw = word.bits(start, end).value();
    F::from_bits(F::Bits::new(raw))
}

/// Reads the field that takes the bits `start..end` of `word`, or `None`
/// if the bits found there stand for no value of its type.
pub fn try_get<S: UnsignedInt, F: TryBits>(word: S, start: u8, end: u8) -> (r: Option<F>)
    requires
        start <= end <= S::STORAGE_BITS,
    ensures
        r == F::spec_try_from_bits(spec_field_bits::<S, F>(word, start, end)),
{
    let raw = word.bits(start, end).value();
    F::try_from_bits(F::Bits::new(raw))
}

/// Returns `word` with the field that takes the bits `start..end` set to
/// `value`.
pub fn with<S: UnsignedInt, F: TryBits>(word: S, start: u8, end: u8, value: F) -> (r: S)
    requires
        start <= end <= S::STORAGE_BITS,
    ensures
        r == spec_with_bits(word, start, end, spec_field_word::<S, F>(value)),
{
    let raw = value.into_bits().value();
    word.with_bits(start, end, S::new(raw))
}

/// Sets the field that takes the bits `start..end` of `word` to `value`.
pub fn set<S: UnsignedInt, F: TryBits>(word: &mut S, start: u8, end: u8, value: F)
    requires
        start <= end <= S::STORAGE_BITS,
    ensures
        *final(word) == spec_with_bits(*old(word), start, end, spec_field_word::<S, F>(value)),
{
    *word = with(*word, start, end, value);
}

/// Reads the element `index` of a field that holds `len` elements of type
/// `E`, one after the other from bit `start` on, or `None` if there is no
/// such element.
pub fn get_at<S: UnsignedInt, E: Bits>(word: S, start: u8, len: usize, index: usize) -> (r: Option<
    E,
>)
    requires
        start + E::Bits::BITS * len <= S::STORAGE_BITS,
    ensures
        index >= len ==> r.is_none(),
        index < len ==> r.is_some() && E::spec_try_from_bits(
            spec_field_bits::<S, E>(
                word,
                spec_element_start::<E>(start, index) as u8,
                (spec_element_start::<E>(start, index) + E::Bits::BITS) as u8,
            ),
        ) == r,
{
    if index < len {
        let (from, to) = element_range::<S, E>(start, len, index);
        Some(get(word, from, to))
    } else {
        None
    }
}

/// Returns `word` with the element `index` of a field set to `value`; the
/// field holds `len` elements of type `E`, one after the other from bit
/// `start` on. Where there is no such element, `word` comes back as it is.
pub fn with_at<S: UnsignedInt, E: TryBits>(
    word: S,
    start: u8,
    len: usize,
    index: usize,
    value: E,
) -> (r: S)
    requires
        start + E::Bits::BITS * len <= S::STORAGE_BITS,
    ensures
        index >= len ==> r == word,
        index < len ==> r == spec_with_bits(
            word,
            spec_element_start::<E>(start, index) as u8,
            (spec_element_start::<E>(start, index) + E::Bits::BITS) as u8,
            spec_field_word::<S, E>(value),
        ),
{
    if index < len {
        let (from, to) = element_range::<S, E>(start, len, index);
        with(word, from, to, value)
    } else {
        word
    }
}

/// Sets the element `index` of a field of `word` to `value`; see
/// [`with_at`].
pub fn set_at<S: UnsignedInt, E: TryBits>(
    word: &mut S,
    start: u8,
    len: usize,
    index: usize,
    value: E,
)
    requires
        start + E::Bits::BITS * len <= S::STORAGE_BITS,
    ensures
        index >= len ==> *final(word) == *old(word),
        index < len ==> *final(word) == spec_with_bits(
            *old(word),
            spec_element_start::<E>(start, index) as u8,
            (spec_element_start::<E>(start, index) + E::Bits::BITS) as u8,
            spec_field_word::<S, E>(value),
        ),
{
    *word = with_at(*word, start, len, index, value);
}

/// The bits that the element `index` takes.
fn element_range<S: UnsignedInt, E: TryBits>(start: u8, len: usize, index: usize) -> (r: (u8, u8))
    requires
        start + E::Bits::BITS * len <= S::STORAGE_BITS,
        index < len,
    ensures
        r.0 == spec_element_start::<E>(start, index),
        r.1 == spec_element_start::<E>(start, index) + E::Bits::BITS,
        r.0 <= r.1 <= S::STORAGE_BITS,
{
    let width = E::Bits::BITS;
    proof {
        S::lemma_bits();
        E::Bits::lemma_bits();
        assert(width * index + width <= width * len) by (nonlinear_arith)
            requires
                index < len,
                width >= 0,
        ;
        assert(0 <= width * index) by (nonlinear_arith)
            requires
                width >= 0,
                index >= 0,
        ;
    }
    let from = start as usize + width * index;
    (from as u8, (from + width) as u8)
}

/// A field reads back what was written to it: if the range of a field is
/// as long as the raw bits of its type are wide and lies inside the record,
/// then reading the field after writing `value` gives `value`.
pub proof fn lemma_get_of_with<S: UnsignedInt, F: Bits>(word: S, start: u8, end: u8, value: F)
    requires
        start <= end <= S::BITS,
        end - start == F::Bits::BITS,
        value.spec_valid(),
        value.spec_into_bits().spec_value() <= low_mask(F::Bits::BITS as u64),
    ensures
        F::spec_try_from_bits(
            spec_field_bits::<S, F>(
                spec_with_bits(word, start, end, spec_field_word::<S, F>(value)),
                start,
                end,
            ),
        ) == Some(value),
{
    let raw = value.spec_into_bits().spec_value();
    let n = S::BITS as u64;
    let len = F::Bits::BITS as u64;
    let (s, e) = (start as u64, end as u64);
    S::lemma_bits();
    F::Bits::lemma_bits();
    // the word that is written holds the raw bits unchanged
    S::lemma_new_value(raw);
    lemma_low_mask(raw, len, n);
    let piece = spec_field_word::<S, F>(value);
    assert(piece.spec_value() == raw);
    // the bits read back are the raw bits
    let written = with_bits_of(word.spec_value(), s, e, raw);
    S::lemma_new_value(written);
    lemma_bits_of_low_bits(written, n, s, e);
    lemma_bits_of_with_bits_of(word.spec_value(), s, e, raw);
    lemma_low_mask(raw, len, len);
    let read = bits_of(written & low_mask(n), s, e);
    assert(read == raw);
    // and they make the raw value of the field again
    F::Bits::lemma_new_value(raw);
    F::Bits::lemma_value_injective(F::Bits::spec_new(raw), value.spec_into_bits());
    F::lemma_from_bits_of_into_bits(value);
}

} // verus!
