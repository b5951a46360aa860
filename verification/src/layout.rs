//! Where the fields of a record lie in its word.
//!
//! A record packs its fields into one word of `record_bits` bits. Each
//! field is declared with the bits it takes, and a declaration is valid if
//! the range lies inside the record and is as long as the field's type is
//! wide.

use crate::word::{low_mask, range_mask, unsigned_mask};
use vstd::arithmetic::power2::{lemma2_to64, lemma2_to64_rest, lemma_pow2_strictly_increases, pow2};
use vstd::prelude::*;

verus! {

/// The bits that a field was declared to take, as the declaration gave
/// them. `end` is exclusive in both variants; a missing `end` stands for
/// the end of the record.
#[derive(Clone, Copy, Debug, PartialEq, Eq)]
pub enum Bitrange {
    /// Declared as `start..end`, or as the single bit `start`.
    HalfOpen { start: usize, end: Option<usize> },
    /// Declared as `start..=last`, kept as `start..last + 1`.
    Closed { start: usize, end: Option<usize> },
}

/// What is wrong with the declaration of a field.
#[derive(Clone, Copy, Debug, PartialEq, Eq)]
pub enum LayoutError {
    /// The range starts beyond the end of the record.
    StartOutOfRange,
    /// The range ends beyond the end of the record.
    EndOutOfRange,
    /// The range is not as long as the field's type is wide.
    WrongBitLength,
}

impl Bitrange {
    /// The first bit of the range.
    pub open spec fn spec_start(self) -> usize {
        match self {
            Bitrange::HalfOpen { start, .. } => start,
            Bitrange::Closed { start, .. } => start,
        }
    }

    /// The bit after the last one of the range, if the declaration named
    /// one.
    pub open spec fn spec_end(self) -> Option<usize> {
        match self {
            Bitrange::HalfOpen { end, .. } => end,
            Bitrange::Closed { end, .. } => end,
        }
    }

    /// The bit after the last one of the range, in a record of
    /// `record_bits` bits.
    pub open spec fn spec_end_in(self, record_bits: usize) -> usize {
        match self.spec_end() {
            Some(end) => end,
            None => record_bits,
        }
    }

    /// The number of bits of the range in a record of `record_bits` bits;
    /// a range that ends before it starts has none.
    pub open spec fn spec_len(self, record_bits: usize) -> int {
        if self.spec_end_in(record_bits) >= self.spec_start() {
            self.spec_end_in(record_bits) - self.spec_start()
        } else {
            0
        }
    }

    /// What `check` returns.
    pub open spec fn spec_check(self, record_bits: usize, field_bits: usize) -> Result<
        (),
        LayoutError,
    > {
        if self.spec_start() > record_bits {
            Err(LayoutError::StartOutOfRange)
        } else if self.spec_end_in(record_bits) > record_bits {
            Err(LayoutError::EndOutOfRange)
        } else if field_bits != self.spec_len(record_bits) {
            Err(LayoutError::WrongBitLength)
        } else {
            Ok(())
        }
    }

    /// Whether bit `index` of the record belongs to the range.
    pub open spec fn spec_contains(self, record_bits: usize, index: int) -> bool {
        self.spec_start() <= index < self.spec_end_in(record_bits)
    }

    /// The range of the single bit `bit`.
    pub fn single(bit: usize) -> (r: Self)
        requires
            bit < usize::MAX,
        ensures
            r == (Bitrange::HalfOpen { start: bit, end: Some((bit + 1) as usize) }),
    {
        Bitrange::HalfOpen { start: bit, end: Some(bit + 1) }
    }

    /// The range `start..end`. A missing `start` is bit 0, a missing `end`
    /// the end of the record.
    pub fn half_open(start: Option<usize>, end: Option<usize>) -> (r: Self)
        ensures
            r == (Bitrange::HalfOpen {
                start: match start {
                    Some(s) => s,
                    None => 0,
                },
                end,
            }),
    {
        let start = match start {
            Some(s) => s,
            None => 0,
        };
        Bitrange::HalfOpen { start, end }
    }

    /// The range `start..=last`. A missing `start` is bit 0, a missing
    /// `last` the last bit of the record.
    pub fn closed(start: Option<usize>, last: Option<usize>) -> (r: Self)
        requires
            last.is_some() ==> last.unwrap() < usize::MAX,
        ensures
            r == (Bitrange::Closed {
                start: match start {
                    Some(s) => s,
                    None => 0,
                },
                end: match last {
                    Some(l) => Some((l + 1) as usize),
                    None => None,
                },
            }),
    {
        let start = match start {
            Some(s) => s,
            None => 0,
        };
        let end = match last {
            Some(l) => Some(l + 1),
            None => None,
        };
        Bitrange::Closed { start, end }
    }

    /// The first bit of the range.
    pub fn start(&self) -> (r: usize)
        ensures
            r == self.spec_start(),
    {
        match self {
            Bitrange::HalfOpen { start, .. } => *start,
            Bitrange::Closed { start, .. } => *start,
        }
    }

    /// The bit after the last one of the range, if the declaration named
    /// one.
    pub fn end(&self) -> (r: Option<usize>)
        ensures
            r == self.spec_end(),
    {
        match self {
            Bitrange::HalfOpen { end, .. } => *end,
            Bitrange::Closed { end, .. } => *end,
        }
    }

    /// The first bit of the range and the bit after its last one, in a
    /// record of `record_bits` bits.
    pub fn resolve(&self, record_bits: usize) -> (r: (usize, usize))
        ensures
            r.0 == self.spec_start(),
            r.1 == self.spec_end_in(record_bits),
    {
        let end = match self.end() {
            Some(end) => end,
            None => record_bits,
        };
        (self.start(), end)
    }

    /// The number of bits of the range in a record of `record_bits` bits.
    pub fn len(&self, record_bits: usize) -> (r: usize)
        ensures
            r == self.spec_len(record_bits),
    {
        let (start, end) = self.resolve(record_bits);
        if end >= start {
            end - start
        } else {
            0
        }
    }

    /// Whether the range starts beyond the end of the record.
    pub fn start_out_of_range(&self, record_bits: usize) -> (r: bool)
        ensures
            r == (self.spec_start() > record_bits),
    {
        self.start() > record_bits
    }

    /// Whether the range ends beyond the end of the record.
    pub fn end_out_of_range(&self, record_bits: usize) -> (r: bool)
        ensures
            r == (self.spec_end_in(record_bits) > record_bits),
    {
        self.resolve(record_bits).1 > record_bits
    }

    /// Checks the declaration of a field whose type is `field_bits` bits
    /// wide, in a record of `record_bits` bits: the range must lie inside
    /// the record and be `field_bits` bits long. Of several faults the
    /// first in the order of [`LayoutError`] is reported.
    pub fn check(&self, record_bits: usize, field_bits: usize) -> (r: Result<(), LayoutError>)
        ensures
            r == self.spec_check(record_bits, field_bits),
            field_bits > 0 ==> (r.is_ok() <==> self.spec_start() <= self.spec_end_in(record_bits)
                <= record_bits && self.spec_end_in(record_bits) - self.spec_start() == field_bits),
    {
        if self.start_out_of_range(record_bits) {
            Err(LayoutError::StartOutOfRange)
        } else if self.end_out_of_range(record_bits) {
            Err(LayoutError::EndOutOfRange)
        } else if field_bits != self.len(record_bits) {
            Err(LayoutError::WrongBitLength)
        } else {
            Ok(())
        }
    }

    /// Whether the two ranges have a bit in common, in a record of
    /// `record_bits` bits.
    pub fn overlaps(&self, other: &Bitrange, record_bits: usize) -> (r: bool)
        ensures
            r == exists|index: int|
                self.spec_contains(record_bits, index) && other.spec_contains(record_bits, index),
    {
        let (start1, end1) = self.resolve(record_bits);
        let (start2, end2) = other.resolve(record_bits);
        let r = start1 < end1 && start2 < end2 && start1 < end2 && start2 < end1;
        proof {
            if r {
                let index = if start1 >= start2 {
                    start1 as int
                } else {
                    start2 as int
                };
                assert(self.spec_contains(record_bits, index) && other.spec_contains(
                    record_bits,
                    index,
                ));
            }
        }
        r
    }

    /// The word in which exactly the bits of the range are set, for a range
    /// that lies inside a record of at most 64 bits.
    pub fn mask(&self, record_bits: usize) -> (r: u64)
        requires
            self.spec_start() <= self.spec_end_in(record_bits) <= record_bits <= 64,
        ensures
            r == range_mask(self.spec_start() as u64, self.spec_end_in(record_bits) as u64),
    {
        let (start, end) = self.resolve(record_bits);
        let ones = unsigned_mask(end - start);
        let ghost s = start as u64;
        let ghost e = end as u64;
        if start >= 64 {
            assert(range_mask(s, e) == 0) by (bit_vector)
                requires
                    s == 64,
                    e == 64,
            ;
            0
        } else {
            ones << (start as u64)
        }
    }
}

/// Whether an enum of `variants` variants takes every pattern of `bits`
/// bits: it has exactly `2^bits` variants.
pub fn is_exhaustive(bits: usize, variants: usize) -> (r: bool)
    ensures
        r == (variants == pow2(bits as nat)),
{
    proof {
        lemma2_to64();
        lemma2_to64_rest();
        if bits >= 64 {
            if bits > 64 {
                lemma_pow2_strictly_increases(64, bits as nat);
            }
        } else {
            crate::word::lemma_low_mask_is_pow2(bits as u64);
        }
    }
    if bits >= 64 {
        false
    } else {
        let all = unsigned_mask(bits);
        variants as u64 > 0 && variants as u64 - 1 == all
    }
}

/// The position of the first of `discriminants` that is equal to `raw`, or
/// `None` if there is none: the variant of an enum that a raw bit pattern
/// stands for.
pub fn variant_index(discriminants: &[u64], raw: u64) -> (r: Option<usize>)
    ensures
        match r {
            Some(i) => i < discriminants@.len() && discriminants@[i as int] == raw && forall|j: int|
                0 <= j < i ==> discriminants@[j] != raw,
            None => forall|j: int| 0 <= j < discriminants@.len() ==> discriminants@[j] != raw,
        },
{
    let mut i: usize = 0;
    while i < discriminants.len()
        invariant
            i <= discriminants@.len(),
            forall|j: int| 0 <= j < i ==> discriminants@[j] != raw,
        decreases discriminants@.len() - i,
    {
        if discriminants[i] == raw {
            return Some(i);
        }
        i += 1;
    }
    None
}

} // verus!
