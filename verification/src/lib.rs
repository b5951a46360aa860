//! Bit-level packing of fixed-width integer and enum fields into one native
//! word, and integers of any width from 1 to 64 bits.

pub mod bit_utils;
pub mod field;
pub mod integer;
pub mod layout;
pub mod word;

pub use bit_utils::BitUtils;

use integer::{Integer, IsStorageForBits, SInt, UInt, UnsignedInt};
use vstd::prelude::*;
use word::{lemma_low_mask, low_mask};

verus! {

/// Trait for types that can try to be created from and turned into raw
/// bits.
pub trait TryBits: Sized {
    /// The raw bits type.
    type Bits: UnsignedInt;

    /// The value that a raw bit pattern stands for, or `None` for a pattern
    /// that stands for no value of this type.
    spec fn spec_try_from_bits(value: Self::Bits) -> Option<Self>;

    /// The raw bit pattern of a value.
    spec fn spec_into_bits(self) -> Self::Bits;

    /// Tries to create a value of this type from its raw bit
    /// representation.
    fn try_from_bits(value: Self::Bits) -> (r: Option<Self>)
        ensures
            r == Self::spec_try_from_bits(value),
    ;

    /// Turns this value into its raw bit representation.
    fn into_bits(self) -> (r: Self::Bits)
        ensures
            r == self.spec_into_bits(),
    ;
}

/// Trait for types that can be created from and turned into raw bits: each
/// raw bit pattern stands for a value.
pub trait Bits: TryBits {
    /// Whether `self` is a value that the type holds at run time.
    spec fn spec_valid(self) -> bool;

    /// Creates a value of this type from its raw bit representation.
    fn from_bits(value: Self::Bits) -> (r: Self)
        ensures
            Self::spec_try_from_bits(value) == Some(r),
    ;

    /// The raw bits of a value stand for that value.
    proof fn lemma_from_bits_of_into_bits(x: Self)
        requires
            x.spec_valid(),
        ensures
            Self::spec_try_from_bits(x.spec_into_bits()) == Some(x),
    ;
}

impl TryBits for u8 {
    type Bits = Self;

    open spec fn spec_try_from_bits(value: Self::Bits) -> Option<Self> {
        Some(value)
    }

    open spec fn spec_into_bits(self) -> Self::Bits {
        self
    }

    fn try_from_bits(value: Self::Bits) -> (r: Option<Self>) {
        Some(value)
    }

    fn into_bits(self) -> (r: Self::Bits) {
        self
    }
}

impl Bits for u8 {
    open spec fn spec_valid(self) -> bool {
        true
    }

    fn from_bits(value: Self::Bits) -> (r: Self) {
        value
    }

    proof fn lemma_from_bits_of_into_bits(x: Self) {
    }
}

impl TryBits for u16 {
    type Bits = Self;

    open spec fn spec_try_from_bits(value: Self::Bits) -> Option<Self> {
        Some(value)
    }

    open spec fn spec_into_bits(self) -> Self::Bits {
        self
    }

    fn try_from_bits(value: Self::Bits) -> (r: Option<Self>) {
        Some(value)
    }

    fn into_bits(self) -> (r: Self::Bits) {
        self
    }
}

impl Bits for u16 {
    open spec fn spec_valid(self) -> bool {
        true
    }

    fn from_bits(value: Self::Bits) -> (r: Self) {
        value
    }

    proof fn lemma_from_bits_of_into_bits(x: Self) {
    }
}

impl TryBits for u32 {
    type Bits = Self;

    open spec fn spec_try_from_bits(value: Self::Bits) -> Option<Self> {
        Some(value)
    }

    open spec fn spec_into_bits(self) -> Self::Bits {
        self
    }

    fn try_from_bits(value: Self::Bits) -> (r: Option<Self>) {
        Some(value)
    }

    fn into_bits(self) -> (r: Self::Bits) {
        self
    }
}

impl Bits for u32 {
    open spec fn spec_valid(self) -> bool {
        true
    }

    fn from_bits(value: Self::Bits) -> (r: Self) {
        value
    }

    proof fn lemma_from_bits_of_into_bits(x: Self) {
    }
}

impl TryBits for u64 {
    type Bits = Self;

    open spec fn spec_try_from_bits(value: Self::Bits) -> Option<Self> {
        Some(value)
    }

    open spec fn spec_into_bits(self) -> Self::Bits {
        self
    }

    fn try_from_bits(value: Self::Bits) -> (r: Option<Self>) {
        Some(value)
    }

    fn into_bits(self) -> (r: Self::Bits) {
        self
    }
}

impl Bits for u64 {
    open spec fn spec_valid(self) -> bool {
        true
    }

    fn from_bits(value: Self::Bits) -> (r: Self) {
        value
    }

    proof fn lemma_from_bits_of_into_bits(x: Self) {
    }
}

impl<T: UnsignedInt + IsStorageForBits<LEN>, const LEN: usize> TryBits for UInt<T, LEN> {
    type Bits = Self;

    open spec fn spec_try_from_bits(value: Self::Bits) -> Option<Self> {
        Some(value)
    }

    open spec fn spec_into_bits(self) -> Self::Bits {
        self
    }

    fn try_from_bits(value: Self::Bits) -> (r: Option<Self>) {
        Some(value)
    }

    fn into_bits(self) -> (r: Self::Bits) {
        self
    }
}

impl<T: UnsignedInt + IsStorageForBits<LEN>, const LEN: usize> Bits for UInt<T, LEN> {
    open spec fn spec_valid(self) -> bool {
        self.wf()
    }

    fn from_bits(value: Self::Bits) -> (r: Self) {
        value
    }

    proof fn lemma_from_bits_of_into_bits(x: Self) {
    }
}

/// A signed native integer and the unsigned one of the same width hold the
/// same bits: the conversion between them, in either direction, keeps each
/// of them.
proof fn lemma_sibling_casts(a8: u8, a16: u16, a32: u32, a64: u64, b8: i8, b16: i16, b32: i32, b64: i64)
    by (bit_vector)
    ensures
        (a8 as i8) as u8 == a8,
        (a16 as i16) as u16 == a16,
        (a32 as i32) as u32 == a32,
        (a64 as i64) as u64 == a64,
        (b8 as u8) as i8 == b8,
        (b16 as u16) as i16 == b16,
        (b32 as u32) as i32 == b32,
        (b64 as u64) as i64 == b64,
{
}

/// The low `n` bits of a native integer are those of its sibling of the
/// other signedness, as long as `n` is at most their width.
proof fn lemma_sibling_low_bits(
    a8: u8,
    a16: u16,
    a32: u32,
    a64: u64,
    b8: i8,
    b16: i16,
    b32: i32,
    b64: i64,
    n: u64,
)
    by (bit_vector)
    ensures
        n <= 8 ==> (((a8 as i8) as i64) as u64) & low_mask(n) == (a8 as u64) & low_mask(n),
        n <= 16 ==> (((a16 as i16) as i64) as u64) & low_mask(n) == (a16 as u64) & low_mask(n),
        n <= 32 ==> (((a32 as i32) as i64) as u64) & low_mask(n) == (a32 as u64) & low_mask(n),
        (((a64 as i64) as i64) as u64) & low_mask(n) == (a64 as u64) & low_mask(n),
        n <= 8 ==> ((b8 as u8) as u64) & low_mask(n) == ((b8 as i64) as u64) & low_mask(n),
        n <= 16 ==> ((b16 as u16) as u64) & low_mask(n) == ((b16 as i64) as u64) & low_mask(n),
        n <= 32 ==> ((b32 as u32) as u64) & low_mask(n) == ((b32 as i64) as u64) & low_mask(n),
        ((b64 as u64) as u64) & low_mask(n) == ((b64 as i64) as u64) & low_mask(n),
{
}

impl TryBits for i8 {
    type Bits = u8;

    open spec fn spec_try_from_bits(value: Self::Bits) -> Option<Self> {
        Some(value as i8)
    }

    open spec fn spec_into_bits(self) -> Self::Bits {
        self as u8
    }

    fn try_from_bits(value: Self::Bits) -> (r: Option<Self>) {
        Some(#[verifier::truncate] (value as i8))
    }

    fn into_bits(self) -> (r: Self::Bits) {
        #[verifier::truncate] (self as u8)
    }
}

impl Bits for i8 {
    open spec fn spec_valid(self) -> bool {
        true
    }

    fn from_bits(value: Self::Bits) -> (r: Self) {
        #[verifier::truncate] (value as i8)
    }

    proof fn lemma_from_bits_of_into_bits(x: Self) {
        lemma_sibling_casts(0, 0, 0, 0, x, 0, 0, 0);
    }
}

impl TryBits for i16 {
    type Bits = u16;

    open spec fn spec_try_from_bits(value: Self::Bits) -> Option<Self> {
        Some(value as i16)
    }

    open spec fn spec_into_bits(self) -> Self::Bits {
        self as u16
    }

    fn try_from_bits(value: Self::Bits) -> (r: Option<Self>) {
        Some(#[verifier::truncate] (value as i16))
    }

    fn into_bits(self) -> (r: Self::Bits) {
        #[verifier::truncate] (self as u16)
    }
}

impl Bits for i16 {
    open spec fn spec_valid(self) -> bool {
        true
    }

    fn from_bits(value: Self::Bits) -> (r: Self) {
        #[verifier::truncate] (value as i16)
    }

    proof fn lemma_from_bits_of_into_bits(x: Self) {
        lemma_sibling_casts(0, 0, 0, 0, 0, x, 0, 0);
    }
}

impl TryBits for i32 {
    type Bits = u32;

    open spec fn spec_try_from_bits(value: Self::Bits) -> Option<Self> {
        Some(value as i32)
    }

    open spec fn spec_into_bits(self) -> Self::Bits {
        self as u32
    }

    fn try_from_bits(value: Self::Bits) -> (r: Option<Self>) {
        Some(#[verifier::truncate] (value as i32))
    }

    fn into_bits(self) -> (r: Self::Bits) {
        #[verifier::truncate] (self as u32)
    }
}

impl Bits for i32 {
    open spec fn spec_valid(self) -> bool {
        true
    }

    fn from_bits(value: Self::Bits) -> (r: Self) {
        #[verifier::truncate] (value as i32)
    }

    proof fn lemma_from_bits_of_into_bits(x: Self) {
        lemma_sibling_casts(0, 0, 0, 0, 0, 0, x, 0);
    }
}

impl TryBits for i64 {
    type Bits = u64;

    open spec fn spec_try_from_bits(value: Self::Bits) -> Option<Self> {
        Some(value as i64)
    }

    open spec fn spec_into_bits(self) -> Self::Bits {
        self as u64
    }

    fn try_from_bits(value: Self::Bits) -> (r: Option<Self>) {
        Some(#[verifier::truncate] (value as i64))
    }

    fn into_bits(self) -> (r: Self::Bits) {
        #[verifier::truncate] (self as u64)
    }
}

impl Bits for i64 {
    open spec fn spec_valid(self) -> bool {
        true
    }

    fn from_bits(value: Self::Bits) -> (r: Self) {
        #[verifier::truncate] (value as i64)
    }

    proof fn lemma_from_bits_of_into_bits(x: Self) {
        lemma_sibling_casts(0, 0, 0, 0, 0, 0, 0, x);
    }
}

impl<const LEN: usize> TryBits for SInt<i8, LEN>
where
    i8: IsStorageForBits<LEN>,
    u8: IsStorageForBits<LEN>,
{
    type Bits = UInt<u8, LEN>;

    open spec fn spec_try_from_bits(value: Self::Bits) -> Option<Self> {
        Some(Self::spec_from_word(value.spec_value()))
    }

    open spec fn spec_into_bits(self) -> Self::Bits {
        UInt::spec_new(self.spec_word())
    }

    fn try_from_bits(value: Self::Bits) -> (r: Option<Self>) {
        let raw = value.value();
        proof {
            <u8 as IsStorageForBits<LEN>>::lemma_storage();
            <u8 as Integer>::lemma_bits();
            lemma_sibling_low_bits(raw, 0, 0, 0, 0, 0, 0, 0, LEN as u64);
            Self::lemma_from_word_low_bits(
                ((raw as i8) as i64) as u64,
                value.spec_value(),
            );
        }
        Some(Self::new(#[verifier::truncate] (raw as i8)))
    }

    fn into_bits(self) -> (r: Self::Bits) {
        let raw = self.value();
        proof {
            <i8 as IsStorageForBits<LEN>>::lemma_storage();
            <i8 as Integer>::lemma_bits();
            lemma_sibling_low_bits(0, 0, 0, 0, raw, 0, 0, 0, LEN as u64);
            UInt::<u8, LEN>::lemma_new_low_bits((raw as u8) as u64, self.spec_word());
        }
        UInt::new(#[verifier::truncate] (raw as u8))
    }
}

impl<const LEN: usize> Bits for SInt<i8, LEN>
where
    i8: IsStorageForBits<LEN>,
    u8: IsStorageForBits<LEN>,
{
    open spec fn spec_valid(self) -> bool {
        self.wf()
    }

    fn from_bits(value: Self::Bits) -> (r: Self) {
        let raw = value.value();
        proof {
            <u8 as IsStorageForBits<LEN>>::lemma_storage();
            <u8 as Integer>::lemma_bits();
            lemma_sibling_low_bits(raw, 0, 0, 0, 0, 0, 0, 0, LEN as u64);
            Self::lemma_from_word_low_bits(
                ((raw as i8) as i64) as u64,
                value.spec_value(),
            );
        }
        Self::new(#[verifier::truncate] (raw as i8))
    }

    proof fn lemma_from_bits_of_into_bits(x: Self) {
        let word = x.spec_word();
        UInt::<u8, LEN>::lemma_bits();
        UInt::<u8, LEN>::lemma_new_value(word);
        lemma_low_mask(word, LEN as u64, LEN as u64);
        Self::lemma_from_word_low_bits(word & low_mask(LEN as u64), word);
        Self::lemma_from_word_of_word(x);
    }
}

impl<const LEN: usize> TryBits for SInt<i16, LEN>
where
    i16: IsStorageForBits<LEN>,
    u16: IsStorageForBits<LEN>,
{
    type Bits = UInt<u16, LEN>;

    open spec fn spec_try_from_bits(value: Self::Bits) -> Option<Self> {
        Some(Self::spec_from_word(value.spec_value()))
    }

    open spec fn spec_into_bits(self) -> Self::Bits {
        UInt::spec_new(self.spec_word())
    }

    fn try_from_bits(value: Self::Bits) -> (r: Option<Self>) {
        let raw = value.value();
        proof {
            <u16 as IsStorageForBits<LEN>>::lemma_storage();
            <u16 as Integer>::lemma_bits();
            lemma_sibling_low_bits(0, raw, 0, 0, 0, 0, 0, 0, LEN as u64);
            Self::lemma_from_word_low_bits(
                ((raw as i16) as i64) as u64,
                value.spec_value(),
            );
        }
        Some(Self::new(#[verifier::truncate] (raw as i16)))
    }

    fn into_bits(self) -> (r: Self::Bits) {
        let raw = self.value();
        proof {
            <i16 as IsStorageForBits<LEN>>::lemma_storage();
            <i16 as Integer>::lemma_bits();
            lemma_sibling_low_bits(0, 0, 0, 0, 0, raw, 0, 0, LEN as u64);
            UInt::<u16, LEN>::lemma_new_low_bits((raw as u16) as u64, self.spec_word());
        }
        UInt::new(#[verifier::truncate] (raw as u16))
    }
}

impl<const LEN: usize> Bits for SInt<i16, LEN>
where
    i16: IsStorageForBits<LEN>,
    u16: IsStorageForBits<LEN>,
{
    open spec fn spec_valid(self) -> bool {
        self.wf()
    }

    fn from_bits(value: Self::Bits) -> (r: Self) {
        let raw = value.value();
        proof {
            <u16 as IsStorageForBits<LEN>>::lemma_storage();
            <u16 as Integer>::lemma_bits();
            lemma_sibling_low_bits(0, raw, 0, 0, 0, 0, 0, 0, LEN as u64);
            Self::lemma_from_word_low_bits(
                ((raw as i16) as i64) as u64,
                value.spec_value(),
            );
        }
        Self::new(#[verifier::truncate] (raw as i16))
    }

    proof fn lemma_from_bits_of_into_bits(x: Self) {
        let word = x.spec_word();
        UInt::<u16, LEN>::lemma_bits();
        UInt::<u16, LEN>::lemma_new_value(word);
        lemma_low_mask(word, LEN as u64, LEN as u64);
        Self::lemma_from_word_low_bits(word & low_mask(LEN as u64), word);
        Self::lemma_from_word_of_word(x);
    }
}

impl<const LEN: usize> TryBits for SInt<i32, LEN>
where
    i32: IsStorageForBits<LEN>,
    u32: IsStorageForBits<LEN>,
{
    type Bits = UInt<u32, LEN>;

    open spec fn spec_try_from_bits(value: Self::Bits) -> Option<Self> {
        Some(Self::spec_from_word(value.spec_value()))
    }

    open spec fn spec_into_bits(self) -> Self::Bits {
        UInt::spec_new(self.spec_word())
    }

    fn try_from_bits(value: Self::Bits) -> (r: Option<Self>) {
        let raw = value.value();
        proof {
            <u32 as IsStorageForBits<LEN>>::lemma_storage();
            <u32 as Integer>::lemma_bits();
            lemma_sibling_low_bits(0, 0, raw, 0, 0, 0, 0, 0, LEN as u64);
            Self::lemma_from_word_low_bits(
                ((raw as i32) as i64) as u64,
                value.spec_value(),
            );
        }
        Some(Self::new(#[verifier::truncate] (raw as i32)))
    }

    fn into_bits(self) -> (r: Self::Bits) {
        let raw = self.value();
        proof {
            <i32 as IsStorageForBits<LEN>>::lemma_storage();
            <i32 as Integer>::lemma_bits();
            lemma_sibling_low_bits(0, 0, 0, 0, 0, 0, raw, 0, LEN as u64);
            UInt::<u32, LEN>::lemma_new_low_bits((raw as u32) as u64, self.spec_word());
        }
        UInt::new(#[verifier::truncate] (raw as u32))
    }
}

impl<const LEN: usize> Bits for SInt<i32, LEN>
where
    i32: IsStorageForBits<LEN>,
    u32: IsStorageForBits<LEN>,
{
    open spec fn spec_valid(self) -> bool {
        self.wf()
    }

    fn from_bits(value: Self::Bits) -> (r: Self) {
        let raw = value.value();
        proof {
            <u32 as IsStorageForBits<LEN>>::lemma_storage();
            <u32 as Integer>::lemma_bits();
            lemma_sibling_low_bits(0, 0, raw, 0, 0, 0, 0, 0, LEN as u64);
            Self::lemma_from_word_low_bits(
                ((raw as i32) as i64) as u64,
                value.spec_value(),
            );
        }
        Self::new(#[verifier::truncate] (raw as i32))
    }

    proof fn lemma_from_bits_of_into_bits(x: Self) {
        let word = x.spec_word();
        UInt::<u32, LEN>::lemma_bits();
        UInt::<u32, LEN>::lemma_new_value(word);
        lemma_low_mask(word, LEN as u64, LEN as u64);
        Self::lemma_from_word_low_bits(word & low_mask(LEN as u64), word);
        Self::lemma_from_word_of_word(x);
    }
}

impl<const LEN: usize> TryBits for SInt<i64, LEN>
where
    i64: IsStorageForBits<LEN>,
    u64: IsStorageForBits<LEN>,
{
    type Bits = UInt<u64, LEN>;

    open spec fn spec_try_from_bits(value: Self::Bits) -> Option<Self> {
        Some(Self::spec_from_word(value.spec_value()))
    }

    open spec fn spec_into_bits(self) -> Self::Bits {
        UInt::spec_new(self.spec_word())
    }

    fn try_from_bits(value: Self::Bits) -> (r: Option<Self>) {
        let raw = value.value();
        proof {
            <u64 as IsStorageForBits<LEN>>::lemma_storage();
            <u64 as Integer>::lemma_bits();
            lemma_sibling_low_bits(0, 0, 0, raw, 0, 0, 0, 0, LEN as u64);
            Self::lemma_from_word_low_bits(
                ((raw as i64) as i64) as u64,
                value.spec_value(),
            );
        }
        Some(Self::new(#[verifier::truncate] (raw as i64)))
    }

    fn into_bits(self) -> (r: Self::Bits) {
        let raw = self.value();
        proof {
            <i64 as IsStorageForBits<LEN>>::lemma_storage();
            <i64 as Integer>::lemma_bits();
            lemma_sibling_low_bits(0, 0, 0, 0, 0, 0, 0, raw, LEN as u64);
            UInt::<u64, LEN>::lemma_new_low_bits((raw as u64) as u64, self.spec_word());
        }
        UInt::new(#[verifier::truncate] (raw as u64))
    }
}

impl<const LEN: usize> Bits for SInt<i64, LEN>
where
    i64: IsStorageForBits<LEN>,
    u64: IsStorageForBits<LEN>,
{
    open spec fn spec_valid(self) -> bool {
        self.wf()
    }

    fn from_bits(value: Self::Bits) -> (r: Self) {
        let raw = value.value();
        proof {
            <u64 as IsStorageForBits<LEN>>::lemma_storage();
            <u64 as Integer>::lemma_bits();
            lemma_sibling_low_bits(0, 0, 0, raw, 0, 0, 0, 0, LEN as u64);
            Self::lemma_from_word_low_bits(
                ((raw as i64) as i64) as u64,
                value.spec_value(),
            );
        }
        Self::new(#[verifier::truncate] (raw as i64))
    }

    proof fn lemma_from_bits_of_into_bits(x: Self) {
        let word = x.spec_word();
        UInt::<u64, LEN>::lemma_bits();
        UInt::<u64, LEN>::lemma_new_value(word);
        lemma_low_mask(word, LEN as u64, LEN as u64);
        Self::lemma_from_word_low_bits(word & low_mask(LEN as u64), word);
        Self::lemma_from_word_of_word(x);
    }
}

/// What a single bit holds once it is kept in a one-bit integer.
proof fn lemma_one_bit()
    by (bit_vector)
    ensures
        0u64 & low_mask(1) == 0,
        1u64 & low_mask(1) == 1,
{
}

impl TryBits for bool {
    type Bits = UInt<u8, 1>;

    /// A set bit stands for `true`, a clear bit for `false`.
    open spec fn spec_try_from_bits(value: Self::Bits) -> Option<Self> {
        Some(value.spec_value() == 1)
    }

    open spec fn spec_into_bits(self) -> Self::Bits {
        UInt::spec_new(
            if self {
                1
            } else {
                0
            },
        )
    }

    fn try_from_bits(value: Self::Bits) -> (r: Option<Self>) {
        Some(value.value() == 1)
    }

    fn into_bits(self) -> (r: Self::Bits) {
        let bit: u8 = if self {
            1
        } else {
            0
        };
        UInt::new(bit)
    }
}

impl Bits for bool {
    open spec fn spec_valid(self) -> bool {
        true
    }

    fn from_bits(value: Self::Bits) -> (r: Self) {
        value.value() == 1
    }

    proof fn lemma_from_bits_of_into_bits(x: Self) {
        lemma_one_bit();
        UInt::<u8, 1>::lemma_bits();
        UInt::<u8, 1>::lemma_new_value(0);
        UInt::<u8, 1>::lemma_new_value(1);
    }
}

} // verus!
