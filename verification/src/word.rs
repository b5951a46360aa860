//! The raw storage word.
//!
//! Every value of this crate is stored in a native word of at most 64 bits.
//! This module says, over `u64`, what it means to read and to write single
//! bits and bit ranges of such a word, and holds the calls that do the bit
//! work. Bits are counted from the least significant one, which is bit 0.

use vstd::arithmetic::div_mod::{
    lemma_fundamental_div_mod, lemma_mod_equivalence, lemma_mod_multiples_basic, lemma_small_mod,
};
use vstd::arithmetic::power2::{
    lemma2_to64, lemma2_to64_rest, lemma_pow2_pos, lemma_pow2_unfold, pow2,
};
use vstd::bits::{
    lemma_u64_low_bits_mask_is_mod, lemma_u64_pow2_no_overflow, lemma_u64_shl_is_mul,
    low_bits_mask,
};
use vstd::prelude::*;

verus! {

/// The word whose low `n` bits are set and whose other bits are clear:
/// `2^n - 1`, and all 64 bits once `n` reaches 64.
pub open spec fn low_mask(n: u64) -> u64 {
    if n >= 64 {
        u64::MAX
    } else {
        ((1u64 << n) - 1) as u64
    }
}

/// Whether bit `index` of `word` is set.
pub open spec fn bit_of(word: u64, index: u64) -> bool {
    (word >> index) & 1 == 1
}

/// The word with a single bit set at `index` if `value` holds, else zero.
pub open spec fn bit_at(index: u64, value: bool) -> u64 {
    if value {
        1u64 << index
    } else {
        0u64
    }
}

/// `word` with bit `index` replaced by `value`.
pub open spec fn with_bit_of(word: u64, index: u64, value: bool) -> u64 {
    (word & !(1u64 << index)) | bit_at(index, value)
}

/// The bits `start..end` of `word`, moved down to bit 0 and zero-extended.
pub open spec fn bits_of(word: u64, start: u64, end: u64) -> u64 {
    (word >> start) & low_mask((end - start) as u64)
}

/// `word` with its bits `start..end` replaced by the low `end - start` bits
/// of `value`.
pub open spec fn with_bits_of(word: u64, start: u64, end: u64, value: u64) -> u64 {
    (word & !(low_mask((end - start) as u64) << start)) | ((value & low_mask(
        (end - start) as u64,
    )) << start)
}

/// The word in which exactly the bits `start..end` are set.
pub open spec fn range_mask(start: u64, end: u64) -> u64 {
    low_mask((end - start) as u64) << start
}

/// The word that keeps the low `n` bits of `word` and holds, in every bit
/// above them, a copy of bit `n - 1`: the two's complement reading of those
/// `n` bits, written out over all 64.
pub open spec fn sign_extend_of(word: u64, n: u64) -> u64 {
    if n == 0 {
        0
    } else if n >= 64 {
        word
    } else if bit_of(word, (n - 1) as u64) {
        word | !low_mask(n)
    } else {
        word & low_mask(n)
    }
}

/// The integer that the low `n` bits of `word` stand for in two's
/// complement.
pub open spec fn signed_of(word: u64, n: u64) -> i64 {
    sign_extend_of(word, n) as i64
}

/// The mask of the low `bits` bits.
pub fn unsigned_mask(bits: usize) -> (mask: u64)
    ensures
        mask == low_mask(bits as u64),
{
    if bits >= 64 {
        u64::MAX
    } else {
        let n: u64 = bits as u64;
        assert(1u64 << n >= 1) by (bit_vector)
            requires
                n < 64,
        ;
        (1u64 << n) - 1
    }
}

/// The mask of the low `bits` bits, as a signed word.
pub fn signed_mask(bits: usize) -> (mask: i64)
    ensures
        mask == low_mask(bits as u64) as i64,
{
    unsigned_mask(bits) as i64
}

/// The low `n` bits of `value`, read in two's complement: `value` is masked
/// to `n` bits, and bit `n - 1` is then copied into every bit above it.
pub fn sign_extend(value: i64, n: usize) -> (r: i64)
    ensures
        r == signed_of(value as u64, n as u64),
{
    let ghost bits = n as u64;
    let ghost mask = low_mask(bits) as i64;
    assert({
        &&& bits == 0 ==> signed_of(value as u64, bits) == 0
        &&& bits >= 64 ==> signed_of(value as u64, bits) == value
        &&& 1 <= bits < 64 ==> signed_of(value as u64, bits) == ((value & mask) << ((64
            - bits) as u64)) >> ((64 - bits) as u64)
    }) by (bit_vector)
        requires
            mask == low_mask(bits) as i64,
    ;
    if n == 0 {
        0
    } else if n >= 64 {
        value
    } else {
        let rem: u64 = 64 - n as u64;
        let masked = value & signed_mask(n);
        (masked << rem) >> rem
    }
}

/// Reading `n` bits in two's complement gives a number that reads the same
/// in `n` bits and in any larger number of bits, and that depends on the
/// low `n` bits of the word alone.
pub proof fn lemma_signed_of(word: u64, n: u64, wide: u64)
    by (bit_vector)
    requires
        n <= wide,
    ensures
        n >= 1 ==> signed_of(signed_of(word, n) as u64, wide) == signed_of(word, n),
        signed_of(signed_of(word, n) as u64, n) == signed_of(word, n),
        signed_of(word & low_mask(n), n) == signed_of(word, n),
        (signed_of(word, n) as u64) & low_mask(n) == word & low_mask(n),
        signed_of((word as i64) as u64, n) == signed_of(word, n),
{
}

/// A shift of one is a power of two, and the mask of `n` bits is one less
/// than the `n`-th power of two.
pub proof fn lemma_low_mask_is_pow2(n: u64)
    requires
        n <= 64,
    ensures
        low_mask(n) == pow2(n as nat) - 1,
        n < 64 ==> (1u64 << n) == pow2(n as nat),
{
    lemma2_to64();
    if n < 64 {
        lemma_u64_pow2_no_overflow(n as nat);
        lemma_u64_shl_is_mul(1, n);
    }
}

/// Keeping the low `n` bits of a word is taking it modulo `2^n`.
pub proof fn lemma_low_mask_is_mod(word: u64, n: u64)
    requires
        n <= 64,
    ensures
        word & low_mask(n) == word as int % pow2(n as nat) as int,
{
    lemma_low_mask_is_pow2(n);
    lemma_pow2_pos(n as nat);
    if n < 64 {
        lemma_u64_pow2_no_overflow(n as nat);
        lemma_u64_low_bits_mask_is_mod(word, n as nat);
        assert(low_bits_mask(n as nat) as u64 == low_mask(n));
    } else {
        lemma_low_mask(word, 64, 64);
        lemma2_to64();
        lemma_small_mod(word as nat, pow2(64));
    }
}

/// What the bits say of the two's complement reading of `n` bits, for `n`
/// below 64.
proof fn lemma_signed_of_bits(x: i64, n: u64)
    by (bit_vector)
    requires
        1 <= n < 64,
    ensures
        -(1u64 << ((n - 1) as u64)) <= signed_of(x as u64, n) < (1u64 << ((n - 1) as u64)),
        signed_of(x as u64, n) == (x as u64) & low_mask(n) || signed_of(x as u64, n) == ((x as u64)
            & low_mask(n)) - (1u64 << n),
        (1u64 << n) == 2 * (1u64 << ((n - 1) as u64)),
        x as u64 == x || x as u64 == x + 0x1_0000_0000_0000_0000,
        (1u64 << n) * (1u64 << ((64 - n) as u64)) == 0x1_0000_0000_0000_0000,
{
}

/// Reading all 64 bits of a number gives the number back.
proof fn lemma_signed_of_all_bits(x: i64)
    by (bit_vector)
    ensures
        signed_of(x as u64, 64) == x,
{
}

/// A multiple of `m` that lies strictly between `-m` and `m` is zero.
proof fn lemma_small_multiple(d: int, m: int)
    requires
        0 < m,
        -m < d < m,
        d % m == 0,
    ensures
        d == 0,
{
    lemma_fundamental_div_mod(d, m);
    let q = d / m;
    assert(d == m * q);
    assert(q == 0) by (nonlinear_arith)
        requires
            d == m * q,
            0 < m,
            -m < d < m,
    ;
}

/// The two's complement reading of the low `n` bits of a number `x` is the
/// one integer between `-2^(n-1)` and `2^(n-1) - 1` that is congruent to
/// `x` modulo `2^n`: it lies in that range, it differs from `x` by a
/// multiple of `2^n`, and any `y` of which both hold is equal to it.
pub proof fn lemma_signed_of_congruent(x: i64, n: u64, y: int)
    requires
        1 <= n <= 64,
    ensures
        -pow2((n - 1) as nat) <= signed_of(x as u64, n) < pow2((n - 1) as nat),
        (signed_of(x as u64, n) - x) % pow2(n as nat) as int == 0,
        (-pow2((n - 1) as nat) <= y < pow2((n - 1) as nat) && (y - x) % pow2(n as nat) as int == 0)
            ==> y == signed_of(x as u64, n),
{
    let r = signed_of(x as u64, n) as int;
    let p = pow2(n as nat) as int;
    let h = pow2((n - 1) as nat) as int;
    let xu = (x as u64) as int;
    lemma_pow2_pos(n as nat);
    lemma_pow2_unfold(n as nat);
    lemma2_to64();
    lemma2_to64_rest();
    if n < 64 {
        lemma_signed_of_bits(x, n);
        lemma_low_mask_is_pow2(n);
        lemma_low_mask_is_pow2((n - 1) as u64);
        lemma_low_mask_is_pow2((64 - n) as u64);
        lemma_low_mask_is_mod(x as u64, n);
        let q = pow2((64 - n) as nat) as int;
        let low = xu % p;
        lemma_fundamental_div_mod(xu, p);
        let k: int = if r == low {
            0
        } else {
            1
        };
        let c: int = if xu == x {
            0
        } else {
            1
        };
        assert(p * q == 0x1_0000_0000_0000_0000);
        assert(r - x == (c * q - k - xu / p) * p) by (nonlinear_arith)
            requires
                r == low - k * p,
                xu == x + c * (p * q),
                xu == p * (xu / p) + low,
        ;
        lemma_mod_multiples_basic(c * q - k - xu / p, p);
    } else {
        lemma_signed_of_all_bits(x);
        assert(r - x == 0);
        lemma_small_mod(0, p as nat);
    }
    if -h <= y < h && (y - x) % p == 0 {
        lemma_mod_equivalence(y, x as int, p);
        lemma_mod_equivalence(r, x as int, p);
        lemma_mod_equivalence(y, r, p);
        lemma_small_multiple(y - r, p);
    }
}

/// Casting between a word and the signed number with the same bits loses
/// nothing.
pub proof fn lemma_signed_cast(word: u64, x: i64)
    by (bit_vector)
    ensures
        (word as i64) as u64 == word,
        (x as u64) as i64 == x,
{
}

/// For a word in two's complement form of `n` bits, writing back the bits
/// that were read from a range, themselves taken in that form, leaves the
/// word as it was.
#[verifier::rlimit(100)]
pub proof fn lemma_signed_with_bits_of_same(word: u64, n: u64, start: u64, end: u64)
    by (bit_vector)
    requires
        start <= end <= 64,
        1 <= n <= 64,
        word == sign_extend_of(word, n),
    ensures
        sign_extend_of(
            with_bits_of(word, start, end, sign_extend_of(bits_of(word, start, end), n)),
            n,
        ) == word,
{
}

/// Writing back the bits that were read from a range leaves the word as it
/// was.
pub proof fn lemma_with_bits_of_same(word: u64, start: u64, end: u64)
    by (bit_vector)
    requires
        start <= end <= 64,
    ensures
        with_bits_of(word, start, end, bits_of(word, start, end)) == word,
{
}

/// Writes to two ranges that share no bit give the same word in either
/// order.
pub proof fn lemma_with_bits_of_commute(
    word: u64,
    start1: u64,
    end1: u64,
    value1: u64,
    start2: u64,
    end2: u64,
    value2: u64,
)
    by (bit_vector)
    requires
        start1 <= end1 <= 64,
        start2 <= end2 <= 64,
        end1 <= start2 || end2 <= start1,
    ensures
        with_bits_of(with_bits_of(word, start1, end1, value1), start2, end2, value2)
            == with_bits_of(with_bits_of(word, start2, end2, value2), start1, end1, value1),
{
}

/// After a write to a range, each bit inside the range is the matching bit
/// of the value written, whatever the word held there before, and each bit
/// outside the range is what it was.
pub proof fn lemma_bit_of_with_bits_of(word: u64, start: u64, end: u64, value: u64, index: u64)
    by (bit_vector)
    requires
        start <= end <= 64,
        index < 64,
    ensures
        bit_of(with_bits_of(word, start, end, value), index) == (if start <= index && index < end {
            bit_of(value, (index - start) as u64)
        } else {
            bit_of(word, index)
        }),
{
}

/// Reading a range that was just written gives the low bits of the value
/// written.
pub proof fn lemma_bits_of_with_bits_of(word: u64, start: u64, end: u64, value: u64)
    by (bit_vector)
    requires
        start <= end <= 64,
    ensures
        bits_of(with_bits_of(word, start, end, value), start, end) == value & low_mask(
            (end - start) as u64,
        ),
{
}

/// What a mask of `n` bits keeps of a word, and what a wider mask keeps of
/// the result.
pub proof fn lemma_low_mask(word: u64, n: u64, wide: u64)
    by (bit_vector)
    requires
        n <= wide,
    ensures
        word & low_mask(n) <= low_mask(n),
        (word & low_mask(n)) & low_mask(wide) == word & low_mask(n),
        word <= low_mask(n) <==> word & low_mask(n) == word,
        word <= low_mask(n) ==> word <= low_mask(wide),
        0u64 & low_mask(n) == 0,
{
}

/// The bits read from a word that fits in `n` bits fit in `n` bits, and in
/// as many bits as the range is long.
pub proof fn lemma_bits_of_fits(word: u64, n: u64, start: u64, end: u64)
    by (bit_vector)
    requires
        start <= end <= 64,
        word <= low_mask(n),
    ensures
        bits_of(word, start, end) & low_mask(n) == bits_of(word, start, end),
        bits_of(word, start, end) <= low_mask((end - start) as u64),
{
}

/// An empty range reads as zero, and a write to it changes nothing.
pub proof fn lemma_empty_range(word: u64, start: u64, value: u64)
    by (bit_vector)
    ensures
        bits_of(word, start, start) == 0,
        with_bits_of(word, start, start, value) == word,
{
}

/// The low `n` bits of a word after a write depend on the low `n` bits of
/// the word before it and on nothing else of that word.
pub proof fn lemma_with_bits_of_low_bits(word: u64, n: u64, start: u64, end: u64, value: u64)
    by (bit_vector)
    requires
        start <= end <= 64,
    ensures
        with_bits_of(word & low_mask(n), start, end, value) & low_mask(n) == with_bits_of(
            word,
            start,
            end,
            value,
        ) & low_mask(n),
{
}

/// Cutting a word to `n` bits does not change what a range reads that ends
/// at bit `n` or below.
pub proof fn lemma_bits_of_low_bits(word: u64, n: u64, start: u64, end: u64)
    by (bit_vector)
    requires
        start <= end <= n,
    ensures
        bits_of(word & low_mask(n), start, end) == bits_of(word, start, end),
{
}

/// A bit of the low `n` bits of a word is the bit of the word below `n`,
/// and clear from `n` on.
pub proof fn lemma_bit_of_low_bits(word: u64, n: u64, index: u64)
    by (bit_vector)
    ensures
        bit_of(word & low_mask(n), index) == (index < n && bit_of(word, index)),
{
}

/// `bitut::BitUtils::bit` on a `u64`: the word is shifted right by `index`,
/// which leaves zero once `index` is 64 or more, and the lowest bit of what
/// is left is tested.
#[verifier::external_body]
pub(crate) fn word_bit(word: u64, index: u8) -> (r: bool)
    ensures
        r == bit_of(word, index as u64),
{
    bitut::BitUtils::bit(word, index)
}

/// `bitut::BitUtils::try_bit` on a `u64`: the bit at `index`, and nothing
/// where `index` is 64 or more.
#[verifier::external_body]
pub(crate) fn word_try_bit(word: u64, index: u8) -> (r: Option<bool>)
    ensures
        r == if index < 64 {
            Some(bit_of(word, index as u64))
        } else {
            None
        },
{
    bitut::BitUtils::try_bit(word, index)
}

/// `bitut::BitUtils::with_bit` on a `u64`: bit `index` is cleared and then
/// set to `value`; where `index` is 64 or more the word comes back as it is.
#[verifier::external_body]
pub(crate) fn word_with_bit(word: u64, index: u8, value: bool) -> (r: u64)
    ensures
        r == if index < 64 {
            with_bit_of(word, index as u64, value)
        } else {
            word
        },
{
    bitut::BitUtils::with_bit(word, index, value)
}

/// `bitut::BitUtils::try_with_bit` on a `u64`: as `with_bit`, and nothing
/// where `index` is 64 or more.
#[verifier::external_body]
pub(crate) fn word_try_with_bit(word: u64, index: u8, value: bool) -> (r: Option<u64>)
    ensures
        r == if index < 64 {
            Some(with_bit_of(word, index as u64, value))
        } else {
            None
        },
{
    bitut::BitUtils::try_with_bit(word, index, value)
}

/// `bitut::BitUtils::bits` on a `u64`: the word is shifted right by `start`
/// and masked to `end - start` bits; zero where `start` is 64 or more or
/// `end` lies below `start`.
#[verifier::external_body]
pub(crate) fn word_bits(word: u64, start: u8, end: u8) -> (r: u64)
    ensures
        r == (if start < 64 && start <= end {
            bits_of(word, start as u64, end as u64)
        } else {
            0
        }),
{
    bitut::BitUtils::bits(word, start, end)
}

/// `bitut::BitUtils::try_bits` on a `u64`: as `bits` for a range that is not
/// empty and ends at bit 64 or below, and nothing for any other range.
#[verifier::external_body]
pub(crate) fn word_try_bits(word: u64, start: u8, end: u8) -> (r: Option<u64>)
    ensures
        r == (if start < end && end <= 64 {
            Some(bits_of(word, start as u64, end as u64))
        } else {
            None
        }),
{
    bitut::BitUtils::try_bits(word, start, end)
}

/// `bitut::BitUtils::with_bits` on a `u64`: the bits `start..end` are cleared
/// and the low `end - start` bits of `value` are put in their place; where
/// `start` is 64 or more or the range is empty the word comes back as it is.
#[verifier::external_body]
pub(crate) fn word_with_bits(word: u64, start: u8, end: u8, value: u64) -> (r: u64)
    ensures
        r == (if start < 64 && start < end {
            with_bits_of(word, start as u64, end as u64, value)
        } else {
            word
        }),
{
    bitut::BitUtils::with_bits(word, start, end, value)
}

/// `bitut::BitUtils::try_with_bits` on a `u64`: as `with_bits` for a range
/// that is not empty and ends at bit 64 or below, and nothing for any other
/// range.
#[verifier::external_body]
pub(crate) fn word_try_with_bits(word: u64, start: u8, end: u8, value: u64) -> (r: Option<u64>)
    ensures
        r == (if start < end && end <= 64 {
            Some(with_bits_of(word, start as u64, end as u64, value))
        } else {
            None
        }),
{
    bitut::BitUtils::try_with_bits(word, start, end, value)
}

} // verus!
