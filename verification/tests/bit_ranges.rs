use bitos::integer::alias::{i5, u40, u5};
use bitos::integer::{Integer, UnsignedInt};
use bitos::BitUtils;

const A: u8 = 0b0110_1010;
const B: u16 = 0b1000_1100_1111_0001;
const C: u64 = 0xdead_beef_0bad_f00d;

#[test]
fn bit_reads_one_bit() {
    assert!(!A.bit(0));
    assert!(A.bit(1));
    assert!(A.bit(6));
    assert!(!A.bit(7));
    assert!(C.bit(63));
    assert!(!C.bit(61));
    assert!(B.bit(15));
}

#[test]
fn try_bit_checks_the_index() {
    assert_eq!(A.try_bit(1), Some(true));
    assert_eq!(A.try_bit(7), Some(false));
    assert_eq!(A.try_bit(8), None);
    assert_eq!(B.try_bit(15), Some(true));
    assert_eq!(B.try_bit(16), None);
    assert_eq!(C.try_bit(63), Some(true));
    assert_eq!(C.try_bit(64), None);
    assert_eq!(0xffff_ffffu32.try_bit(32), None);
}

#[test]
fn with_bit_writes_one_bit() {
    assert_eq!(B.with_bit(0, false), 0b1000_1100_1111_0000);
    assert_eq!(B.with_bit(3, true), 0b1000_1100_1111_1001);
    assert_eq!(B.with_bit(15, false), 0b0000_1100_1111_0001);
    assert_eq!(0u64.with_bit(63, true), 1 << 63);
}

#[test]
fn try_with_bit_checks_the_index() {
    assert_eq!(B.try_with_bit(3, true), Some(0b1000_1100_1111_1001));
    assert_eq!(B.try_with_bit(16, true), None);
    assert_eq!(A.try_with_bit(8, true), None);
    assert_eq!(C.try_with_bit(0, false), Some(C - 1));
    assert_eq!(C.try_with_bit(64, false), None);
}

#[test]
fn bits_reads_a_range() {
    assert_eq!(A.bits(0, 4), 0b1010);
    assert_eq!(A.bits(0, 8), A);
    assert_eq!(A.bits(4, 8), 0b0110);
    assert_eq!(A.bits(3, 7), 0b1101);
    assert_eq!(A.bits(5, 5), 0);
    assert_eq!(A.bits(8, 8), 0);
    assert_eq!(C.bits(32, 64), 0xdead_beef);
    assert_eq!(C.bits(0, 64), C);
    assert_eq!(C.bits(64, 64), 0);
}

#[test]
fn try_bits_checks_the_range() {
    assert_eq!(A.try_bits(0, 4), Some(0b1010));
    assert_eq!(A.try_bits(0, 8), Some(A));
    assert_eq!(A.try_bits(3, 3), Some(0));
    assert_eq!(A.try_bits(8, 8), Some(0));
    assert_eq!(A.try_bits(5, 9), None);
    assert_eq!(A.try_bits(9, 9), None);
    assert_eq!(A.try_bits(4, 3), None);
    assert_eq!(C.try_bits(32, 64), Some(0xdead_beef));
    assert_eq!(C.try_bits(32, 65), None);
    assert_eq!(C.try_bits(64, 64), Some(0));
}

#[test]
fn with_bits_writes_a_range() {
    assert_eq!(A.with_bits(0, 3, 0b111), 0b0110_1111);
    assert_eq!(A.with_bits(2, 6, 0b0011), 0b0100_1110);
    assert_eq!(A.with_bits(2, 6, 0b1111_0011), 0b0100_1110);
    assert_eq!(A.with_bits(4, 4, 0xff), A);
    assert_eq!(A.with_bits(0, 8, 0x5a), 0x5a);
    assert_eq!(C.with_bits(0, 32, 0), 0xdead_beef_0000_0000);
    assert_eq!(C.with_bits(0, 64, 7), 7);
}

#[test]
fn try_with_bits_checks_the_range() {
    assert_eq!(A.try_with_bits(0, 3, 0b111), Some(0b0110_1111));
    assert_eq!(A.try_with_bits(2, 8, 0b1111_0011), Some(0b1100_1110));
    assert_eq!(A.try_with_bits(2, 9, 0b1111_0011), None);
    assert_eq!(A.try_with_bits(3, 3, 0xff), Some(A));
    assert_eq!(A.try_with_bits(3, 1, 0xff), None);
    assert_eq!(C.try_with_bits(60, 64, 0), Some(0x0ead_beef_0bad_f00d));
    assert_eq!(C.try_with_bits(60, 65, 0), None);
}

#[test]
fn writing_back_what_was_read() {
    for w in [A as u64, B as u64, C, 0, u64::MAX] {
        for (s, e) in [(0u8, 0u8), (0, 64), (3, 17), (63, 64), (64, 64), (31, 33)] {
            assert_eq!(w.with_bits(s, e, w.bits(s, e)), w);
        }
    }
    let x = u5::new(0b10110);
    assert_eq!(x.with_bits(1, 4, x.bits(1, 4)), x);
    assert_eq!(x.with_bits(0, 8, x.bits(0, 8)), x);
}

#[test]
fn disjoint_writes_commute() {
    let one = C.with_bits(0, 12, 0xabc).with_bits(40, 48, 0x12);
    let other = C.with_bits(40, 48, 0x12).with_bits(0, 12, 0xabc);
    assert_eq!(one, other);
    assert_eq!(one, 0xdead_12ef_0bad_fabc);
    let touching = A.with_bits(0, 4, 0xf).with_bits(4, 8, 0x0);
    assert_eq!(touching, A.with_bits(4, 8, 0x0).with_bits(0, 4, 0xf));
    assert_eq!(touching, 0x0f);
}

#[test]
fn last_write_wins() {
    let w = 0u16.with_bits(0, 8, 0xff).with_bits(4, 12, 0x00);
    assert_eq!(w, 0x000f);
    assert_eq!(w.bits(4, 12), 0);
    let v = 0u16.with_bits(4, 12, 0x00).with_bits(0, 8, 0xff);
    assert_eq!(v, 0x00ff);
    assert_eq!(v.bits(0, 8), 0xff);
}

#[test]
fn width_bounded_values_keep_their_width() {
    let x = u5::new(0b10101);
    assert_eq!(<u5 as Integer>::BITS, 5);
    assert_eq!(<u5 as Integer>::STORAGE_BITS, 8);
    assert!(x.bit(4));
    assert!(!x.bit(7));
    assert_eq!(x.try_bit(7), Some(false));
    assert_eq!(x.try_bit(8), None);
    assert_eq!(x.with_bit(1, true).value(), 0b10111);
    assert_eq!(x.with_bit(7, true), x);
    assert_eq!(x.try_with_bit(8, true), None);
    assert_eq!(x.bits(2, 5).value(), 0b101);
    assert_eq!(x.try_bits(0, 8), Some(x));
    assert_eq!(x.try_bits(0, 9), None);
    assert_eq!(x.with_bits(3, 8, u5::new(0b11111)).value(), 0b11101);
    assert_eq!(x.try_with_bits(3, 9, u5::new(0)), None);
    let y = u40::new(0xff_dead_beef_00);
    assert_eq!(y.value(), 0xff_dead_beef_00 & 0xff_ffff_ffff);
    assert_eq!(y.bits(8, 40).value(), 0xdead_beef);
    assert_eq!(UnsignedInt::value(y.with_bits(0, 8, u40::new(0x7f))), 0xde_adbe_ef7f);
}

#[test]
fn signed_values_work_on_their_bit_pattern() {
    let x = i5::new(-6);
    assert_eq!(<i5 as Integer>::BITS, 5);
    assert!(!x.bit(0));
    assert!(x.bit(1));
    assert!(x.bit(4));
    assert!(x.bit(7));
    assert_eq!(x.try_bit(8), None);
    assert_eq!(x.with_bit(4, false).value(), 0b01010);
    assert_eq!(i5::new(10).with_bit(4, true).value(), -6);
    assert_eq!(x.try_with_bit(0, true).map(i5::value), Some(-5));
    assert_eq!(x.try_with_bit(8, true), None);
    assert_eq!(x.bits(0, 3).value(), 0b010);
    assert_eq!(x.bits(0, 5).value(), -6);
    assert_eq!(x.bits(0, 8).value(), -6);
    assert_eq!(i5::new(3).bits(0, 8).value(), 3);
    assert_eq!(i5::new(3).try_bits(0, 8).map(i5::value), Some(3));
    assert_eq!(x.try_bits(2, 2).map(i5::value), Some(0));
    assert_eq!(x.try_bits(2, 9), None);
    assert_eq!(x.with_bits(0, 2, i5::new(-1)).value(), -5);
    assert_eq!(x.with_bits(0, 5, i5::new(7)).value(), 7);
    assert_eq!(x.try_with_bits(3, 5, i5::new(0)).map(i5::value), Some(2));
    assert_eq!(x.try_with_bits(3, 9, i5::new(0)), None);
    assert_eq!(x.with_bits(1, 4, x.bits(1, 4)), x);
}
