use bitos::integer::alias::{i13, i5, i63, u1, u4, u5, u63, u7};
use bitos::integer::{Integer, SInt, SignedInt, UInt, UnsignedInt, ValueDoesNotFitErr};
use bitos::word::{sign_extend, signed_mask, unsigned_mask};

#[test]
fn new_masks_to_width() {
    let x = u5::new(0b1110_1101);
    assert_eq!(x.value(), 0b0_1101);
    assert_eq!(<u5 as Integer>::BITS, 5);
    for n in 0u16..=255 {
        let v = n as u8;
        assert_eq!(u7::new(v).value(), v & 0x7f);
        assert_eq!(u1::new(v).value(), v & 1);
    }
    assert_eq!(u63::new(u64::MAX).value(), u64::MAX >> 1);
    assert_eq!(<u5 as UnsignedInt>::new(0xffff_ffff_ffff_ffed).value(), 13);
    assert_eq!(UnsignedInt::value(x), 13u64);
}

#[test]
fn native_integers_keep_their_low_bits() {
    assert_eq!(<u8 as UnsignedInt>::new(0x1234), 0x34);
    assert_eq!(<u16 as UnsignedInt>::new(0x1_2345), 0x2345);
    assert_eq!(<u32 as UnsignedInt>::new(u64::MAX), u32::MAX);
    assert_eq!(<u64 as UnsignedInt>::new(u64::MAX), u64::MAX);
    assert_eq!(UnsignedInt::value(0xabu8), 0xab);
    assert_eq!(<i8 as SignedInt>::new(0x17f), 127);
    assert_eq!(<i8 as SignedInt>::new(0x80), -128);
    assert_eq!(<i16 as SignedInt>::new(-1), -1);
    assert_eq!(<i32 as SignedInt>::new(1 << 31), i32::MIN);
    assert_eq!(<i64 as SignedInt>::new(i64::MIN), i64::MIN);
    assert_eq!(SignedInt::value(-5i8), -5i64);
    assert_eq!(<u16 as Integer>::BITS, 16);
    assert_eq!(<i32 as Integer>::STORAGE_BITS, 32);
}

#[test]
fn try_new_checks_the_width() {
    assert_eq!(u4::try_new(15).map(u4::value), Ok(15));
    assert_eq!(u4::try_new(16), Err(ValueDoesNotFitErr));
    assert_eq!(u4::try_new(0).map(u4::value), Ok(0));
    assert_eq!(u4::try_new(u64::MAX), Err(ValueDoesNotFitErr));
    assert!(UInt::<u8, 4>::try_from(16u64).is_err());
    assert_eq!(UInt::<u8, 4>::try_from(9u64), Ok(u4::new(9)));
    assert_eq!(u63::try_new(u64::MAX >> 1).map(u63::value), Ok(u64::MAX >> 1));
    assert!(u63::try_new(1 << 63).is_err());
}

#[test]
fn into_a_64_bit_number() {
    assert_eq!(u64::from(u5::new(0xff)), 31);
    let n: u64 = u63::new(12345).into();
    assert_eq!(n, 12345);
}

#[test]
fn default_and_clone() {
    assert_eq!(u5::default().value(), 0);
    assert_eq!(i5::default().value(), 0);
    let x = u5::new(9);
    assert_eq!(x.clone(), x);
    let y = i5::new(-9);
    assert_eq!(y.clone(), y);
    assert!(u5::new(3) < u5::new(4));
    assert!(i5::new(-3) < i5::new(2));
}

#[test]
fn signed_new_reads_twos_complement() {
    assert_eq!(i5::new(-1).value(), -1);
    assert_eq!(i5::new(31).value(), -1);
    assert_eq!(i5::new(16).value(), -16);
    assert_eq!(i5::new(15).value(), 15);
    assert_eq!(i5::new(47).value(), 15);
    assert_eq!(i5::new(-17).value(), 15);
    assert_eq!(i5::new(i8::MIN).value(), 0);
    assert_eq!(i13::new(4096).value(), -4096);
    assert_eq!(i13::new(-4097).value(), 4095);
    assert_eq!(SInt::<i64, 63>::new(i64::MAX).value(), -1);
    assert_eq!(i63::new(i64::MIN).value(), 0);
    assert_eq!(i63::new(1 << 62).value(), -(1 << 62));
    for v in i8::MIN..=i8::MAX {
        let r = i5::new(v).value();
        assert!((-16..=15).contains(&r));
        assert_eq!((r as i16 - v as i16).rem_euclid(32), 0);
    }
}

#[test]
fn masks() {
    assert_eq!(unsigned_mask(0), 0);
    assert_eq!(unsigned_mask(1), 1);
    assert_eq!(unsigned_mask(5), 0b11111);
    assert_eq!(unsigned_mask(63), u64::MAX >> 1);
    assert_eq!(unsigned_mask(64), u64::MAX);
    assert_eq!(unsigned_mask(65), u64::MAX);
    assert_eq!(signed_mask(4), 15);
    assert_eq!(signed_mask(63), i64::MAX);
    assert_eq!(signed_mask(64), -1);
}

#[test]
fn sign_extension() {
    assert_eq!(sign_extend(0b11111, 5), -1);
    assert_eq!(sign_extend(0b01111, 5), 15);
    assert_eq!(sign_extend(0b10000, 5), -16);
    assert_eq!(sign_extend(-1, 1), -1);
    assert_eq!(sign_extend(2, 1), 0);
    assert_eq!(sign_extend(i64::MAX, 63), -1);
    assert_eq!(sign_extend(i64::MIN, 64), i64::MIN);
    assert_eq!(sign_extend(12345, 0), 0);
    assert_eq!(sign_extend(-7, 100), -7);
}
