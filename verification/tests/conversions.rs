use bitos::integer::alias::{i13, i5, u1, u2, u5};
use bitos::integer::UnsignedInt;
use bitos::layout::{is_exhaustive, variant_index};
use bitos::{Bits, TryBits};

#[derive(Clone, Copy, Debug, PartialEq, Eq)]
enum Color {
    Red,
    Green,
    Blue,
}

const COLORS: [Color; 3] = [Color::Red, Color::Green, Color::Blue];

impl TryBits for Color {
    type Bits = u2;

    fn try_from_bits(value: u2) -> Option<Self> {
        variant_index(&[0, 1, 2], UnsignedInt::value(value)).map(|i| COLORS[i])
    }

    fn into_bits(self) -> u2 {
        <u2 as UnsignedInt>::new(self as u64)
    }

    fn spec_try_from_bits(_value: u2) -> Option<Self> {
        unreachable!()
    }

    fn spec_into_bits(self) -> u2 {
        unreachable!()
    }
}

#[derive(Clone, Copy, Debug, PartialEq, Eq)]
enum Side {
    Left,
    Right,
}

impl TryBits for Side {
    type Bits = u1;

    fn try_from_bits(value: u1) -> Option<Self> {
        variant_index(&[0, 1], UnsignedInt::value(value)).map(|i| [Side::Left, Side::Right][i])
    }

    fn into_bits(self) -> u1 {
        <u1 as UnsignedInt>::new(self as u64)
    }

    fn spec_try_from_bits(_value: u1) -> Option<Self> {
        unreachable!()
    }

    fn spec_into_bits(self) -> u1 {
        unreachable!()
    }
}

impl Bits for Side {
    fn from_bits(value: u1) -> Self {
        match Self::try_from_bits(value) {
            Some(side) => side,
            None => unreachable!(),
        }
    }

    fn spec_valid(self) -> bool {
        unreachable!()
    }

    fn lemma_from_bits_of_into_bits(_x: Self) {
    }
}

#[test]
fn exhaustive_enum() {
    assert!(is_exhaustive(1, 2));
    assert!(!is_exhaustive(2, 3));
    for side in [Side::Left, Side::Right] {
        assert_eq!(Side::from_bits(side.into_bits()), side);
    }
}

#[test]
fn enum_with_unused_pattern() {
    let unused = <u2 as UnsignedInt>::new(3);
    assert_eq!(Color::try_from_bits(unused), None);
    for color in COLORS {
        assert_eq!(Color::try_from_bits(color.into_bits()), Some(color));
    }
}

#[test]
fn bool_is_one_bit() {
    assert_eq!(true.into_bits().value(), 1);
    assert_eq!(false.into_bits().value(), 0);
    assert!(bool::from_bits(true.into_bits()));
    assert!(!bool::from_bits(false.into_bits()));
    assert_eq!(bool::try_from_bits(true.into_bits()), Some(true));
}

#[test]
fn signed_minus_one_as_raw_bits() {
    let x = i5::new(-1);
    assert_eq!(x.value(), -1);
    assert_eq!(x.into_bits().value(), 31);
    assert_eq!(x.into_bits(), u5::new(0b11111));
    assert_eq!(i5::from_bits(u5::new(31)), x);
}

#[test]
fn round_trip_through_raw_bits() {
    for v in -16i8..=15 {
        let x = i5::new(v);
        assert_eq!(x.value(), v);
        assert_eq!(i5::from_bits(x.into_bits()), x);
        assert_eq!(i5::try_from_bits(x.into_bits()), Some(x));
    }
    for v in [-4096i16, -1, 0, 1, 4095] {
        let x = i13::new(v);
        assert_eq!(i13::from_bits(x.into_bits()).value(), v);
    }
    for v in [i8::MIN, -1, 0, 1, i8::MAX] {
        assert_eq!(i8::from_bits(v.into_bits()), v);
    }
    assert_eq!((-1i8).into_bits(), 0xffu8);
    assert_eq!((-2i64).into_bits(), u64::MAX - 1);
    assert_eq!(i32::try_from_bits(0x8000_0000u32), Some(i32::MIN));
    for v in 0u8..32 {
        let x = u5::new(v);
        assert_eq!(u5::from_bits(x.into_bits()), x);
    }
    assert_eq!(u16::from_bits(0xbeefu16.into_bits()), 0xbeef);
}
