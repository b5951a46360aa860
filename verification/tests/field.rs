use bitos::field;
use bitos::integer::alias::{i5, u2, u4, u40, u6};
use bitos::integer::UnsignedInt;

#[test]
fn age_and_flag_in_a_byte() {
    let mut person = 0u8;
    field::set(&mut person, 0, 6, u6::new(50));
    field::set(&mut person, 6, 8, u2::new(2));
    assert_eq!(person, 0xB2);
    let age: u6 = field::get(person, 0, 6);
    let flag: u2 = field::get(person, 6, 8);
    assert_eq!(age.value(), 50);
    assert_eq!(flag.value(), 2);
    assert_eq!(field::with(field::with(0u8, 6, 8, u2::new(2)), 0, 6, u6::new(50)), 0xB2);
}

#[test]
fn fields_of_other_types() {
    let word = field::with(0u16, 3, 8, i5::new(-3));
    assert_eq!(word, 0b11101 << 3);
    let back: i5 = field::get(word, 3, 8);
    assert_eq!(back.value(), -3);
    let word = field::with(word, 15, 16, true);
    assert_eq!(word, 0x8000 | (0b11101 << 3));
    assert!(field::get::<u16, bool>(word, 15, 16));
    assert!(!field::get::<u16, bool>(word, 0, 1));
    assert_eq!(field::try_get::<u16, bool>(word, 15, 16), Some(true));
    let wide = field::with(u40::new(0), 8, 40, 0xdead_beefu32);
    assert_eq!(UnsignedInt::value(wide), 0xde_adbe_ef00);
    assert_eq!(field::get::<u40, u32>(wide, 8, 40), 0xdead_beef);
}

#[test]
fn elements_of_an_array_field() {
    let mut word = 0u32;
    for i in 0..4 {
        field::set_at(&mut word, 8, 4, i, u4::new(i as u8 + 1));
    }
    assert_eq!(word, 0x0043_2100);
    let third: Option<u4> = field::get_at(word, 8, 4, 2);
    assert_eq!(third.map(u4::value), Some(3));
    assert_eq!(field::get_at::<u32, u4>(word, 8, 4, 4), None);
    assert_eq!(field::with_at(word, 8, 4, 4, u4::new(15)), word);
    assert_eq!(field::with_at(word, 8, 4, 0, u4::new(15)), 0x0043_2f00);
}
