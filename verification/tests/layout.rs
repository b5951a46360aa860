use bitos::layout::{is_exhaustive, variant_index, Bitrange, LayoutError};

#[test]
fn ranges_as_declared() {
    let bit = Bitrange::single(7);
    assert_eq!(bit, Bitrange::HalfOpen { start: 7, end: Some(8) });
    assert_eq!(bit.start(), 7);
    assert_eq!(bit.end(), Some(8));
    let open = Bitrange::half_open(None, Some(7));
    assert_eq!(open, Bitrange::HalfOpen { start: 0, end: Some(7) });
    let tail = Bitrange::half_open(Some(32), None);
    assert_eq!(tail.start(), 32);
    assert_eq!(tail.end(), None);
    let closed = Bitrange::closed(Some(2), Some(5));
    assert_eq!(closed, Bitrange::Closed { start: 2, end: Some(6) });
    assert_eq!(Bitrange::closed(None, None), Bitrange::Closed { start: 0, end: None });
}

#[test]
fn ranges_in_a_record() {
    let tail = Bitrange::half_open(Some(32), None);
    assert_eq!(tail.resolve(40), (32, 40));
    assert_eq!(tail.len(40), 8);
    assert_eq!(Bitrange::half_open(Some(0), Some(7)).resolve(8), (0, 7));
    assert_eq!(Bitrange::half_open(Some(5), Some(3)).len(8), 0);
    assert_eq!(Bitrange::closed(Some(2), Some(5)).len(8), 4);
}

#[test]
fn layout_checks() {
    let age = Bitrange::half_open(Some(0), Some(7));
    assert_eq!(age.check(8, 7), Ok(()));
    assert_eq!(age.check(8, 8), Err(LayoutError::WrongBitLength));
    assert_eq!(age.check(6, 7), Err(LayoutError::EndOutOfRange));
    let far = Bitrange::half_open(Some(9), Some(10));
    assert_eq!(far.check(8, 1), Err(LayoutError::StartOutOfRange));
    assert!(far.start_out_of_range(8));
    assert!(far.end_out_of_range(8));
    assert!(!age.start_out_of_range(8));
    assert!(!age.end_out_of_range(7));
    assert!(age.end_out_of_range(6));
    let at_end = Bitrange::half_open(Some(8), None);
    assert_eq!(at_end.check(8, 0), Ok(()));
    assert_eq!(at_end.check(8, 1), Err(LayoutError::WrongBitLength));
}

#[test]
fn overlapping_ranges() {
    let age = Bitrange::half_open(Some(0), Some(7));
    let alive = Bitrange::single(7);
    assert!(!age.overlaps(&alive, 8));
    assert!(!alive.overlaps(&age, 8));
    let flag = Bitrange::closed(Some(6), Some(7));
    assert!(age.overlaps(&flag, 8));
    assert!(flag.overlaps(&alive, 8));
    let empty = Bitrange::half_open(Some(3), Some(3));
    assert!(!empty.overlaps(&age, 8));
    assert!(Bitrange::half_open(Some(4), None).overlaps(&flag, 8));
}

#[test]
fn field_masks() {
    assert_eq!(Bitrange::half_open(Some(0), Some(7)).mask(8), 0x7f);
    assert_eq!(Bitrange::single(7).mask(8), 0x80);
    assert_eq!(Bitrange::half_open(Some(32), None).mask(40), 0xff_0000_0000);
    assert_eq!(Bitrange::half_open(None, None).mask(64), u64::MAX);
    assert_eq!(Bitrange::half_open(Some(64), None).mask(64), 0);
    assert_eq!(Bitrange::half_open(Some(3), Some(3)).mask(8), 0);
}

#[test]
fn exhaustive_enums() {
    assert!(is_exhaustive(0, 1));
    assert!(is_exhaustive(2, 4));
    assert!(!is_exhaustive(2, 3));
    assert!(!is_exhaustive(2, 5));
    assert!(!is_exhaustive(3, 0));
    assert!(is_exhaustive(10, 1024));
    assert!(!is_exhaustive(64, usize::MAX));
    assert!(!is_exhaustive(200, 4));
}

#[test]
fn variant_of_a_pattern() {
    assert_eq!(variant_index(&[0, 1, 2], 2), Some(2));
    assert_eq!(variant_index(&[0, 1, 2], 3), None);
    assert_eq!(variant_index(&[5, 9, 5], 5), Some(0));
    assert_eq!(variant_index(&[], 0), None);
}
