//! Names for the integers of each width: `u1` to `u64` and `i1` to `i64`.
//! The widths 8, 16, 32 and 64 name the native integers.

use crate::integer::{SInt, UInt};
use vstd::prelude::*;

verus! {

#[allow(non_camel_case_types)]
pub type u8 = core::primitive::u8;

#[allow(non_camel_case_types)]
pub type u16 = core::primitive::u16;

#[allow(non_camel_case_types)]
pub type u32 = core::primitive::u32;

#[allow(non_camel_case_types)]
pub type u64 = core::primitive::u64;

#[allow(non_camel_case_types)]
pub type i8 = core::primitive::i8;

#[allow(non_camel_case_types)]
pub type i16 = core::primitive::i16;

#[allow(non_camel_case_types)]
pub type i32 = core::primitive::i32;

#[allow(non_camel_case_types)]
pub type i64 = core::primitive::i64;

#[allow(non_camel_case_types)]
pub type u1 = UInt<u8, 1>;

#[allow(non_camel_case_types)]
pub type u2 = UInt<u8, 2>;

#[allow(non_camel_case_types)]
pub type u3 = UInt<u8, 3>;

#[allow(non_camel_case_types)]
pub type u4 = UInt<u8, 4>;

#[allow(non_camel_case_types)]
pub type u5 = UInt<u8, 5>;

#[allow(non_camel_case_types)]
pub type u6 = UInt<u8, 6>;

#[allow(non_camel_case_types)]
pub type u7 = UInt<u8, 7>;

#[allow(non_camel_case_types)]
pub type u9 = UInt<u16, 9>;

#[allow(non_camel_case_types)]
pub type u10 = UInt<u16, 10>;

#[allow(non_camel_case_types)]
pub type u11 = UInt<u16, 11>;

#[allow(non_camel_case_types)]
pub type u12 = UInt<u16, 12>;

#[allow(non_camel_case_types)]
pub type u13 = UInt<u16, 13>;

#[allow(non_camel_case_types)]
pub type u14 = UInt<u16, 14>;

#[allow(non_camel_case_types)]
pub type u15 = UInt<u16, 15>;

#[allow(non_camel_case_types)]
pub type u17 = UInt<u32, 17>;

#[allow(non_camel_case_types)]
pub type u18 = UInt<u32, 18>;

#[allow(non_camel_case_types)]
pub type u19 = UInt<u32, 19>;

#[allow(non_camel_case_types)]
pub type u20 = UInt<u32, 20>;

#[allow(non_camel_case_types)]
pub type u21 = UInt<u32, 21>;

#[allow(non_camel_case_types)]
pub type u22 = UInt<u32, 22>;

#[allow(non_camel_case_types)]
pub type u23 = UInt<u32, 23>;

#[allow(non_camel_case_types)]
pub type u24 = UInt<u32, 24>;

#[allow(non_camel_case_types)]
pub type u25 = UInt<u32, 25>;

#[allow(non_camel_case_types)]
pub type u26 = UInt<u32, 26>;

#[allow(non_camel_case_types)]
pub type u27 = UInt<u32, 27>;

#[allow(non_camel_case_types)]
pub type u28 = UInt<u32, 28>;

#[allow(non_camel_case_types)]
pub type u29 = UInt<u32, 29>;

#[allow(non_camel_case_types)]
pub type u30 = UInt<u32, 30>;

#[allow(non_camel_case_types)]
pub type u31 = UInt<u32, 31>;

#[allow(non_camel_case_types)]
pub type u33 = UInt<u64, 33>;

#[allow(non_camel_case_types)]
pub type u34 = UInt<u64, 34>;

#[allow(non_camel_case_types)]
pub type u35 = UInt<u64, 35>;

#[allow(non_camel_case_types)]
pub type u36 = UInt<u64, 36>;

#[allow(non_camel_case_types)]
pub type u37 = UInt<u64, 37>;

#[allow(non_camel_case_types)]
pub type u38 = UInt<u64, 38>;

#[allow(non_camel_case_types)]
pub type u39 = UInt<u64, 39>;

#[allow(non_camel_case_types)]
pub type u40 = UInt<u64, 40>;

#[allow(non_camel_case_types)]
pub type u41 = UInt<u64, 41>;

#[allow(non_camel_case_types)]
pub type u42 = UInt<u64, 42>;

#[allow(non_camel_case_types)]
pub type u43 = UInt<u64, 43>;

#[allow(non_camel_case_types)]
pub type u44 = UInt<u64, 44>;

#[allow(non_camel_case_types)]
pub type u45 = UInt<u64, 45>;

#[allow(non_camel_case_types)]
pub type u46 = UInt<u64, 46>;

#[allow(non_camel_case_types)]
pub type u47 = UInt<u64, 47>;

#[allow(non_camel_case_types)]
pub type u48 = UInt<u64, 48>;

#[allow(non_camel_case_types)]
pub type u49 = UInt<u64, 49>;

#[allow(non_camel_case_types)]
pub type u50 = UInt<u64, 50>;

#[allow(non_camel_case_types)]
pub type u51 = UInt<u64, 51>;

#[allow(non_camel_case_types)]
pub type u52 = UInt<u64, 52>;

#[allow(non_camel_case_types)]
pub type u53 = UInt<u64, 53>;

#[allow(non_camel_case_types)]
pub type u54 = UInt<u64, 54>;

#[allow(non_camel_case_types)]
pub type u55 = UInt<u64, 55>;

#[allow(non_camel_case_types)]
pub type u56 = UInt<u64, 56>;

#[allow(non_camel_case_types)]
pub type u57 = UInt<u64, 57>;

#[allow(non_camel_case_types)]
pub type u58 = UInt<u64, 58>;

#[allow(non_camel_case_types)]
pub type u59 = UInt<u64, 59>;

#[allow(non_camel_case_types)]
pub type u60 = UInt<u64, 60>;

#[allow(non_camel_case_types)]
pub type u61 = UInt<u64, 61>;

#[allow(non_camel_case_types)]
pub type u62 = UInt<u64, 62>;

#[allow(non_camel_case_types)]
pub type u63 = UInt<u64, 63>;

#[allow(non_camel_case_types)]
pub type i1 = SInt<i8, 1>;

#[allow(non_camel_case_types)]
pub type i2 = SInt<i8, 2>;

#[allow(non_camel_case_types)]
pub type i3 = SInt<i8, 3>;

#[allow(non_camel_case_types)]
pub type i4 = SInt<i8, 4>;

#[allow(non_camel_case_types)]
pub type i5 = SInt<i8, 5>;

#[allow(non_camel_case_types)]
pub type i6 = SInt<i8, 6>;

#[allow(non_camel_case_types)]
pub type i7 = SInt<i8, 7>;

#[allow(non_camel_case_types)]
pub type i9 = SInt<i16, 9>;

#[allow(non_camel_case_types)]
pub type i10 = SInt<i16, 10>;

#[allow(non_camel_case_types)]
pub type i11 = SInt<i16, 11>;

#[allow(non_camel_case_types)]
pub type i12 = SInt<i16, 12>;

#[allow(non_camel_case_types)]
pub type i13 = SInt<i16, 13>;

#[allow(non_camel_case_types)]
pub type i14 = SInt<i16, 14>;

#[allow(non_camel_case_types)]
pub type i15 = SInt<i16, 15>;

#[allow(non_camel_case_types)]
pub type i17 = SInt<i32, 17>;

#[allow(non_camel_case_types)]
pub type i18 = SInt<i32, 18>;

#[allow(non_camel_case_types)]
pub type i19 = SInt<i32, 19>;

#[allow(non_camel_case_types)]
pub type i20 = SInt<i32, 20>;

#[allow(non_camel_case_types)]
pub type i21 = SInt<i32, 21>;

#[allow(non_camel_case_types)]
pub type i22 = SInt<i32, 22>;

#[allow(non_camel_case_types)]
pub type i23 = SInt<i32, 23>;

#[allow(non_camel_case_types)]
pub type i24 = SInt<i32, 24>;

#[allow(non_camel_case_types)]
pub type i25 = SInt<i32, 25>;

#[allow(non_camel_case_types)]
pub type i26 = SInt<i32, 26>;

#[allow(non_camel_case_types)]
pub type i27 = SInt<i32, 27>;

#[allow(non_camel_case_types)]
pub type i28 = SInt<i32, 28>;

#[allow(non_camel_case_types)]
pub type i29 = SInt<i32, 29>;

#[allow(non_camel_case_types)]
pub type i30 = SInt<i32, 30>;

#[allow(non_camel_case_types)]
pub type i31 = SInt<i32, 31>;

#[allow(non_camel_case_types)]
pub type i33 = SInt<i64, 33>;

#[allow(non_camel_case_types)]
pub type i34 = SInt<i64, 34>;

#[allow(non_camel_case_types)]
pub type i35 = SInt<i64, 35>;

#[allow(non_camel_case_types)]
pub type i36 = SInt<i64, 36>;

#[allow(non_camel_case_types)]
pub type i37 = SInt<i64, 37>;

#[allow(non_camel_case_types)]
pub type i38 = SInt<i64, 38>;

#[allow(non_camel_case_types)]
pub type i39 = SInt<i64, 39>;

#[allow(non_camel_case_types)]
pub type i40 = SInt<i64, 40>;

#[allow(non_camel_case_types)]
pub type i41 = SInt<i64, 41>;

#[allow(non_camel_case_types)]
pub type i42 = SInt<i64, 42>;

#[allow(non_camel_case_types)]
pub type i43 = SInt<i64, 43>;

#[allow(non_camel_case_types)]
pub type i44 = SInt<i64, 44>;

#[allow(non_camel_case_types)]
pub type i45 = SInt<i64, 45>;

#[allow(non_camel_case_types)]
pub type i46 = SInt<i64, 46>;

#[allow(non_camel_case_types)]
pub type i47 = SInt<i64, 47>;

#[allow(non_camel_case_types)]
pub type i48 = SInt<i64, 48>;

#[allow(non_camel_case_types)]
pub type i49 = SInt<i64, 49>;

#[allow(non_camel_case_types)]
pub type i50 = SInt<i64, 50>;

#[allow(non_camel_case_types)]
pub type i51 = SInt<i64, 51>;

#[allow(non_camel_case_types)]
pub type i52 = SInt<i64, 52>;

#[allow(non_camel_case_types)]
pub type i53 = SInt<i64, 53>;

#[allow(non_camel_case_types)]
pub type i54 = SInt<i64, 54>;

#[allow(non_camel_case_types)]
pub type i55 = SInt<i64, 55>;

#[allow(non_camel_case_types)]
pub type i56 = SInt<i64, 56>;

#[allow(non_camel_case_types)]
pub type i57 = SInt<i64, 57>;

#[allow(non_camel_case_types)]
pub type i58 = SInt<i64, 58>;

#[allow(non_camel_case_types)]
pub type i59 = SInt<i64, 59>;

#[allow(non_camel_case_types)]
pub type i60 = SInt<i64, 60>;

#[allow(non_camel_case_types)]
pub type i61 = SInt<i64, 61>;

#[allow(non_camel_case_types)]
pub type i62 = SInt<i64, 62>;

#[allow(non_camel_case_types)]
pub type i63 = SInt<i64, 63>;

} // verus!
