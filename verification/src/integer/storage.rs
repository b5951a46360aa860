//! Which native integer stores an integer of how many bits.
//!
//! Widths 1 to 7 are stored in 8 bits, 9 to 15 in 16 bits, 17 to 31 in 32
//! bits and 33 to 63 in 64 bits. The widths 8, 16, 32 and 64 are the native
//! integers themselves.

use crate::integer::IsStorageForBits;
use vstd::prelude::*;

verus! {

impl IsStorageForBits<1> for u8 {
    proof fn lemma_storage() {
    }
}

impl IsStorageForBits<2> for u8 {
    proof fn lemma_storage() {
    }
}

impl IsStorageForBits<3> for u8 {
    proof fn lemma_storage() {
    }
}

impl IsStorageForBits<4> for u8 {
    proof fn lemma_storage() {
    }
}

impl IsStorageForBits<5> for u8 {
    proof fn lemma_storage() {
    }
}

impl IsStorageForBits<6> for u8 {
    proof fn lemma_storage() {
    }
}

impl IsStorageForBits<7> for u8 {
    proof fn lemma_storage() {
    }
}

impl IsStorageForBits<9> for u16 {
    proof fn lemma_storage() {
    }
}

impl IsStorageForBits<10> for u16 {
    proof fn lemma_storage() {
    }
}

impl IsStorageForBits<11> for u16 {
    proof fn lemma_storage() {
    }
}

impl IsStorageForBits<12> for u16 {
    proof fn lemma_storage() {
    }
}

impl IsStorageForBits<13> for u16 {
    proof fn lemma_storage() {
    }
}

impl IsStorageForBits<14> for u16 {
    proof fn lemma_storage() {
    }
}

impl IsStorageForBits<15> for u16 {
    proof fn lemma_storage() {
    }
}

impl IsStorageForBits<17> for u32 {
    proof fn lemma_storage() {
    }
}

impl IsStorageForBits<18> for u32 {
    proof fn lemma_storage() {
    }
}

impl IsStorageForBits<19> for u32 {
    proof fn lemma_storage() {
    }
}

impl IsStorageForBits<20> for u32 {
    proof fn lemma_storage() {
    }
}

impl IsStorageForBits<21> for u32 {
    proof fn lemma_storage() {
    }
}

impl IsStorageForBits<22> for u32 {
    proof fn lemma_storage() {
    }
}

impl IsStorageForBits<23> for u32 {
    proof fn lemma_storage() {
    }
}

impl IsStorageForBits<24> for u32 {
    proof fn lemma_storage() {
    }
}

impl IsStorageForBits<25> for u32 {
    proof fn lemma_storage() {
    }
}

impl IsStorageForBits<26> for u32 {
    proof fn lemma_storage() {
    }
}

impl IsStorageForBits<27> for u32 {
    proof fn lemma_storage() {
    }
}

impl IsStorageForBits<28> for u32 {
    proof fn lemma_storage() {
    }
}

impl IsStorageForBits<29> for u32 {
    proof fn lemma_storage() {
    }
}

impl IsStorageForBits<30> for u32 {
    proof fn lemma_storage() {
    }
}

impl IsStorageForBits<31> for u32 {
    proof fn lemma_storage() {
    }
}

impl IsStorageForBits<33> for u64 {
    proof fn lemma_storage() {
    }
}

impl IsStorageForBits<34> for u64 {
    proof fn lemma_storage() {
    }
}

impl IsStorageForBits<35> for u64 {
    proof fn lemma_storage() {
    }
}

impl IsStorageForBits<36> for u64 {
    proof fn lemma_storage() {
    }
}

impl IsStorageForBits<37> for u64 {
    proof fn lemma_storage() {
    }
}

impl IsStorageForBits<38> for u64 {
    proof fn lemma_storage() {
    }
}

impl IsStorageForBits<39> for u64 {
    proof fn lemma_storage() {
    }
}

impl IsStorageForBits<40> for u64 {
    proof fn lemma_storage() {
    }
}

impl IsStorageForBits<41> for u64 {
    proof fn lemma_storage() {
    }
}

impl IsStorageForBits<42> for u64 {
    proof fn lemma_storage() {
    }
}

impl IsStorageForBits<43> for u64 {
    proof fn lemma_storage() {
    }
}

impl IsStorageForBits<44> for u64 {
    proof fn lemma_storage() {
    }
}

impl IsStorageForBits<45> for u64 {
    proof fn lemma_storage() {
    }
}

impl IsStorageForBits<46> for u64 {
    proof fn lemma_storage() {
    }
}

impl IsStorageForBits<47> for u64 {
    proof fn lemma_storage() {
    }
}

impl IsStorageForBits<48> for u64 {
    proof fn lemma_storage() {
    }
}

impl IsStorageForBits<49> for u64 {
    proof fn lemma_storage() {
    }
}

impl IsStorageForBits<50> for u64 {
    proof fn lemma_storage() {
    }
}

impl IsStorageForBits<51> for u64 {
    proof fn lemma_storage() {
    }
}

impl IsStorageForBits<52> for u64 {
    proof fn lemma_storage() {
    }
}

impl IsStorageForBits<53> for u64 {
    proof fn lemma_storage() {
    }
}

impl IsStorageForBits<54> for u64 {
    proof fn lemma_storage() {
    }
}

impl IsStorageForBits<55> for u64 {
    proof fn lemma_storage() {
    }
}

impl IsStorageForBits<56> for u64 {
    proof fn lemma_storage() {
    }
}

impl IsStorageForBits<57> for u64 {
    proof fn lemma_storage() {
    }
}

impl IsStorageForBits<58> for u64 {
    proof fn lemma_storage() {
    }
}

impl IsStorageForBits<59> for u64 {
    proof fn lemma_storage() {
    }
}

impl IsStorageForBits<60> for u64 {
    proof fn lemma_storage() {
    }
}

impl IsStorageForBits<61> for u64 {
    proof fn lemma_storage() {
    }
}

impl IsStorageForBits<62> for u64 {
    proof fn lemma_storage() {
    }
}

impl IsStorageForBits<63> for u64 {
    proof fn lemma_storage() {
    }
}

impl IsStorageForBits<1> for i8 {
    proof fn lemma_storage() {
    }
}

impl IsStorageForBits<2> for i8 {
    proof fn lemma_storage() {
    }
}

impl IsStorageForBits<3> for i8 {
    proof fn lemma_storage() {
    }
}

impl IsStorageForBits<4> for i8 {
    proof fn lemma_storage() {
    }
}

impl IsStorageForBits<5> for i8 {
    proof fn lemma_storage() {
    }
}

impl IsStorageForBits<6> for i8 {
    proof fn lemma_storage() {
    }
}

impl IsStorageForBits<7> for i8 {
    proof fn lemma_storage() {
    }
}

impl IsStorageForBits<9> for i16 {
    proof fn lemma_storage() {
    }
}

impl IsStorageForBits<10> for i16 {
    proof fn lemma_storage() {
    }
}

impl IsStorageForBits<11> for i16 {
    proof fn lemma_storage() {
    }
}

impl IsStorageForBits<12> for i16 {
    proof fn lemma_storage() {
    }
}

impl IsStorageForBits<13> for i16 {
    proof fn lemma_storage() {
    }
}

impl IsStorageForBits<14> for i16 {
    proof fn lemma_storage() {
    }
}

impl IsStorageForBits<15> for i16 {
    proof fn lemma_storage() {
    }
}

impl IsStorageForBits<17> for i32 {
    proof fn lemma_storage() {
    }
}

impl IsStorageForBits<18> for i32 {
    proof fn lemma_storage() {
    }
}

impl IsStorageForBits<19> for i32 {
    proof fn lemma_storage() {
    }
}

impl IsStorageForBits<20> for i32 {
    proof fn lemma_storage() {
    }
}

impl IsStorageForBits<21> for i32 {
    proof fn lemma_storage() {
    }
}

impl IsStorageForBits<22> for i32 {
    proof fn lemma_storage() {
    }
}

impl IsStorageForBits<23> for i32 {
    proof fn lemma_storage() {
    }
}

impl IsStorageForBits<24> for i32 {
    proof fn lemma_storage() {
    }
}

impl IsStorageForBits<25> for i32 {
    proof fn lemma_storage() {
    }
}

impl IsStorageForBits<26> for i32 {
    proof fn lemma_storage() {
    }
}

impl IsStorageForBits<27> for i32 {
    proof fn lemma_storage() {
    }
}

impl IsStorageForBits<28> for i32 {
    proof fn lemma_storage() {
    }
}

impl IsStorageForBits<29> for i32 {
    proof fn lemma_storage() {
    }
}

impl IsStorageForBits<30> for i32 {
    proof fn lemma_storage() {
    }
}

impl IsStorageForBits<31> for i32 {
    proof fn lemma_storage() {
    }
}

impl IsStorageForBits<33> for i64 {
    proof fn lemma_storage() {
    }
}

impl IsStorageForBits<34> for i64 {
    proof fn lemma_storage() {
    }
}

impl IsStorageForBits<35> for i64 {
    proof fn lemma_storage() {
    }
}

impl IsStorageForBits<36> for i64 {
    proof fn lemma_storage() {
    }
}

impl IsStorageForBits<37> for i64 {
    proof fn lemma_storage() {
    }
}

impl IsStorageForBits<38> for i64 {
    proof fn lemma_storage() {
    }
}

impl IsStorageForBits<39> for i64 {
    proof fn lemma_storage() {
    }
}

impl IsStorageForBits<40> for i64 {
    proof fn lemma_storage() {
    }
}

impl IsStorageForBits<41> for i64 {
    proof fn lemma_storage() {
    }
}

impl IsStorageForBits<42> for i64 {
    proof fn lemma_storage() {
    }
}

impl IsStorageForBits<43> for i64 {
    proof fn lemma_storage() {
    }
}

impl IsStorageForBits<44> for i64 {
    proof fn lemma_storage() {
    }
}

impl IsStorageForBits<45> for i64 {
    proof fn lemma_storage() {
    }
}

impl IsStorageForBits<46> for i64 {
    proof fn lemma_storage() {
    }
}

impl IsStorageForBits<47> for i64 {
    proof fn lemma_storage() {
    }
}

impl IsStorageForBits<48> for i64 {
    proof fn lemma_storage() {
    }
}

impl IsStorageForBits<49> for i64 {
    proof fn lemma_storage() {
    }
}

impl IsStorageForBits<50> for i64 {
    proof fn lemma_storage() {
    }
}

impl IsStorageForBits<51> for i64 {
    proof fn lemma_storage() {
    }
}

impl IsStorageForBits<52> for i64 {
    proof fn lemma_storage() {
    }
}

impl IsStorageForBits<53> for i64 {
    proof fn lemma_storage() {
    }
}

impl IsStorageForBits<54> for i64 {
    proof fn lemma_storage() {
    }
}

impl IsStorageForBits<55> for i64 {
    proof fn lemma_storage() {
    }
}

impl IsStorageForBits<56> for i64 {
    proof fn lemma_storage() {
    }
}

impl IsStorageForBits<57> for i64 {
    proof fn lemma_storage() {
    }
}

impl IsStorageForBits<58> for i64 {
    proof fn lemma_storage() {
    }
}

impl IsStorageForBits<59> for i64 {
    proof fn lemma_storage() {
    }
}

impl IsStorageForBits<60> for i64 {
    proof fn lemma_storage() {
    }
}

impl IsStorageForBits<61> for i64 {
    proof fn lemma_storage() {
    }
}

impl IsStorageForBits<62> for i64 {
    proof fn lemma_storage() {
    }
}

impl IsStorageForBits<63> for i64 {
    proof fn lemma_storage() {
    }
}

} // verus!
