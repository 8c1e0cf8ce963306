use std::num::NonZero;
use std::ptr::NonNull;

use isit::{
    assert_byte_compatible, assert_byte_incompatible, assert_byte_niche, assert_byte_size_align,
    assert_impossible_zst, assert_niche, assert_no_niche, assert_no_pointer_niche,
    assert_no_t_niche, assert_not_pointer_align, assert_not_pointer_size,
    assert_not_pointer_size_align, assert_not_zst, assert_pointer_align,
    assert_pointer_compatible_size_align, assert_pointer_incompatible_size_align,
    assert_pointer_niche, assert_pointer_niche_compatible, assert_pointer_size,
    assert_pointer_size_align, assert_single_niche, assert_t_niche, assert_t_niche_compatible,
    assert_zst, byte_compatible_condition, byte_incompatible_condition, byte_niche_condition,
    byte_size_align_condition, impossible_zst_condition, niche_condition, no_niche_condition,
    no_pointer_niche_condition, no_t_niche_condition, not_pointer_align_condition,
    not_pointer_size_align_condition, not_pointer_size_condition, not_zst_condition,
    pointer_align_condition, pointer_compatible_size_align_condition,
    pointer_incompatible_size_align_condition, pointer_niche_compatible_condition,
    pointer_niche_condition, pointer_size_align_condition, pointer_size_condition,
    single_niche_condition, t_niche_compatible_condition, t_niche_condition, zst_condition,
};

#[derive(Debug, Clone, Copy)]
enum ImpossibleZst {}

#[allow(dead_code)]
enum TwoValues {
    First,
    Second,
}

#[test]
fn pointer_size_and_alignment() {
    assert!(pointer_size_condition::<isize>());
    assert!(pointer_size_condition::<&u32>());
    assert!(!pointer_size_condition::<u8>());
    assert_pointer_size::<isize>();
    assert!(not_pointer_size_condition::<u8>());
    assert!(!not_pointer_size_condition::<usize>());
    assert_not_pointer_size::<u8>();
    assert!(pointer_align_condition::<isize>());
    assert_pointer_align::<isize>();
    assert!(not_pointer_align_condition::<[u8; 8]>());
    assert_not_pointer_align::<[u8; 8]>();
    assert!(pointer_size_align_condition::<&u8>());
    assert!(!pointer_size_align_condition::<u8>());
    assert_pointer_size_align::<&u8>();
    assert!(not_pointer_size_align_condition::<[u8; 7]>());
    assert!(!not_pointer_size_align_condition::<usize>());
    assert_not_pointer_size_align::<[u8; 7]>();
    assert!(pointer_compatible_size_align_condition::<u8>());
    assert!(!pointer_compatible_size_align_condition::<[usize; 2]>());
    assert_pointer_compatible_size_align::<u8>();
    assert!(pointer_incompatible_size_align_condition::<u128>() == (std::mem::align_of::<u128>() > std::mem::align_of::<usize>()));
    assert!(!pointer_incompatible_size_align_condition::<[usize; 2]>());
    assert!(!pointer_incompatible_size_align_condition::<u8>());
    if std::mem::align_of::<u128>() > std::mem::align_of::<usize>() {
        assert_pointer_incompatible_size_align::<u128>();
    }
}

#[test]
fn niches_of_types() {
    assert!(t_niche_condition::<u8, NonZero<u8>>());
    assert!(!t_niche_condition::<u8, u8>());
    assert_t_niche::<u8, NonZero<u8>>();
    assert!(no_t_niche_condition::<u8, u8>());
    assert!(!no_t_niche_condition::<u8, NonZero<u8>>());
    assert_no_t_niche::<u8, u8>();
    assert!(t_niche_compatible_condition::<u8, NonZero<u16>>());
    assert!(!t_niche_compatible_condition::<u32, NonZero<u16>>());
    assert_t_niche_compatible::<u8, NonZero<u16>>();
    assert!(niche_condition::<NonZero<u32>>());
    assert!(!niche_condition::<u32>());
    assert_niche::<NonZero<u32>>();
    assert!(no_niche_condition::<usize>());
    assert!(!no_niche_condition::<bool>());
    assert_no_niche::<usize>();
}

#[test]
fn single_niche() {
    assert!(single_niche_condition::<NonZero<u64>>());
    assert_single_niche::<NonZero<u64>>();
    // `bool` has many spare bit patterns, `u64` none.
    assert!(!single_niche_condition::<bool>());
    assert!(!single_niche_condition::<u64>());
}

#[test]
fn pointer_niches() {
    assert!(pointer_niche_condition::<NonNull<()>>());
    assert!(pointer_niche_condition::<&u64>());
    assert!(!pointer_niche_condition::<usize>());
    assert_pointer_niche::<NonNull<()>>();
    assert!(no_pointer_niche_condition::<usize>());
    assert!(!no_pointer_niche_condition::<NonNull<()>>());
    assert_no_pointer_niche::<usize>();
    assert!(pointer_niche_compatible_condition::<NonZero<u128>>());
    assert!(!pointer_niche_compatible_condition::<u8>());
    assert_pointer_niche_compatible::<NonZero<u128>>();
}

#[test]
fn byte_sized_types() {
    assert!(byte_niche_condition::<NonZero<u8>>());
    assert!(byte_niche_condition::<bool>());
    assert!(!byte_niche_condition::<u8>());
    assert_byte_niche::<NonZero<u8>>();
    assert!(byte_size_align_condition::<bool>());
    assert!(!byte_size_align_condition::<u16>());
    assert_byte_size_align::<bool>();
    assert!(byte_compatible_condition::<()>());
    assert!(byte_compatible_condition::<TwoValues>());
    assert!(!byte_compatible_condition::<u16>());
    assert_byte_compatible::<TwoValues>();
    assert!(byte_incompatible_condition::<u16>());
    assert!(!byte_incompatible_condition::<[u8; 2]>());
    assert_byte_incompatible::<u16>();
}

#[test]
fn zero_sized_types() {
    assert!(zst_condition::<()>());
    assert!(!zst_condition::<u8>());
    assert_zst::<()>();
    assert!(not_zst_condition::<u8>());
    assert!(!not_zst_condition::<()>());
    assert_not_zst::<u8>();
    assert!(impossible_zst_condition::<ImpossibleZst>());
    assert!(!impossible_zst_condition::<()>());
    assert!(!impossible_zst_condition::<u8>());
    assert_impossible_zst::<ImpossibleZst>();
}
