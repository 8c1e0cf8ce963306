use isit::{
    align_condition, assert_align, assert_compatible_align, assert_compatible_size,
    assert_compatible_size_align, assert_different_align, assert_different_size,
    assert_different_size_align, assert_incompatible_align, assert_incompatible_size,
    assert_incompatible_size_align, assert_not_align, assert_not_size, assert_not_size_align,
    assert_same_size, assert_same_size_align, assert_size, assert_size_align,
    compatible_align_condition, compatible_size_align_condition, compatible_size_condition,
    const_assert_all, const_assert_any, const_assert_none, different_align_condition,
    different_size_align_condition, different_size_condition, incompatible_align_condition,
    incompatible_size_align_condition, incompatible_size_condition, not_align_condition,
    not_size_align_condition, not_size_condition, same_align_condition,
    same_size_align_condition, same_size_condition, size_align_condition, size_condition,
};

// `Fred` with the fields `foo: u32, bar: u64, baz: bool` in C layout, its
// padding written out.
#[allow(dead_code)]
struct Fred {
    foo: u32,
    foo_padding: u32,
    bar: u64,
    baz: bool,
    baz_padding: [u8; 7],
}

// The fields of `Fred` without its padding.
#[allow(dead_code)]
struct NotFred {
    bar: u64,
    foo: u32,
    baz: bool,
}

#[test]
fn size_checks() {
    assert!(size_condition::<u8, 1>());
    assert!(!size_condition::<u8, 2>());
    assert_size::<u8, 1>();
    assert!(not_size_condition::<u64, 4>());
    assert!(!not_size_condition::<u64, 8>());
    assert_not_size::<u64, 4>();
}

#[test]
fn same_and_different_size() {
    assert!(same_size_condition::<u8, i8>());
    assert!(!same_size_condition::<u8, u16>());
    assert_same_size::<u8, i8>();
    assert!(different_size_condition::<u8, u16>());
    assert!(!different_size_condition::<u32, f32>());
    assert_different_size::<u8, u16>();
}

#[test]
fn compatible_and_incompatible_size() {
    assert!(compatible_size_condition::<u8, u16>());
    assert!(compatible_size_condition::<u16, u16>());
    assert!(!compatible_size_condition::<u32, u16>());
    assert_compatible_size::<u8, u16>();
    assert!(incompatible_size_condition::<u64, u32>());
    assert!(!incompatible_size_condition::<u32, u32>());
    assert_incompatible_size::<u64, u32>();
}

#[test]
fn alignment_checks() {
    assert!(align_condition::<u64, 8>());
    assert!(!align_condition::<u64, 4>());
    assert_align::<u64, 8>();
    assert!(not_align_condition::<u64, 4>());
    assert_not_align::<u64, 4>();
    assert!(same_align_condition::<u16, i16>());
    assert!(!same_align_condition::<u8, u16>());
    assert!(different_align_condition::<u8, u16>());
    assert_different_align::<u8, u16>();
    assert!(compatible_align_condition::<u8, u16>());
    assert!(!compatible_align_condition::<u32, u16>());
    assert_compatible_align::<u8, u16>();
    assert!(incompatible_align_condition::<u32, u16>());
    assert!(!incompatible_align_condition::<u16, u32>());
    assert_incompatible_align::<u32, u16>();
}

#[test]
fn size_and_alignment_together() {
    assert!(size_align_condition::<u32, 4, 4>());
    assert!(!size_align_condition::<u32, 4, 2>());
    assert!(!size_align_condition::<[u8; 4], 4, 4>());
    assert_size_align::<u32, 4, 4>();
    assert!(not_size_align_condition::<u8, 2, 2>());
    assert!(not_size_align_condition::<u8, 1, 2>());
    assert!(!not_size_align_condition::<u8, 1, 1>());
    assert_not_size_align::<u8, 2, 2>();
}

#[test]
fn same_and_different_size_align() {
    assert!(same_size_align_condition::<i8, u8>());
    assert!(!same_size_align_condition::<[u8; 4], u32>());
    assert_same_size_align::<i8, u8>();
    assert!(different_size_align_condition::<u8, u32>());
    // Only the alignment differs, so the two do not differ in both.
    assert!(!different_size_align_condition::<[u8; 4], u32>());
    assert_different_size_align::<u8, u32>();
}

#[test]
fn compatible_and_incompatible_size_align() {
    assert!(compatible_size_align_condition::<u8, u32>());
    assert!(!compatible_size_align_condition::<[u8; 8], u32>());
    assert_compatible_size_align::<u8, u32>();
    assert!(incompatible_size_align_condition::<u64, u32>());
    // Larger, but not more aligned: incompatible only when both are.
    assert!(!incompatible_size_align_condition::<[u8; 8], u32>());
    assert!(!incompatible_size_align_condition::<u32, [u8; 8]>());
    assert_incompatible_size_align::<u64, u32>();
}

#[test]
fn fred_layout_checks() {
    const_assert_all([
        std::mem::size_of::<Fred>() == 24,
        std::mem::align_of::<Fred>() == 8,
    ]);
    const_assert_any([
        std::mem::size_of::<Fred>() == 24,
        std::mem::size_of::<Fred>() == 12,
        std::mem::size_of::<Fred>() == 8,
    ]);
    const_assert_none([
        std::mem::align_of::<Fred>() == 1,
        std::mem::align_of::<Fred>() == 2,
        std::mem::align_of::<Fred>() == 4,
    ]);
    assert!(size_condition::<Fred, 24>());
    assert_size::<Fred, 24>();
    assert!(not_size_condition::<Fred, 16>());
    assert_not_size::<Fred, 16>();
    assert!(same_size_condition::<Fred, [u64; 3]>());
    assert_same_size::<Fred, [u64; 3]>();
    assert!(different_size_condition::<Fred, NotFred>());
    assert_different_size::<Fred, NotFred>();
    assert!(compatible_size_condition::<[u64; 1], Fred>());
    assert!(compatible_size_condition::<[u64; 2], Fred>());
    assert!(compatible_size_condition::<[u64; 3], Fred>());
    assert!(!compatible_size_condition::<[u64; 4], Fred>());
    assert_compatible_size::<[u64; 3], Fred>();
}

#[test]
fn layout_laws_on_examples() {
    // Same size is symmetric; fitting both ways is being the same.
    assert_eq!(same_size_condition::<u8, u16>(), same_size_condition::<u16, u8>());
    assert_eq!(
        compatible_size_condition::<u32, f32>() && compatible_size_condition::<f32, u32>(),
        same_size_condition::<u32, f32>()
    );
    assert_eq!(
        compatible_align_condition::<u32, u16>() && compatible_align_condition::<u16, u32>(),
        same_align_condition::<u32, u16>()
    );
    // Fitting is transitive and total.
    assert!(compatible_size_condition::<u8, u16>() && compatible_size_condition::<u16, u64>());
    assert!(compatible_size_condition::<u8, u64>());
    assert!(compatible_size_condition::<[u8; 3], u16>() || compatible_size_condition::<u16, [u8; 3]>());
    // Incompatible in both means not compatible, while the reverse fits.
    assert!(incompatible_size_align_condition::<u64, u16>());
    assert!(!compatible_size_align_condition::<u64, u16>());
    assert!(compatible_size_align_condition::<u16, u64>());
    // Differing in both means not the same.
    assert!(different_size_align_condition::<u8, u64>());
    assert!(!same_size_align_condition::<u8, u64>());
}
