//! Checks of the layout of types against that of a pointer, `usize`.

use vstd::prelude::*;
use crate::layout::{
    align_fits, aligns_equal, assert_compatible_size_align, assert_different_align,
    assert_different_size, assert_different_size_align, assert_incompatible_size_align,
    assert_same_size, assert_same_size_align, compatible_size_align_condition,
    different_align_condition, different_size_align_condition, different_size_condition,
    incompatible_size_align_condition, layout_fits, layouts_equal, same_align_condition,
    same_size_align_condition, same_size_condition, size_fits, sizes_equal,
};

verus! {

/// Check that `T` has the size of a pointer.
#[must_use]
pub fn pointer_size_condition<T>() -> (r: bool)
    ensures
        r == sizes_equal::<T, usize>(),
{
    same_size_condition::<T, usize>()
}

/// Assert that `T` has the size of a pointer.
pub fn assert_pointer_size<T>()
    requires
        sizes_equal::<T, usize>(),
{
    assert_same_size::<T, usize>();
}

/// Check that the size of `T` differs from that of a pointer.
#[must_use]
pub fn not_pointer_size_condition<T>() -> (r: bool)
    ensures
        r == !sizes_equal::<T, usize>(),
{
    different_size_condition::<T, usize>()
}

/// Assert that the size of `T` differs from that of a pointer.
pub fn assert_not_pointer_size<T>()
    requires
        !sizes_equal::<T, usize>(),
{
    assert_different_size::<T, usize>();
}

/// Check that `T` has the alignment of a pointer.
#[must_use]
pub fn pointer_align_condition<T>() -> (r: bool)
    ensures
        r == aligns_equal::<T, usize>(),
{
    same_align_condition::<T, usize>()
}

/// Assert that `T` has the alignment of a pointer, and its size too.
pub fn assert_pointer_align<T>()
    requires
        sizes_equal::<T, usize>(),
        aligns_equal::<T, usize>(),
{
    assert_same_size_align::<T, usize>();
}

/// Check that the alignment of `T` differs from that of a pointer.
#[must_use]
pub fn not_pointer_align_condition<T>() -> (r: bool)
    ensures
        r == !aligns_equal::<T, usize>(),
{
    different_align_condition::<T, usize>()
}

/// Assert that the alignment of `T` differs from that of a pointer.
pub fn assert_not_pointer_align<T>()
    requires
        !aligns_equal::<T, usize>(),
{
    assert_different_align::<T, usize>()
}

/// Check that `T` has the size and the alignment of a pointer.
#[must_use]
pub fn pointer_size_align_condition<T>() -> (r: bool)
    ensures
        r == layouts_equal::<T, usize>(),
{
    same_size_align_condition::<T, usize>()
}

/// Assert that `T` is pointer sized and pointer aligned.
pub fn assert_pointer_size_align<T>()
    requires
        sizes_equal::<T, usize>(),
        aligns_equal::<T, usize>(),
{
    assert_same_size_align::<T, usize>()
}

/// Check that both the size and the alignment of `T` differ from those of a
/// pointer.
#[must_use]
pub fn not_pointer_size_align_condition<T>() -> (r: bool)
    ensures
        r == (!sizes_equal::<T, usize>() && !aligns_equal::<T, usize>()),
{
    different_size_align_condition::<T, usize>()
}

/// Assert that both the size and the alignment of `T` differ from those of a
/// pointer.
pub fn assert_not_pointer_size_align<T>()
    requires
        !sizes_equal::<T, usize>(),
        !aligns_equal::<T, usize>(),
{
    assert_different_size_align::<T, usize>();
}

/// Check that the size and alignment of `T` are at most those of a pointer.
#[must_use]
pub fn pointer_compatible_size_align_condition<T>() -> (r: bool)
    ensures
        r == layout_fits::<T, usize>(),
{
    compatible_size_align_condition::<T, usize>()
}

/// Assert that the size and alignment of `T` are less than the size and
/// alignment of a pointer.
pub fn assert_pointer_compatible_size_align<T>()
    requires
        vstd::layout::size_of::<T>() < vstd::layout::size_of::<usize>(),
        vstd::layout::align_of::<T>() < vstd::layout::align_of::<usize>(),
{
    assert_compatible_size_align::<T, usize>();
}

/// Check that both the size and the alignment of `T` exceed those of a
/// pointer.
#[must_use]
pub fn pointer_incompatible_size_align_condition<T>() -> (r: bool)
    ensures
        r == (!size_fits::<T, usize>() && !align_fits::<T, usize>()),
{
    incompatible_size_align_condition::<T, usize>()
}

/// Assert that both the size and the alignment of `T` exceed those of a
/// pointer.
pub fn assert_pointer_incompatible_size_align<T>()
    requires
        !size_fits::<T, usize>(),
        !align_fits::<T, usize>(),
{
    assert_incompatible_size_align::<T, usize>();
}

} // verus!
