//! Checks of niches (bit patterns that `Option` can use for `None`), of
//! byte-sized types and of zero-sized types.

use vstd::prelude::*;
use crate::layout::{
    align_fits, aligns_equal, assert_compatible_size_align, assert_different_size,
    assert_incompatible_size, assert_incompatible_size_align, assert_not_size,
    assert_same_size_align, assert_size, compatible_size_align_condition,
    different_size_condition, incompatible_size_align_condition, incompatible_size_condition,
    layout_fits, layouts_equal, not_size_condition, same_size_align_condition,
    same_size_condition, size_condition, size_fits, size_is, sizes_equal,
};
use crate::meta::Niche255;

verus! {

/// Check that `T` has the size of `Option<Niched>`.
#[must_use]
pub fn t_niche_condition<T, Niched>() -> (r: bool)
    ensures
        r == sizes_equal::<T, Option<Niched>>(),
{
    same_size_condition::<T, Option<Niched>>()
}

/// Assert that the size and alignment of `T` are those of `Option<Niched>`.
pub fn assert_t_niche<T, Niched>()
    requires
        sizes_equal::<T, Option<Niched>>(),
        aligns_equal::<T, Option<Niched>>(),
{
    assert_same_size_align::<T, Option<Niched>>();
}

/// Check that `Option<Niched>` is larger than `T`.
#[must_use]
pub fn no_t_niche_condition<T, Niched>() -> (r: bool)
    ensures
        r == !size_fits::<Option<Niched>, T>(),
{
    incompatible_size_condition::<Option<Niched>, T>()
}

/// Assert that `Option<Niched>` is larger than `T`.
pub fn assert_no_t_niche<T, Niched>()
    requires
        !size_fits::<Option<Niched>, T>(),
{
    assert_incompatible_size::<Option<Niched>, T>();
}

/// Check that the size and alignment of `T` are at most those of
/// `Option<Niched>`.
#[must_use]
pub fn t_niche_compatible_condition<T, Niched>() -> (r: bool)
    ensures
        r == layout_fits::<T, Option<Niched>>(),
{
    compatible_size_align_condition::<T, Option<Niched>>()
}

/// Assert that the size and alignment of `T` are at most those of
/// `Option<Niched>`.
pub fn assert_t_niche_compatible<T, Niched>()
    requires
        size_fits::<T, Option<Niched>>(),
        align_fits::<T, Option<Niched>>(),
{
    assert_compatible_size_align::<T, Option<Niched>>();
}

/// Check that `Option<T>` has the size of `T`.
#[must_use]
pub fn niche_condition<T>() -> (r: bool)
    ensures
        r == sizes_equal::<T, Option<T>>(),
{
    t_niche_condition::<T, T>()
}

/// Assert that the size and alignment of `T` are those of `Option<T>`.
pub fn assert_niche<T>()
    requires
        sizes_equal::<T, Option<T>>(),
        aligns_equal::<T, Option<T>>(),
{
    assert_t_niche::<T, T>();
}

/// Check that the size of `T` differs from the size of `Option<T>`.
#[must_use]
pub fn no_niche_condition<T>() -> (r: bool)
    ensures
        r == !sizes_equal::<T, Option<T>>(),
{
    different_size_condition::<T, Option<T>>()
}

/// Assert that the size of `T` differs from the size of `Option<T>`.
pub fn assert_no_niche<T>()
    requires
        !sizes_equal::<T, Option<T>>(),
{
    assert_different_size::<T, Option<T>>();
}

/// Check that `T` has exactly one niche: `Option<T>` has the size of `T`,
/// and `Option<Option<T>>` is larger than `Option<T>`.
#[must_use]
pub fn single_niche_condition<T>() -> (r: bool)
    ensures
        r == (sizes_equal::<T, Option<T>>() && !sizes_equal::<Option<T>, Option<Option<T>>>()),
{
    niche_condition::<T>() && no_niche_condition::<Option<T>>()
}

/// Assert that `T` has exactly one niche.
pub fn assert_single_niche<T>()
    requires
        sizes_equal::<T, Option<T>>(),
        !sizes_equal::<Option<T>, Option<Option<T>>>(),
{
    let has_niche = niche_condition::<T>();
    let has_less2 = no_niche_condition::<Option<T>>();
    proof {
        assert(has_niche && has_less2);
    }
}

/// Check that `Option<T>` has the size of a pointer.
#[must_use]
pub fn pointer_niche_condition<T>() -> (r: bool)
    ensures
        r == sizes_equal::<usize, Option<T>>(),
{
    t_niche_condition::<usize, T>()
}

/// Assert that the size and alignment of `Option<T>` are those of a pointer.
pub fn assert_pointer_niche<T>()
    requires
        sizes_equal::<usize, Option<T>>(),
        aligns_equal::<usize, Option<T>>(),
{
    assert_t_niche::<usize, T>();
}

/// Check that `Option<T>` is larger than a pointer.
#[must_use]
pub fn no_pointer_niche_condition<T>() -> (r: bool)
    ensures
        r == !size_fits::<Option<T>, usize>(),
{
    no_t_niche_condition::<usize, T>()
}

/// Assert that `Option<T>` is larger than a pointer.
pub fn assert_no_pointer_niche<T>()
    requires
        !size_fits::<Option<T>, usize>(),
{
    assert_no_t_niche::<usize, T>();
}

/// Check that the size and alignment of a pointer are at most those of
/// `Option<T>`.
#[must_use]
pub fn pointer_niche_compatible_condition<T>() -> (r: bool)
    ensures
        r == layout_fits::<usize, Option<T>>(),
{
    t_niche_compatible_condition::<usize, T>()
}

/// Assert that the size and alignment of a pointer are at most those of
/// `Option<T>`.
pub fn assert_pointer_niche_compatible<T>()
    requires
        size_fits::<usize, Option<T>>(),
        align_fits::<usize, Option<T>>(),
{
    assert_t_niche_compatible::<usize, T>();
}

/// Check that `Option<T>` has the size of a byte.
#[must_use]
pub fn byte_niche_condition<T>() -> (r: bool)
    ensures
        r == sizes_equal::<u8, Option<T>>(),
{
    t_niche_condition::<u8, T>()
}

/// Assert that the size and alignment of `Option<T>` are those of a byte.
pub fn assert_byte_niche<T>()
    requires
        sizes_equal::<u8, Option<T>>(),
        aligns_equal::<u8, Option<T>>(),
{
    assert_t_niche::<u8, T>();
}

/// Check that the size and alignment of `T` are those of a byte.
#[must_use]
pub fn byte_size_align_condition<T>() -> (r: bool)
    ensures
        r == layouts_equal::<T, u8>(),
{
    same_size_align_condition::<T, u8>()
}

/// Assert that the size and alignment of `T` are those of a byte.
pub fn assert_byte_size_align<T>()
    requires
        sizes_equal::<T, u8>(),
        aligns_equal::<T, u8>(),
{
    assert_same_size_align::<T, u8>();
}

/// Check that the size and alignment of `T` are at most those of a byte.
#[must_use]
pub fn byte_compatible_condition<T>() -> (r: bool)
    ensures
        r == layout_fits::<T, u8>(),
{
    compatible_size_align_condition::<T, u8>()
}

/// Assert that the size and alignment of `T` are at most those of a byte.
pub fn assert_byte_compatible<T>()
    requires
        size_fits::<T, u8>(),
        align_fits::<T, u8>(),
{
    assert_compatible_size_align::<T, u8>()
}

/// Check that both the size and the alignment of `T` exceed those of a byte.
#[must_use]
pub fn byte_incompatible_condition<T>() -> (r: bool)
    ensures
        r == (!size_fits::<T, u8>() && !align_fits::<T, u8>()),
{
    incompatible_size_align_condition::<T, u8>()
}

/// Assert that both the size and the alignment of `T` exceed those of a byte.
pub fn assert_byte_incompatible<T>()
    requires
        !size_fits::<T, u8>(),
        !align_fits::<T, u8>(),
{
    assert_incompatible_size_align::<T, u8>();
}

/// Check that `T` is zero-sized.
#[must_use]
pub fn zst_condition<T>() -> (r: bool)
    ensures
        r == size_is::<T>(0),
{
    size_condition::<T, 0>()
}

/// Assert that `T` is zero-sized.
pub fn assert_zst<T>()
    requires
        size_is::<T>(0),
{
    assert_size::<T, 0>()
}

/// Check that `T` is not zero-sized.
#[must_use]
pub fn not_zst_condition<T>() -> (r: bool)
    ensures
        r == !size_is::<T>(0),
{
    not_size_condition::<T, 0>()
}

/// Assert that `T` is not zero-sized.
pub fn assert_not_zst<T>()
    requires
        !size_is::<T>(0),
{
    assert_not_size::<T, 0>();
}

/// `T` is zero-sized and has no values: a `T` beside 255 other values still
/// leaves `Option` a niche within one byte.
pub open spec fn impossible_zst<T>() -> bool {
    size_is::<T>(0) && sizes_equal::<u8, Option<Niche255<T>>>()
}

/// Check that `T` is a zero-sized type that can never be constructed.
#[must_use]
pub fn impossible_zst_condition<T>() -> (r: bool)
    ensures
        r == impossible_zst::<T>(),
{
    zst_condition::<T>() && byte_niche_condition::<Niche255<T>>()
}

/// Assert that `T` is a zero-sized type that can never be constructed.
pub fn assert_impossible_zst<T>()
    requires
        impossible_zst::<T>(),
{
    let zst = zst_condition::<T>();
    let no_values = byte_niche_condition::<Niche255<T>>();
    proof {
        assert(zst && no_values);
    }
}

/// An impossible zero-sized type measures zero bytes, and `Option` of a `T`
/// beside 255 other values still fits in the size of a byte.
pub proof fn law_impossible_zst_measures<T>()
    ensures
        impossible_zst::<T>() == (vstd::layout::size_of::<T>() == 0 && vstd::layout::size_of::<
            u8,
        >() == vstd::layout::size_of::<Option<Niche255<T>>>()),
{
}

} // verus!
