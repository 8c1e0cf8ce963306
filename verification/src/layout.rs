//! Checks on the size and the alignment of types.

use vstd::prelude::*;

verus! {

/// The size of `T` is `size` bytes.
pub open spec fn size_is<T>(size: int) -> bool {
    vstd::layout::size_of::<T>() == size
}

/// `L` and `R` have the same size.
pub open spec fn sizes_equal<L, R>() -> bool {
    vstd::layout::size_of::<L>() == vstd::layout::size_of::<R>()
}

/// The size of `Min` is at most the size of `Max`.
pub open spec fn size_fits<Min, Max>() -> bool {
    vstd::layout::size_of::<Min>() <= vstd::layout::size_of::<Max>()
}

/// The alignment of `T` is `align` bytes.
pub open spec fn align_is<T>(align: int) -> bool {
    vstd::layout::align_of::<T>() == align
}

/// `L` and `R` have the same alignment.
pub open spec fn aligns_equal<L, R>() -> bool {
    vstd::layout::align_of::<L>() == vstd::layout::align_of::<R>()
}

/// The alignment of `Min` is at most the alignment of `Max`.
pub open spec fn align_fits<Min, Max>() -> bool {
    vstd::layout::align_of::<Min>() <= vstd::layout::align_of::<Max>()
}

/// `L` and `R` have the same size and the same alignment.
pub open spec fn layouts_equal<L, R>() -> bool {
    sizes_equal::<L, R>() && aligns_equal::<L, R>()
}

/// Both the size and the alignment of `Min` are at most those of `Max`.
pub open spec fn layout_fits<Min, Max>() -> bool {
    size_fits::<Min, Max>() && align_fits::<Min, Max>()
}

/// Check that the size of `T` matches `SIZE`.
#[must_use]
pub fn size_condition<T, const SIZE: usize>() -> (r: bool)
    ensures
        r == size_is::<T>(SIZE as int),
{
    core::mem::size_of::<T>() == SIZE
}

/// Assert that the size of `T` matches `SIZE`.
pub fn assert_size<T, const SIZE: usize>()
    requires
        size_is::<T>(SIZE as int),
{
    let holds = size_condition::<T, SIZE>();
    proof {
        assert(holds);
    }
}

/// Check that the size of `T` does not match `SIZE`.
#[must_use]
pub fn not_size_condition<T, const SIZE: usize>() -> (r: bool)
    ensures
        r == !size_is::<T>(SIZE as int),
{
    core::mem::size_of::<T>() != SIZE
}

/// Assert that the size of `T` does not match `SIZE`.
pub fn assert_not_size<T, const SIZE: usize>()
    requires
        !size_is::<T>(SIZE as int),
{
    let holds = not_size_condition::<T, SIZE>();
    proof {
        assert(holds);
    }
}

/// Check that type `L` is the same size as type `R`.
#[must_use]
pub fn same_size_condition<L, R>() -> (r: bool)
    ensures
        r == sizes_equal::<L, R>(),
{
    core::mem::size_of::<L>() == core::mem::size_of::<R>()
}

/// Assert that type `L` is the same size as type `R`.
pub fn assert_same_size<L, R>()
    requires
        sizes_equal::<L, R>(),
{
    let holds = same_size_condition::<L, R>();
    proof {
        assert(holds);
    }
}

/// Check that type `L` and type `R` have different sizes.
#[must_use]
pub fn different_size_condition<L, R>() -> (r: bool)
    ensures
        r == !sizes_equal::<L, R>(),
{
    core::mem::size_of::<L>() != core::mem::size_of::<R>()
}

/// Assert that type `L` and type `R` have different sizes.
pub fn assert_different_size<L, R>()
    requires
        !sizes_equal::<L, R>(),
{
    let holds = different_size_condition::<L, R>();
    proof {
        assert(holds);
    }
}

/// Check that the size of `Min` is less than or equal to the size of `Max`.
#[must_use]
pub fn compatible_size_condition<Min, Max>() -> (r: bool)
    ensures
        r == size_fits::<Min, Max>(),
{
    core::mem::size_of::<Min>() <= core::mem::size_of::<Max>()
}

/// Assert that the size of `Min` is less than or equal to the size of `Max`.
pub fn assert_compatible_size<Min, Max>()
    requires
        size_fits::<Min, Max>(),
{
    let holds = compatible_size_condition::<Min, Max>();
    proof {
        assert(holds);
    }
}

/// Check that the size of `Max` is greater than the size of `Min`.
#[must_use]
pub fn incompatible_size_condition<Max, Min>() -> (r: bool)
    ensures
        r == !size_fits::<Max, Min>(),
{
    core::mem::size_of::<Max>() > core::mem::size_of::<Min>()
}

/// Assert that the size of `Max` is greater than the size of `Min`.
pub fn assert_incompatible_size<Max, Min>()
    requires
        !size_fits::<Max, Min>(),
{
    let holds = incompatible_size_condition::<Max, Min>();
    proof {
        assert(holds);
    }
}

/// Check that the alignment of `T` matches `ALIGN`.
#[must_use]
pub fn align_condition<T, const ALIGN: usize>() -> (r: bool)
    ensures
        r == align_is::<T>(ALIGN as int),
{
    core::mem::align_of::<T>() == ALIGN
}

/// Assert that the alignment of `T` matches `ALIGN`.
pub fn assert_align<T, const ALIGN: usize>()
    requires
        align_is::<T>(ALIGN as int),
{
    let holds = align_condition::<T, ALIGN>();
    proof {
        assert(holds);
    }
}

/// Check that the alignment of `T` does not match `ALIGN`.
#[must_use]
pub fn not_align_condition<T, const ALIGN: usize>() -> (r: bool)
    ensures
        r == !align_is::<T>(ALIGN as int),
{
    core::mem::align_of::<T>() != ALIGN
}

/// Assert that the alignment of `T` does not match `ALIGN`.
pub fn assert_not_align<T, const ALIGN: usize>()
    requires
        !align_is::<T>(ALIGN as int),
{
    let holds = not_align_condition::<T, ALIGN>();
    proof {
        assert(holds);
    }
}

/// Check that `L` and `R` have the same alignment.
#[must_use]
pub fn same_align_condition<L, R>() -> (r: bool)
    ensures
        r == aligns_equal::<L, R>(),
{
    core::mem::align_of::<L>() == core::mem::align_of::<R>()
}

/// Check that `L` and `R` have different alignments.
#[must_use]
pub fn different_align_condition<L, R>() -> (r: bool)
    ensures
        r == !aligns_equal::<L, R>(),
{
    core::mem::align_of::<L>() != core::mem::align_of::<R>()
}

/// Assert that `L` and `R` have different alignments.
pub fn assert_different_align<L, R>()
    requires
        !aligns_equal::<L, R>(),
{
    let holds = different_align_condition::<L, R>();
    proof {
        assert(holds);
    }
}

/// Check that the alignment of `Min` is less than or equal to the alignment of `Max`.
#[must_use]
pub fn compatible_align_condition<Min, Max>() -> (r: bool)
    ensures
        r == align_fits::<Min, Max>(),
{
    core::mem::align_of::<Min>() <= core::mem::align_of::<Max>()
}

/// Assert that the alignment of `Min` is less than or equal to the alignment of `Max`.
pub fn assert_compatible_align<Min, Max>()
    requires
        align_fits::<Min, Max>(),
{
    let holds = compatible_align_condition::<Min, Max>();
    proof {
        assert(holds);
    }
}

/// Check that the alignment of `Max` is greater than the alignment of `Min`.
#[must_use]
pub fn incompatible_align_condition<Max, Min>() -> (r: bool)
    ensures
        r == !align_fits::<Max, Min>(),
{
    core::mem::align_of::<Max>() > core::mem::align_of::<Min>()
}

/// Assert that the alignment of `Max` is greater than the alignment of `Min`.
pub fn assert_incompatible_align<Max, Min>()
    requires
        !align_fits::<Max, Min>(),
{
    let holds = incompatible_align_condition::<Max, Min>();
    proof {
        assert(holds);
    }
}

/// Check that `T` has the size `SIZE` and the alignment `ALIGN`.
pub fn size_align_condition<T, const SIZE: usize, const ALIGN: usize>() -> (r: bool)
    ensures
        r == (size_is::<T>(SIZE as int) && align_is::<T>(ALIGN as int)),
{
    core::mem::size_of::<T>() == SIZE && core::mem::align_of::<T>() == ALIGN
}

/// Assert that `T` has the size `SIZE` and the alignment `ALIGN`.
pub fn assert_size_align<T, const SIZE: usize, const ALIGN: usize>()
    requires
        size_is::<T>(SIZE as int),
        align_is::<T>(ALIGN as int),
{
    let size_check = core::mem::size_of::<T>() == SIZE;
    let align_check = core::mem::align_of::<T>() == ALIGN;
    proof {
        assert(size_check && align_check);
    }
}

/// Check that `T` differs from the size `SIZE` or from the alignment `ALIGN`.
#[must_use]
pub fn not_size_align_condition<T, const SIZE: usize, const ALIGN: usize>() -> (r: bool)
    ensures
        r == (!size_is::<T>(SIZE as int) || !align_is::<T>(ALIGN as int)),
{
    core::mem::size_of::<T>() != SIZE || core::mem::align_of::<T>() != ALIGN
}

/// Assert that `T` has neither the size `SIZE` nor the alignment `ALIGN`.
pub fn assert_not_size_align<T, const SIZE: usize, const ALIGN: usize>()
    requires
        !size_is::<T>(SIZE as int),
        !align_is::<T>(ALIGN as int),
{
    let not_size = core::mem::size_of::<T>() != SIZE;
    let not_align = core::mem::align_of::<T>() != ALIGN;
    proof {
        assert(not_size && not_align);
    }
}

/// Check that `L` and `R` have both the same size and the same alignment.
#[must_use]
pub fn same_size_align_condition<L, R>() -> (r: bool)
    ensures
        r == layouts_equal::<L, R>(),
{
    core::mem::size_of::<L>() == core::mem::size_of::<R>() && core::mem::align_of::<L>()
        == core::mem::align_of::<R>()
}

/// Assert that `L` and `R` have both the same size and the same alignment.
pub fn assert_same_size_align<L, R>()
    requires
        sizes_equal::<L, R>(),
        aligns_equal::<L, R>(),
{
    let size_check = core::mem::size_of::<L>() == core::mem::size_of::<R>();
    let align_check = core::mem::align_of::<L>() == core::mem::align_of::<R>();
    proof {
        assert(size_check && align_check);
    }
}

/// Check that `L` and `R` have different sizes and different alignments.
#[must_use]
pub fn different_size_align_condition<L, R>() -> (r: bool)
    ensures
        r == (!sizes_equal::<L, R>() && !aligns_equal::<L, R>()),
{
    core::mem::size_of::<L>() != core::mem::size_of::<R>() && core::mem::align_of::<L>()
        != core::mem::align_of::<R>()
}

/// Assert that `L` and `R` have different sizes and alignments.
pub fn assert_different_size_align<L, R>()
    requires
        !sizes_equal::<L, R>(),
        !aligns_equal::<L, R>(),
{
    let size_check = core::mem::size_of::<L>() != core::mem::size_of::<R>();
    let align_check = core::mem::align_of::<L>() != core::mem::align_of::<R>();
    proof {
        assert(size_check && align_check);
    }
}

/// Check that the size and alignment of `Min` are less than or equal to the
/// size and alignment of `Max`.
#[must_use]
pub fn compatible_size_align_condition<Min, Max>() -> (r: bool)
    ensures
        r == layout_fits::<Min, Max>(),
{
    core::mem::size_of::<Min>() <= core::mem::size_of::<Max>() && core::mem::align_of::<Min>()
        <= core::mem::align_of::<Max>()
}

/// Assert that the size and alignment of `Min` are less than or equal to the
/// size and alignment of `Max`.
pub fn assert_compatible_size_align<Min, Max>()
    requires
        size_fits::<Min, Max>(),
        align_fits::<Min, Max>(),
{
    let size_check = core::mem::size_of::<Min>() <= core::mem::size_of::<Max>();
    let align_check = core::mem::align_of::<Min>() <= core::mem::align_of::<Max>();
    proof {
        assert(size_check && align_check);
    }
}

/// Check that both the size and the alignment of `Max` are greater than
/// those of `Min`.
///
/// This only returns true when both the size and the alignment are
/// incompatible. If one of them is compatible, it returns false.
#[must_use]
pub fn incompatible_size_align_condition<Max, Min>() -> (r: bool)
    ensures
        r == (!size_fits::<Max, Min>() && !align_fits::<Max, Min>()),
{
    incompatible_size_condition::<Max, Min>() && incompatible_align_condition::<Max, Min>()
}

/// Assert that both the size and the alignment of `Max` are greater than
/// those of `Min`.
pub fn assert_incompatible_size_align<Max, Min>()
    requires
        !size_fits::<Max, Min>(),
        !align_fits::<Max, Min>(),
{
    let size_incompatible = incompatible_size_condition::<Max, Min>();
    let align_incompatible = incompatible_align_condition::<Max, Min>();
    proof {
        assert(size_incompatible && align_incompatible);
    }
}

/// Having the same size, and having the same alignment, do not depend on the
/// order in which the two types are named.
pub proof fn law_same_is_symmetric<L, R>()
    ensures
        sizes_equal::<L, R>() == sizes_equal::<R, L>(),
        aligns_equal::<L, R>() == aligns_equal::<R, L>(),
{
}

/// Each of two types fits in the other, in size or in alignment, exactly when
/// the two are the same in it.
pub proof fn law_fits_both_ways_is_same<L, R>()
    ensures
        (size_fits::<L, R>() && size_fits::<R, L>()) == sizes_equal::<L, R>(),
        (align_fits::<L, R>() && align_fits::<R, L>()) == aligns_equal::<L, R>(),
{
}

/// Fitting, in size and in alignment, passes along a chain of types.
pub proof fn law_fits_is_transitive<A, B, C>()
    ensures
        size_fits::<A, B>() && size_fits::<B, C>() ==> size_fits::<A, C>(),
        align_fits::<A, B>() && align_fits::<B, C>() ==> align_fits::<A, C>(),
{
}

/// Of two types, one always fits in the other: a type that is incompatible
/// with another in size or alignment leaves room for that other.
pub proof fn law_fits_is_total<A, B>()
    ensures
        size_fits::<A, B>() || size_fits::<B, A>(),
        align_fits::<A, B>() || align_fits::<B, A>(),
{
}

/// How the combined size and alignment checks relate: the same layout fits
/// both ways, a layout that is larger in both size and alignment does not fit
/// while the other way round it does, and a layout that differs in both is
/// not the same.
pub proof fn law_size_align_checks<A, B>()
    ensures
        layouts_equal::<A, B>() ==> layout_fits::<A, B>() && layout_fits::<B, A>(),
        !size_fits::<A, B>() && !align_fits::<A, B>() ==> !layout_fits::<A, B>()
            && layout_fits::<B, A>(),
        !sizes_equal::<A, B>() && !aligns_equal::<A, B>() ==> !layouts_equal::<A, B>(),
{
}

/// What each layout check measures: the sizes and alignments that
/// `core::mem::size_of` and `core::mem::align_of` report. Two types have the
/// same layout exactly when both their sizes and their alignments are equal,
/// and one fits in another exactly when both its size and its alignment are
/// at most the other's; in particular a type whose alignment exceeds another's
/// never fits in it, whatever their sizes.
pub proof fn law_checks_measure_size_and_align<A, B>(n: int)
    ensures
        size_is::<A>(n) == (vstd::layout::size_of::<A>() == n),
        align_is::<A>(n) == (vstd::layout::align_of::<A>() == n),
        sizes_equal::<A, B>() == (vstd::layout::size_of::<A>() == vstd::layout::size_of::<B>()),
        aligns_equal::<A, B>() == (vstd::layout::align_of::<A>() == vstd::layout::align_of::<B>()),
        size_fits::<A, B>() == (vstd::layout::size_of::<A>() <= vstd::layout::size_of::<B>()),
        align_fits::<A, B>() == (vstd::layout::align_of::<A>() <= vstd::layout::align_of::<B>()),
        layouts_equal::<A, B>() == (vstd::layout::size_of::<A>() == vstd::layout::size_of::<B>()
            && vstd::layout::align_of::<A>() == vstd::layout::align_of::<B>()),
        layout_fits::<A, B>() == (vstd::layout::size_of::<A>() <= vstd::layout::size_of::<B>()
            && vstd::layout::align_of::<A>() <= vstd::layout::align_of::<B>()),
        vstd::layout::align_of::<A>() > vstd::layout::align_of::<B>() ==> !layout_fits::<A, B>(),
{
}

} // verus!
