//! `isit` checks conditions that a program relies on: plain boolean
//! conditions, and the size, alignment and niches of types.
//!
//! Every `*_condition` function returns whether its condition holds; every
//! `assert_*` function demands it of its caller, so that a call whose
//! condition fails is refused when the caller is verified.

mod condition;
mod layout;
mod meta;
mod niche;
mod pointer;

pub mod const_assert;
pub mod util;

pub use condition::{
    all_condition, all_true, any_condition, any_true, const_assert, const_assert_all,
    const_assert_any, const_assert_none, law_all_is_none_of_negations, law_conditions_one_at_a_time, law_empty_conditions,
    law_none_is_not_any, none_condition, none_true,
};
pub use layout::{
    align_condition, align_fits, align_is, aligns_equal, assert_align, assert_compatible_align,
    assert_compatible_size, assert_compatible_size_align, assert_different_align,
    assert_different_size, assert_different_size_align, assert_incompatible_align,
    assert_incompatible_size, assert_incompatible_size_align, assert_not_align,
    assert_not_size, assert_not_size_align, assert_same_size, assert_same_size_align,
    assert_size, assert_size_align, compatible_align_condition,
    compatible_size_align_condition, compatible_size_condition, different_align_condition,
    different_size_align_condition, different_size_condition, incompatible_align_condition,
    incompatible_size_align_condition, incompatible_size_condition, law_checks_measure_size_and_align, law_fits_both_ways_is_same,
    law_fits_is_total, law_fits_is_transitive, law_same_is_symmetric, law_size_align_checks,
    layout_fits, layouts_equal, not_align_condition, not_size_align_condition,
    not_size_condition, same_align_condition, same_size_align_condition, same_size_condition,
    size_align_condition, size_condition, size_fits, size_is, sizes_equal,
};
pub use pointer::{
    assert_not_pointer_align, assert_not_pointer_size, assert_not_pointer_size_align,
    assert_pointer_align, assert_pointer_compatible_size_align,
    assert_pointer_incompatible_size_align, assert_pointer_size, assert_pointer_size_align,
    not_pointer_align_condition, not_pointer_size_align_condition, not_pointer_size_condition,
    pointer_align_condition, pointer_compatible_size_align_condition,
    pointer_incompatible_size_align_condition, pointer_size_align_condition,
    pointer_size_condition,
};
pub use niche::{
    assert_byte_compatible, assert_byte_incompatible, assert_byte_niche,
    assert_byte_size_align, assert_impossible_zst, assert_niche, assert_no_niche,
    assert_no_pointer_niche, assert_no_t_niche, assert_not_zst, assert_pointer_niche,
    assert_pointer_niche_compatible, assert_single_niche, assert_t_niche,
    assert_t_niche_compatible, assert_zst, byte_compatible_condition,
    byte_incompatible_condition, byte_niche_condition, byte_size_align_condition,
    impossible_zst, impossible_zst_condition, law_impossible_zst_measures, niche_condition, no_niche_condition,
    no_pointer_niche_condition, no_t_niche_condition, not_zst_condition,
    pointer_niche_compatible_condition, pointer_niche_condition, single_niche_condition,
    t_niche_compatible_condition, t_niche_condition, zst_condition,
};
