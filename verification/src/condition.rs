//! Checks over a fixed number of boolean conditions.

use vstd::prelude::*;

verus! {

/// Every condition in `conditions` is true.
pub open spec fn all_true(conditions: Seq<bool>) -> bool {
    forall|i: int| 0 <= i < conditions.len() ==> #[trigger] conditions[i]
}

/// At least one condition in `conditions` is true.
pub open spec fn any_true(conditions: Seq<bool>) -> bool {
    exists|i: int| 0 <= i < conditions.len() && #[trigger] conditions[i]
}

/// No condition in `conditions` is true.
pub open spec fn none_true(conditions: Seq<bool>) -> bool {
    forall|i: int| 0 <= i < conditions.len() ==> !#[trigger] conditions[i]
}

/// Assert that a condition is `true`.
pub fn const_assert(assert_condition: bool)
    requires
        assert_condition,
{
}

/// Check that all conditions are true.
#[must_use]
pub fn all_condition<const SIZE: usize>(conditions: [bool; SIZE]) -> (r: bool)
    ensures
        r == all_true(conditions@),
{
    let mut index: usize = 0;
    while index < SIZE
        invariant
            index <= SIZE,
            conditions@.len() == SIZE,
            forall|i: int| 0 <= i < index ==> #[trigger] conditions@[i],
        decreases SIZE - index,
    {
        if !conditions[index] {
            return false;
        }
        index += 1;
    }
    true
}

/// Assert that all conditions are `true`.
pub fn const_assert_all<const SIZE: usize>(assertions: [bool; SIZE])
    requires
        all_true(assertions@),
{
    let holds = all_condition(assertions);
    proof {
        assert(holds);
    }
}

/// Check that any condition is `true`.
#[must_use]
pub fn any_condition<const SIZE: usize>(conditions: [bool; SIZE]) -> (r: bool)
    ensures
        r == any_true(conditions@),
{
    let mut index: usize = 0;
    while index < SIZE
        invariant
            index <= SIZE,
            conditions@.len() == SIZE,
            forall|i: int| 0 <= i < index ==> !#[trigger] conditions@[i],
        decreases SIZE - index,
    {
        if conditions[index] {
            return true;
        }
        index += 1;
    }
    false
}

/// Assert that any condition is `true`.
pub fn const_assert_any<const SIZE: usize>(assertions: [bool; SIZE])
    requires
        any_true(assertions@),
{
    let holds = any_condition(assertions);
    proof {
        assert(holds);
    }
}

/// Check that none of the conditions are `true`.
#[must_use]
pub fn none_condition<const SIZE: usize>(conditions: [bool; SIZE]) -> (r: bool)
    ensures
        r == none_true(conditions@),
{
    let mut index: usize = 0;
    while index < SIZE
        invariant
            index <= SIZE,
            conditions@.len() == SIZE,
            forall|i: int| 0 <= i < index ==> !#[trigger] conditions@[i],
        decreases SIZE - index,
    {
        if conditions[index] {
            return false;
        }
        index += 1;
    }
    true
}

/// Assert that none of the conditions are `true`.
pub fn const_assert_none<const SIZE: usize>(assertions: [bool; SIZE])
    requires
        none_true(assertions@),
{
    let holds = none_condition(assertions);
    proof {
        assert(holds);
    }
}

/// No condition holds exactly when it is not the case that some condition
/// holds: `none_condition` is the negation of `any_condition`.
pub proof fn law_none_is_not_any(conditions: Seq<bool>)
    ensures
        none_true(conditions) == !any_true(conditions),
{
}

/// All conditions hold exactly when none of their negations holds, and some
/// condition holds exactly when not all of their negations hold.
pub proof fn law_all_is_none_of_negations(conditions: Seq<bool>)
    ensures
        all_true(conditions) == none_true(conditions.map_values(|b: bool| !b)),
        any_true(conditions) == !all_true(conditions.map_values(|b: bool| !b)),
{
    let negated = conditions.map_values(|b: bool| !b);
    assert(negated.len() == conditions.len());
    assert forall|i: int| 0 <= i < conditions.len() implies #[trigger] negated[i] == !conditions[i] by {}
    if !all_true(conditions) {
        let i = choose|i: int| 0 <= i < conditions.len() && !#[trigger] conditions[i];
        assert(negated[i]);
    }
    if !none_true(negated) {
        let i = choose|i: int| 0 <= i < negated.len() && #[trigger] negated[i];
        assert(!conditions[i]);
    }
    if any_true(conditions) {
        let i = choose|i: int| 0 <= i < conditions.len() && #[trigger] conditions[i];
        assert(!negated[i]);
    }
    if !all_true(negated) {
        let i = choose|i: int| 0 <= i < negated.len() && !#[trigger] negated[i];
        assert(conditions[i]);
    }
}

/// With no conditions at all, every condition holds and none holds, and so
/// no condition holds in the sense of `any`.
pub proof fn law_empty_conditions(conditions: Seq<bool>)
    requires
        conditions.len() == 0,
    ensures
        all_true(conditions),
        none_true(conditions),
        !any_true(conditions),
{
}

/// What the three checks compute, element by element: with no conditions
/// all hold, none holds and no condition is true; adding a condition at the
/// end keeps "all" only if it is true, makes "any" hold if it is true, and
/// keeps "none" only if it is false.
pub proof fn law_conditions_one_at_a_time(conditions: Seq<bool>, last: bool)
    ensures
        all_true(Seq::<bool>::empty()),
        !any_true(Seq::<bool>::empty()),
        none_true(Seq::<bool>::empty()),
        all_true(conditions.push(last)) == (all_true(conditions) && last),
        any_true(conditions.push(last)) == (any_true(conditions) || last),
        none_true(conditions.push(last)) == (none_true(conditions) && !last),
{
    let pushed = conditions.push(last);
    assert(pushed[conditions.len() as int] == last);
    assert forall|i: int| 0 <= i < conditions.len() implies #[trigger] pushed[i] == conditions[i] by {}
    if any_true(conditions) {
        let i = choose|i: int| 0 <= i < conditions.len() && #[trigger] conditions[i];
        assert(pushed[i]);
    }
    if !all_true(conditions) {
        let i = choose|i: int| 0 <= i < conditions.len() && !#[trigger] conditions[i];
        assert(!pushed[i]);
    }
    if any_true(pushed) && !last {
        let i = choose|i: int| 0 <= i < pushed.len() && #[trigger] pushed[i];
        assert(conditions[i]);
    }
}

} // verus!
