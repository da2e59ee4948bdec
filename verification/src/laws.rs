//! What runs of calls on a list add up to.
//!
//! The contract of each operation says what one call does to the sequence of
//! elements. The functions here fold those single steps over a whole run of
//! calls, and the proofs state what comes out: the order that repeated pushes
//! leave, that pushing and popping at the head undo each other, that nothing
//! can be taken from an empty list however often it is tried, and that
//! iteration hands out everything, once, head first.

use crate::linkedlist::{clone_is_exact, clones_of, front, rest};
use vstd::prelude::*;

verus! {

/// One insertion, at either end of a list.
pub enum Push<T> {
    /// `push_front` of the value.
    Front(T),
    /// `push_back` of the value.
    Back(T),
}

/// The contents of a list that held `items` after one `push_back` for each of
/// `values`, first to last.
pub open spec fn after_push_backs<T>(items: Seq<T>, values: Seq<T>) -> Seq<T>
    decreases values.len(),
{
    if values.len() == 0 {
        items
    } else {
        after_push_backs(items.push(values.first()), values.drop_first())
    }
}

/// The contents of a list that held `items` after one `push_front` for each of
/// `values`, first to last.
pub open spec fn after_push_fronts<T>(items: Seq<T>, values: Seq<T>) -> Seq<T>
    decreases values.len(),
{
    if values.len() == 0 {
        items
    } else {
        after_push_fronts(seq![values.first()] + items, values.drop_first())
    }
}

/// The contents of a list that held `items` after the insertions `pushes`,
/// first to last.
pub open spec fn after_pushes<T>(items: Seq<T>, pushes: Seq<Push<T>>) -> Seq<T>
    decreases pushes.len(),
{
    if pushes.len() == 0 {
        items
    } else {
        let next = match pushes.first() {
            Push::Front(value) => seq![value] + items,
            Push::Back(value) => items.push(value),
        };
        after_pushes(next, pushes.drop_first())
    }
}

/// The values that `pushes` inserts at the head, in the order of the calls.
pub open spec fn pushed_front<T>(pushes: Seq<Push<T>>) -> Seq<T>
    decreases pushes.len(),
{
    if pushes.len() == 0 {
        Seq::empty()
    } else {
        match pushes.first() {
            Push::Front(value) => seq![value] + pushed_front(pushes.drop_first()),
            Push::Back(_) => pushed_front(pushes.drop_first()),
        }
    }
}

/// The values that `pushes` inserts at the tail, in the order of the calls.
pub open spec fn pushed_back<T>(pushes: Seq<Push<T>>) -> Seq<T>
    decreases pushes.len(),
{
    if pushes.len() == 0 {
        Seq::empty()
    } else {
        match pushes.first() {
            Push::Front(_) => pushed_back(pushes.drop_first()),
            Push::Back(value) => seq![value] + pushed_back(pushes.drop_first()),
        }
    }
}

/// The contents of a list that held `items` after `calls` calls of `pop_front`.
pub open spec fn after_pop_fronts<T>(items: Seq<T>, calls: nat) -> Seq<T>
    decreases calls,
{
    if calls == 0 {
        items
    } else {
        after_pop_fronts(rest(items), (calls - 1) as nat)
    }
}

/// What an iterator that still has `remaining` to hand out returns from its
/// calls of `next`, one after the other, up to the first `None`.
pub open spec fn handed_out<T>(remaining: Seq<T>) -> Seq<T>
    decreases remaining.len(),
{
    match front(remaining) {
        None => Seq::empty(),
        Some(item) => seq![item] + handed_out(rest(remaining)),
    }
}

/// A run of `push_back` calls appends the pushed values to what the list held,
/// in the order of the calls.
pub proof fn lemma_push_backs_append<T>(items: Seq<T>, values: Seq<T>)
    ensures
        after_push_backs(items, values) == items + values,
    decreases values.len(),
{
    if values.len() > 0 {
        lemma_push_backs_append(items.push(values.first()), values.drop_first());
    }
}

/// A run of `push_front` calls puts the pushed values in front of what the list
/// held, the last one pushed first.
pub proof fn lemma_push_fronts_prepend_reversed<T>(items: Seq<T>, values: Seq<T>)
    ensures
        after_push_fronts(items, values) == values.reverse() + items,
    decreases values.len(),
{
    if values.len() > 0 {
        lemma_push_fronts_prepend_reversed(seq![values.first()] + items, values.drop_first());
    }
}

/// However pushes at the two ends are mixed, the list ends up holding the values
/// pushed at the head, last one first, then what it held before, then the values
/// pushed at the tail in the order of the calls.
pub proof fn lemma_pushes_keep_every_value<T>(items: Seq<T>, pushes: Seq<Push<T>>)
    ensures
        after_pushes(items, pushes) == pushed_front(pushes).reverse() + items + pushed_back(pushes),
        pushed_front(pushes).len() + pushed_back(pushes).len() == pushes.len(),
    decreases pushes.len(),
{
    if pushes.len() > 0 {
        match pushes.first() {
            Push::Front(value) => {
                lemma_pushes_keep_every_value(seq![value] + items, pushes.drop_first());
            },
            Push::Back(value) => {
                lemma_pushes_keep_every_value(items.push(value), pushes.drop_first());
            },
        }
    }
}

/// An iterator hands out everything it has, in order and once each, and then
/// reports the end.
pub proof fn lemma_iteration_hands_out_everything<T>(remaining: Seq<T>)
    ensures
        handed_out(remaining) == remaining,
    decreases remaining.len(),
{
    if remaining.len() > 0 {
        lemma_iteration_hands_out_everything(rest(remaining));
    }
}

/// After `push_back` of each of `values` on an empty list, the list holds
/// exactly `values`, and iterating over it hands out a clone of each of them in
/// that order: the values themselves, where a clone of the element type always
/// equals what it was cloned from.
pub proof fn law_push_back_keeps_call_order<T: Clone>(values: Seq<T>, snapshot: Seq<T>)
    requires
        clones_of(after_push_backs(Seq::empty(), values), snapshot),
    ensures
        after_push_backs(Seq::empty(), values) == values,
        clones_of(values, handed_out(snapshot)),
        clone_is_exact::<T>() ==> handed_out(snapshot) == values,
{
    lemma_push_backs_append(Seq::empty(), values);
    lemma_iteration_hands_out_everything(snapshot);
}

/// After `push_front` of each of `values` on an empty list, the list holds
/// `values` in reverse, and iterating over it hands out a clone of each of them
/// in that reversed order: the values themselves, where a clone of the element
/// type always equals what it was cloned from.
pub proof fn law_push_front_reverses_call_order<T: Clone>(values: Seq<T>, snapshot: Seq<T>)
    requires
        clones_of(after_push_fronts(Seq::empty(), values), snapshot),
    ensures
        after_push_fronts(Seq::empty(), values) == values.reverse(),
        clones_of(values.reverse(), handed_out(snapshot)),
        clone_is_exact::<T>() ==> handed_out(snapshot) == values.reverse(),
{
    lemma_push_fronts_prepend_reversed(Seq::empty(), values);
    lemma_iteration_hands_out_everything(snapshot);
}

/// On an empty list it makes no difference at which end a value is pushed:
/// `push_back` leaves what `push_front` would have left.
pub proof fn law_first_push_is_the_same_at_either_end<T>(value: T)
    ensures
        Seq::<T>::empty().push(value) == seq![value] + Seq::<T>::empty(),
{
}

/// `pop_front` finds nothing on an empty list and leaves it empty, so it finds
/// nothing the next time either, however often it is called.
pub proof fn law_pop_front_on_empty_list_repeats<T>(calls: nat)
    ensures
        after_pop_fronts(Seq::<T>::empty(), calls) == Seq::<T>::empty(),
        front(after_pop_fronts(Seq::<T>::empty(), calls)) is None,
    decreases calls,
{
    if calls > 0 {
        law_pop_front_on_empty_list_repeats::<T>((calls - 1) as nat);
    }
}

/// `pop_front` right after `push_front` returns the value just pushed and
/// leaves the list as it was before the two calls: empty, if it was empty.
pub proof fn law_push_front_then_pop_front_round_trip<T>(items: Seq<T>, value: T)
    ensures
        front(seq![value] + items) == Some(value),
        rest(seq![value] + items) == items,
        items.len() == 0 ==> rest(seq![value] + items).len() == 0,
{
}

/// Each push adds exactly one element: after `n` calls of `push_back` and `m`
/// of `push_front` on an empty list, mixed in any order, the list has `n + m`
/// elements, and they are the pushed values, none twice and none missing.
pub proof fn law_mixed_pushes_add_one_element_each<T>(pushes: Seq<Push<T>>)
    ensures
        after_pushes(Seq::empty(), pushes).len() == pushed_back(pushes).len() + pushed_front(
            pushes,
        ).len(),
        after_pushes(Seq::empty(), pushes).len() == pushes.len(),
        after_pushes(Seq::empty(), pushes) == pushed_front(pushes).reverse() + pushed_back(pushes),
{
    lemma_pushes_keep_every_value(Seq::empty(), pushes);
}

} // verus!
