//! What holds across several operations of the container.
//!
//! Each law is stated over the views and spec functions that the contracts of
//! the operations use, so that it applies to any run of those operations.

use vstd::prelude::*;
use crate::storage::grown_capacity;
use crate::storage::next_capacity;
use crate::storage::Vec;

verus! {

/// The elements after each of `values` is pushed, in order, onto `elements`.
pub open spec fn pushed_all<T>(elements: Seq<T>, values: Seq<T>) -> Seq<T>
    decreases values.len(),
{
    if values.len() == 0 {
        elements
    } else {
        pushed_all(elements.push(values.first()), values.drop_first())
    }
}

/// What is left of the elements that a view has yet to yield after `count`
/// advances: each advance takes the first away, and a view with nothing left
/// stays so.
pub open spec fn advanced<T>(remaining: Seq<T>, count: nat) -> Seq<T>
    decreases count,
{
    if count == 0 {
        remaining
    } else if remaining.len() == 0 {
        advanced(remaining, (count - 1) as nat)
    } else {
        advanced(remaining.drop_first(), (count - 1) as nat)
    }
}

/// The capacity after `count` elements are pushed, one by one, onto a
/// container of `len` elements in `capacity` slots: the buffer grows before
/// each push that finds every slot taken.
pub open spec fn capacity_after_pushes(len: int, capacity: int, count: nat) -> int
    decreases count,
{
    if count == 0 {
        capacity
    } else {
        capacity_after_pushes(len + 1, next_capacity(len, capacity), (count - 1) as nat)
    }
}

/// Whether `n` is 1, 2, 4, 8 and so on.
pub open spec fn is_power_of_two(n: int) -> bool
    decreases n,
{
    n == 1 || (n > 1 && n % 2 == 0 && is_power_of_two(n / 2))
}

/// Whether `capacity` is what doubling from nothing gives for `len` elements:
/// nothing for none, and else the least power of two that holds them.
pub open spec fn least_doubling(len: int, capacity: int) -> bool {
    if len <= 0 {
        capacity == 0
    } else {
        is_power_of_two(capacity) && len <= capacity < 2 * len
    }
}

/// After any number of pushes onto an empty container without a buffer, the
/// capacity is the least power of two that holds the elements: 1, 2, 4, 4,
/// 8, 8, 8, 8, 16 and so on.
pub proof fn capacity_doubles_from_empty(count: nat)
    ensures
        least_doubling(count as int, capacity_after_pushes(0, 0, count)),
{
    lemma_capacity_after_pushes(0, 0, count);
}

proof fn lemma_capacity_after_pushes(len: int, capacity: int, count: nat)
    requires
        least_doubling(len, capacity),
        len >= 0,
    ensures
        least_doubling(len + count, capacity_after_pushes(len, capacity, count)),
    decreases count,
{
    if count > 0 {
        let next = next_capacity(len, capacity);
        if len == capacity && capacity > 0 {
            assert((2 * capacity) / 2 == capacity);
            assert(is_power_of_two(2 * capacity));
        }
        assert(least_doubling(len + 1, next));
        lemma_capacity_after_pushes(len + 1, next, (count - 1) as nat);
    }
}

/// Pushing values one by one appends them in order: the container is as
/// many elements longer as there were pushes, the elements that were there
/// stay, and the pushed values follow them in the order of the pushes.
pub proof fn pushes_append_in_order<T>(v: Vec<T>, values: Seq<T>)
    ensures
        pushed_all(v@, values) == v@ + values,
        pushed_all(v@, values).len() == v@.len() + values.len(),
        forall|i: int| 0 <= i < v@.len() ==> pushed_all(v@, values)[i] == v@[i],
        forall|i: int| 0 <= i < values.len() ==> pushed_all(v@, values)[v@.len() + i] == values[i],
{
    lemma_pushed_all(v@, values);
}

/// After any number of pushes onto an empty container, the length is the
/// number of pushes and the element at each index is the value of the push
/// with that number.
pub proof fn pushes_from_empty<T>(values: Seq<T>)
    ensures
        pushed_all(Seq::<T>::empty(), values) == values,
        pushed_all(Seq::<T>::empty(), values).len() == values.len(),
        forall|i: int|
            0 <= i < values.len() ==> pushed_all(Seq::<T>::empty(), values)[i] == values[i],
{
    lemma_pushed_all(Seq::<T>::empty(), values);
    assert(Seq::<T>::empty() + values =~= values);
}

proof fn lemma_pushed_all<T>(elements: Seq<T>, values: Seq<T>)
    ensures
        pushed_all(elements, values) == elements + values,
    decreases values.len(),
{
    if values.len() == 0 {
        assert(elements + values =~= elements);
    } else {
        lemma_pushed_all(elements.push(values.first()), values.drop_first());
        assert(elements.push(values.first()) + values.drop_first() =~= elements + values);
    }
}

/// A push onto a full container grows the buffer, and the elements that were
/// there keep their indices and their values.
pub proof fn growth_keeps_elements<T>(v: Vec<T>, value: T)
    requires
        v@.len() == v.capacity(),
    ensures
        v.capacity_with_one_more() == grown_capacity(v.capacity() as int),
        v.capacity_with_one_more() > v@.len(),
        forall|i: int| 0 <= i < v@.len() ==> v@.push(value)[i] == v@[i],
{
}

/// A pop after a push gives the pushed value back and leaves the elements,
/// and so the length, as they were before the push.
pub proof fn push_then_pop<T>(v: Vec<T>, value: T)
    ensures
        v@.push(value).len() > 0,
        v@.push(value).last() == value,
        v@.push(value).drop_last() == v@,
        v@.push(value).drop_last().len() == v@.len(),
{
    assert(v@.push(value).drop_last() =~= v@);
}

/// A removal at the index of an insertion gives the inserted value back and
/// leaves the elements as they were before the insertion.
pub proof fn insert_then_remove<T>(v: Vec<T>, index: usize, value: T)
    requires
        index <= v@.len(),
    ensures
        index < v@.insert(index as int, value).len(),
        v@.insert(index as int, value)[index as int] == value,
        v@.insert(index as int, value).remove(index as int) == v@,
{
    assert(v@.insert(index as int, value).remove(index as int) =~= v@);
}

/// An insertion at the length is a push: it is accepted where a push is, and
/// it leaves the same elements in the same order and the same capacity.
pub proof fn insert_at_len_is_push<T>(v: Vec<T>, value: T)
    ensures
        v@.insert(v@.len() as int, value) == v@.push(value),
{
    assert(v@.insert(v@.len() as int, value) =~= v@.push(value));
}

/// A forward view yields the elements in the order of their indices, each
/// once: advance number `count`, counted from 0, yields the element at index
/// `count`. From advance number `len` on the view reports the end.
pub proof fn forward_view_yields_in_order<T>(v: Vec<T>, count: nat)
    ensures
        count < v@.len() ==> advanced(v@, count).len() > 0
            && advanced(v@, count)[0] == v@[count as int],
        count >= v@.len() ==> advanced(v@, count).len() == 0,
{
    lemma_advanced(v@, count);
}

/// A backward view yields the elements against the order of their indices,
/// each once: advance number `count`, counted from 0, yields the element at
/// index `len - 1 - count`. From advance number `len` on the view reports the
/// end.
pub proof fn backward_view_yields_in_order<T>(v: Vec<T>, count: nat)
    ensures
        count < v@.len() ==> advanced(v@.reverse(), count).len() > 0
            && advanced(v@.reverse(), count)[0] == v@[v@.len() - 1 - count],
        count >= v@.len() ==> advanced(v@.reverse(), count).len() == 0,
{
    lemma_advanced(v@.reverse(), count);
}

proof fn lemma_advanced<T>(remaining: Seq<T>, count: nat)
    ensures
        count <= remaining.len() ==> advanced(remaining, count) == remaining.skip(count as int),
        count >= remaining.len() ==> advanced(remaining, count).len() == 0,
    decreases count,
{
    if count == 0 {
        assert(remaining.skip(0) =~= remaining);
    } else if remaining.len() == 0 {
        lemma_advanced(remaining, (count - 1) as nat);
    } else {
        lemma_advanced(remaining.drop_first(), (count - 1) as nat);
        if count <= remaining.len() {
            assert(remaining.drop_first().skip(count - 1) =~= remaining.skip(count as int));
        }
    }
}

} // verus!
