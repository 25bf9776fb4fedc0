//! Views that walk the live elements of a container, forward or backward.
//!
//! A view is made by the container and borrows it. Its direction is chosen
//! when it is made. It yields one element at each advance, and once it has
//! reported the end it reports the end at every later advance.

use vstd::prelude::*;
use crate::storage::Vec;

verus! {

/// A read-only view over the elements of a container.
pub struct VecIterator<'a, T> {
    vec: &'a Vec<T>,
    index: usize,
    reverse: bool,
    end: bool,
}

impl<'a, T> VecIterator<'a, T> {
    /// The invariant of the view: the container that it walks is well formed.
    pub closed spec fn wf(&self) -> bool {
        self.vec.wf()
    }

    /// The elements of the container that the view walks.
    pub closed spec fn source(&self) -> Seq<T> {
        self.vec@
    }

    /// The elements that the view has yet to yield, in the order in which it
    /// will yield them.
    pub closed spec fn remaining(&self) -> Seq<T> {
        if self.end || self.index >= self.vec@.len() {
            Seq::empty()
        } else if self.reverse {
            self.vec@.subrange(0, self.index + 1).reverse()
        } else {
            self.vec@.subrange(self.index as int, self.vec@.len() as int)
        }
    }

    /// Advances the view: yields the first of the remaining elements, or
    /// reports the end and leaves the view as it is.
    pub fn next(&mut self) -> (item: Option<&'a T>)
        requires
            old(self).wf(),
        ensures
            final(self).wf(),
            final(self).source() == old(self).source(),
            old(self).remaining().len() == 0 ==> item is None && *final(self) == *old(self),
            old(self).remaining().len() > 0 ==> item == Some(&old(self).remaining()[0])
                && final(self).remaining() == old(self).remaining().drop_first(),
    {
        if self.end {
            return None;
        }
        let vec: &'a Vec<T> = self.vec;
        if self.index < vec.len() {
            let value = vec.get_unchecked(self.index);
            if self.reverse {
                if self.index == 0 {
                    self.end = true;
                    assert(self.remaining() =~= old(self).remaining().drop_first());
                    return Some(value);
                }
                self.index -= 1;
            } else {
                self.index += 1;
            }
            assert(self.remaining() =~= old(self).remaining().drop_first());
            Some(value)
        } else {
            None
        }
    }
}

/// A view over the elements of a container that hands out exclusive
/// references to them.
///
/// `vec` is the container, `index` the position of the element that the next
/// advance yields, `reverse` the direction, and `end` is set once a backward
/// view has yielded the element at position 0. The fields are public so that
/// contracts can speak of the container as it is when the view is dropped.
pub struct VecIteratorMut<'a, T> {
    pub vec: &'a mut Vec<T>,
    pub index: usize,
    pub reverse: bool,
    pub end: bool,
}

impl<'a, T> VecIteratorMut<'a, T> {
    /// The elements that the view has yet to yield, in the order in which it
    /// will yield them.
    pub open spec fn remaining(&self) -> Seq<T> {
        if self.end || self.index >= self.vec@.len() {
            Seq::empty()
        } else if self.reverse {
            self.vec@.subrange(0, self.index + 1).reverse()
        } else {
            self.vec@.subrange(self.index as int, self.vec@.len() as int)
        }
    }

    /// Advances the view: yields exclusive access to the first of the
    /// remaining elements, or reports the end and leaves the view as it is.
    /// What is written through the reference is the element at that position
    /// of the container afterwards; nothing else of the container changes.
    pub fn next(&mut self) -> (item: Option<&mut T>)
        requires
            old(self).vec.wf(),
        ensures
            final(self).vec.wf(),
            *final(final(self).vec) == *final(old(self).vec),
            final(self).vec.capacity() == old(self).vec.capacity(),
            final(self).reverse == old(self).reverse,
            old(self).remaining().len() == 0 ==> item is None
                && final(self).vec@ == old(self).vec@
                && final(self).index == old(self).index
                && final(self).end == old(self).end,
            old(self).remaining().len() > 0 ==> item is Some
                && *item->0 == old(self).remaining()[0]
                && final(self).vec@ == old(self).vec@.update(old(self).index as int, *final(item->0))
                && final(self).remaining() == old(self).remaining().drop_first(),
            old(self).remaining().len() > 0 && !old(self).reverse ==> !final(self).end
                && final(self).index == old(self).index + 1,
            old(self).remaining().len() > 0 && old(self).reverse && old(self).index > 0
                ==> !final(self).end && final(self).index == old(self).index - 1,
            old(self).remaining().len() > 0 && old(self).reverse && old(self).index == 0
                ==> final(self).end && final(self).index == 0,
    {
        if self.end {
            return None;
        }
        if self.index < self.vec.len() {
            let index: usize = self.index;
            if self.reverse {
                if self.index == 0 {
                    self.end = true;
                } else {
                    self.index -= 1;
                }
            } else {
                self.index += 1;
            }
            let item = self.vec.get_unchecked_mut(index);
            proof {
                let before = old(self).vec@;
                let after = before.update(index as int, *final(item));
                if old(self).reverse {
                    if index > 0 {
                        assert(after.subrange(0, index as int).reverse()
                            =~= before.subrange(0, index + 1).reverse().drop_first());
                    }
                } else {
                    if index + 1 < before.len() {
                        assert(after.subrange(index + 1, after.len() as int)
                            =~= before.subrange(index as int, before.len() as int).drop_first());
                    }
                }
            }
            Some(item)
        } else {
            None
        }
    }
}

impl<T> Vec<T> {
    /// A view that yields the elements from the first to the last.
    pub fn iter(&self) -> (it: VecIterator<'_, T>)
        requires
            self.wf(),
        ensures
            it.wf(),
            it.source() == self@,
            it.remaining() == self@,
    {
        let it = VecIterator { vec: self, index: 0, reverse: false, end: false };
        assert(it.remaining() =~= self@);
        it
    }

    /// A view that yields the elements from the last to the first. Over an
    /// empty container it is at its end from the start.
    pub fn reverse(&self) -> (it: VecIterator<'_, T>)
        requires
            self.wf(),
        ensures
            it.wf(),
            it.source() == self@,
            it.remaining() == self@.reverse(),
    {
        let it = if self.len() == 0 {
            VecIterator { vec: self, index: 0, reverse: true, end: true }
        } else {
            VecIterator { vec: self, index: self.len() - 1, reverse: true, end: false }
        };
        assert(it.remaining() =~= self@.reverse());
        it
    }

    /// A view that yields exclusive access to the elements from the first to
    /// the last. When the view is dropped, the container is as the view left
    /// it.
    pub fn iter_mut(&mut self) -> (it: VecIteratorMut<'_, T>)
        requires
            old(self).wf(),
        ensures
            *it.vec == *old(self),
            *final(it.vec) == *final(self),
            it.index == 0,
            !it.reverse,
            !it.end,
            it.remaining() == old(self)@,
    {
        let ghost elements = self@;
        let it = VecIteratorMut { vec: self, index: 0, reverse: false, end: false };
        assert(it.remaining() =~= elements);
        it
    }

    /// A view that yields exclusive access to the elements from the last to
    /// the first. Over an empty container it is at its end from the start.
    /// When the view is dropped, the container is as the view left it.
    pub fn reverse_mut(&mut self) -> (it: VecIteratorMut<'_, T>)
        requires
            old(self).wf(),
        ensures
            *it.vec == *old(self),
            *final(it.vec) == *final(self),
            it.index == (if old(self)@.len() == 0 {
                0
            } else {
                old(self)@.len() - 1
            }),
            it.reverse,
            it.end == (old(self)@.len() == 0),
            it.remaining() == old(self)@.reverse(),
    {
        let ghost elements = self@;
        let length: usize = self.len();
        let it = if length == 0 {
            VecIteratorMut { vec: self, index: 0, reverse: true, end: true }
        } else {
            VecIteratorMut { vec: self, index: length - 1, reverse: true, end: false }
        };
        assert(it.remaining() =~= elements.reverse());
        it
    }
}

} // verus!
