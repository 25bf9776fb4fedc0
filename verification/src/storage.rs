//! The container: a buffer of slots, the count of live elements, and the
//! operations that construct, move and destroy elements in the slots.

use vstd::prelude::*;

verus! {

/// A growable array of `T`.
///
/// `data` is the buffer: one entry for each allocated slot. A slot that holds
/// a live element is `Some`, an unused slot is `None`. The live elements are
/// the first `length` slots, in order; `data.len()` is the capacity.
///
/// When the container is dropped, the buffer drops its slots in index order,
/// and with them the live elements, and is then released.
pub struct Vec<T> {
    data: std::vec::Vec<Option<T>>,
    length: usize,
}

impl<T> View for Vec<T> {
    type V = Seq<T>;

    /// The live elements, in index order.
    closed spec fn view(&self) -> Seq<T> {
        Seq::new(self.length as nat, |i: int| self.data@[i]->0)
    }
}

/// The capacity that a full buffer of `capacity` slots grows to: twice as
/// many, and one where there were none.
pub open spec fn grown_capacity(capacity: int) -> int {
    if 2 * capacity > 1 {
        2 * capacity
    } else {
        1
    }
}

/// The capacity after one element is added to `len` elements in `capacity`
/// slots: grown if every slot is taken, unchanged otherwise.
pub open spec fn next_capacity(len: int, capacity: int) -> int {
    if len == capacity {
        grown_capacity(capacity)
    } else {
        capacity
    }
}

/// A buffer of `capacity` slots, none of which holds an element.
fn allocate<T>(capacity: usize) -> (data: std::vec::Vec<Option<T>>)
    ensures
        data@.len() == capacity,
        forall|i: int| 0 <= i < capacity ==> (#[trigger] data@[i]) is None,
{
    let mut data: std::vec::Vec<Option<T>> = std::vec::Vec::with_capacity(capacity);
    let mut i: usize = 0;
    while i < capacity
        invariant
            i <= capacity,
            data@.len() == i,
            forall|j: int| 0 <= j < i ==> (#[trigger] data@[j]) is None,
        decreases capacity - i,
    {
        data.push(None);
        i += 1;
    }
    data
}

impl<T> Vec<T> {
    /// The invariant of the container: the live elements fill the first
    /// `len()` slots, `len()` is at most the capacity, and every slot behind
    /// them is unused.
    pub closed spec fn wf(&self) -> bool {
        &&& self.length <= self.data@.len() <= usize::MAX
        &&& forall|i: int| 0 <= i < self.length ==> (#[trigger] self.data@[i]) is Some
        &&& forall|i: int| self.length <= i < self.data@.len() ==> (#[trigger] self.data@[i]) is None
    }

    /// The number of allocated slots.
    pub closed spec fn spec_capacity(&self) -> usize {
        self.data@.len() as usize
    }

    /// The live elements never outnumber the slots.
    pub proof fn len_within_capacity(&self)
        requires
            self.wf(),
        ensures
            self@.len() <= self.capacity(),
    {
    }

    /// Whether one more element can be added: either a slot is free, or the
    /// grown capacity still fits in a `usize`.
    pub open spec fn fits_one_more(&self) -> bool {
        self@.len() < self.capacity() || grown_capacity(self.capacity() as int) <= usize::MAX
    }

    /// The capacity after one more element is added: grown if every slot is
    /// taken, unchanged otherwise.
    pub open spec fn capacity_with_one_more(&self) -> int {
        next_capacity(self@.len() as int, self.capacity() as int)
    }

    /// An empty container without a buffer.
    pub fn new() -> (v: Self)
        ensures
            v.wf(),
            v@ == Seq::<T>::empty(),
            v.capacity() == 0,
    {
        Vec::default()
    }

    /// An empty container with a buffer of exactly `capacity` unused slots.
    pub fn with_capacity(capacity: usize) -> (v: Self)
        ensures
            v.wf(),
            v@ == Seq::<T>::empty(),
            v.capacity() == capacity,
    {
        let data = allocate(capacity);
        Vec { data, length: 0 }
    }

    /// The number of live elements.
    pub fn len(&self) -> (n: usize)
        ensures
            n == self@.len(),
    {
        self.length
    }

    /// Whether there is no live element.
    pub fn is_empty(&self) -> (b: bool)
        ensures
            b <==> self@.len() == 0,
    {
        self.length == 0
    }

    /// The number of allocated slots.
    #[verifier::when_used_as_spec(spec_capacity)]
    pub fn capacity(&self) -> (c: usize)
        ensures
            c == self.capacity(),
    {
        self.data.len()
    }

    /// Moves the live elements, in index order, into a fresh buffer of
    /// `capacity` slots, and releases the old buffer.
    fn relocate(&mut self, capacity: usize)
        requires
            old(self).wf(),
            old(self)@.len() <= capacity,
        ensures
            final(self).wf(),
            final(self)@ == old(self)@,
            final(self).capacity() == capacity,
    {
        let mut fresh: std::vec::Vec<Option<T>> = allocate(capacity);
        let mut i: usize = 0;
        while i < self.length
            invariant
                i <= self.length <= capacity,
                self.length == old(self).length,
                self.data@.len() == old(self).data@.len(),
                self.length <= self.data@.len(),
                fresh@.len() == capacity,
                forall|j: int| 0 <= j < i ==> (#[trigger] fresh@[j]) == old(self).data@[j],
                forall|j: int| i <= j < capacity ==> (#[trigger] fresh@[j]) is None,
                forall|j: int| 0 <= j < i ==> (#[trigger] self.data@[j]) is None,
                forall|j: int|
                    i <= j < self.data@.len() ==> (#[trigger] self.data@[j]) == old(self).data@[j],
            decreases self.length - i,
        {
            let moved = self.data[i].take();
            fresh[i] = moved;
            i += 1;
        }
        self.data = fresh;
        assert(self@ =~= old(self)@);
    }

    /// Grows the buffer to `grown_capacity` of its capacity. The live
    /// elements keep their order and their values.
    fn extend(&mut self)
        requires
            old(self).wf(),
            grown_capacity(old(self).capacity() as int) <= usize::MAX,
        ensures
            final(self).wf(),
            final(self)@ == old(self)@,
            final(self).capacity() == grown_capacity(old(self).capacity() as int),
    {
        let capacity: usize = self.data.len();
        let new_cap: usize = if capacity == 0 {
            1
        } else {
            capacity * 2
        };
        self.relocate(new_cap);
    }

    /// Appends `value` behind the live elements. The buffer grows first if
    /// every slot is taken, and only then.
    pub fn push(&mut self, value: T)
        requires
            old(self).wf(),
            old(self).fits_one_more(),
        ensures
            final(self).wf(),
            final(self)@ == old(self)@.push(value),
            final(self).capacity() == old(self).capacity_with_one_more(),
    {
        if self.length == self.data.len() {
            self.extend();
        }
        self.data[self.length] = Some(value);
        self.length += 1;
        assert(self@ =~= old(self)@.push(value));
    }

    /// Takes the last live element out, if there is one.
    pub fn pop(&mut self) -> (value: Option<T>)
        requires
            old(self).wf(),
        ensures
            final(self).wf(),
            final(self).capacity() == old(self).capacity(),
            old(self)@.len() == 0 ==> value is None && final(self)@ == old(self)@,
            old(self)@.len() > 0 ==> value == Some(old(self)@.last())
                && final(self)@ == old(self)@.drop_last(),
    {
        if self.length == 0 {
            return None;
        }
        self.length -= 1;
        let value = self.data[self.length].take();
        assert(self@ =~= old(self)@.drop_last());
        value
    }

    /// The element at `index`, if `index` is that of a live element.
    pub fn get(&self, index: usize) -> (element: Option<&T>)
        requires
            self.wf(),
        ensures
            index < self@.len() ==> element == Some(&self@[index as int]),
            index >= self@.len() ==> element is None,
    {
        if index >= self.length {
            return None;
        }
        self.data[index].as_ref()
    }

    /// Exclusive access to the element at `index`, if `index` is that of a
    /// live element. What is written through the reference is the element at
    /// `index` afterwards; nothing else changes.
    pub fn get_mut(&mut self, index: usize) -> (element: Option<&mut T>)
        requires
            old(self).wf(),
        ensures
            final(self).wf(),
            final(self).capacity() == old(self).capacity(),
            index >= old(self)@.len() ==> element is None && final(self)@ == old(self)@,
            index < old(self)@.len() ==> element is Some && *element->0 == old(self)@[index as int]
                && final(self)@ == old(self)@.update(index as int, *final(element->0)),
    {
        if index >= self.length {
            return None;
        }
        self.data[index].as_mut()
    }

    /// The element at `index`, which the caller knows to be that of a live
    /// element.
    pub fn get_unchecked(&self, index: usize) -> (element: &T)
        requires
            self.wf(),
            index < self@.len(),
        ensures
            *element == self@[index as int],
    {
        self.data[index].as_ref().unwrap()
    }

    /// Exclusive access to the element at `index`, which the caller knows to
    /// be that of a live element.
    pub fn get_unchecked_mut(&mut self, index: usize) -> (element: &mut T)
        requires
            old(self).wf(),
            index < old(self)@.len(),
        ensures
            final(self).wf(),
            final(self).capacity() == old(self).capacity(),
            *element == old(self)@[index as int],
            final(self)@ == old(self)@.update(index as int, *final(element)),
    {
        self.data[index].as_mut().unwrap()
    }

    /// Destroys the live elements, in index order. The buffer stays.
    pub fn clear(&mut self)
        requires
            old(self).wf(),
        ensures
            final(self).wf(),
            final(self)@ == Seq::<T>::empty(),
            final(self).capacity() == old(self).capacity(),
    {
        let mut i: usize = 0;
        while i < self.length
            invariant
                i <= self.length <= self.data@.len(),
                self.length == old(self).length,
                self.data@.len() == old(self).data@.len(),
                forall|j: int| 0 <= j < i ==> (#[trigger] self.data@[j]) is None,
                forall|j: int|
                    self.length <= j < self.data@.len() ==> (#[trigger] self.data@[j]) is None,
            decreases self.length - i,
        {
            self.data[i] = None;
            i += 1;
        }
        self.length = 0;
    }

    /// Takes the element at `index` out and closes the gap: the elements
    /// behind it move one slot towards the front, in their order.
    pub fn remove(&mut self, index: usize) -> (value: Option<T>)
        requires
            old(self).wf(),
        ensures
            final(self).wf(),
            final(self).capacity() == old(self).capacity(),
            index >= old(self)@.len() ==> value is None && final(self)@ == old(self)@,
            index < old(self)@.len() ==> value == Some(old(self)@[index as int])
                && final(self)@ == old(self)@.remove(index as int),
    {
        if index >= self.length {
            return None;
        }
        let value = self.data[index].take();
        let mut i: usize = index;
        while i + 1 < self.length
            invariant
                index <= i < self.length <= self.data@.len(),
                self.length == old(self).length,
                self.data@.len() == old(self).data@.len(),
                forall|j: int| 0 <= j < index ==> (#[trigger] self.data@[j]) == old(self).data@[j],
                forall|j: int|
                    index <= j < i ==> (#[trigger] self.data@[j]) == old(self).data@[j + 1],
                self.data@[i as int] is None,
                forall|j: int|
                    i < j < self.data@.len() ==> (#[trigger] self.data@[j]) == old(self).data@[j],
            decreases self.length - i,
        {
            let moved = self.data[i + 1].take();
            self.data[i] = moved;
            i += 1;
        }
        self.length -= 1;
        assert(self@ =~= old(self)@.remove(index as int));
        value
    }

    /// Puts `value` at `index`: the elements from `index` on move one slot
    /// towards the back, in their order. An `index` of `len()` appends. The
    /// buffer grows first if every slot is taken, and only then.
    pub fn insert(&mut self, index: usize, value: T) -> (done: Option<()>)
        requires
            old(self).wf(),
            index <= old(self)@.len() ==> old(self).fits_one_more(),
        ensures
            final(self).wf(),
            index > old(self)@.len() ==> done is None && final(self)@ == old(self)@
                && final(self).capacity() == old(self).capacity(),
            index <= old(self)@.len() ==> done is Some
                && final(self)@ == old(self)@.insert(index as int, value)
                && final(self).capacity() == old(self).capacity_with_one_more(),
    {
        if index > self.length {
            return None;
        }
        if self.length == self.data.len() {
            self.extend();
        }
        let mut i: usize = self.length;
        while i > index
            invariant
                index <= i <= self.length < self.data@.len(),
                self.length == old(self).length,
                self.data@.len() == old(self).capacity_with_one_more(),
                forall|j: int| 0 <= j < i ==> (#[trigger] self.data@[j]) == Some(old(self)@[j]),
                self.data@[i as int] is None,
                forall|j: int|
                    i < j <= self.length ==> (#[trigger] self.data@[j]) == Some(old(self)@[j - 1]),
                forall|j: int|
                    self.length < j < self.data@.len() ==> (#[trigger] self.data@[j]) is None,
            decreases i,
        {
            let moved = self.data[i - 1].take();
            self.data[i] = moved;
            i -= 1;
        }
        self.data[index] = Some(value);
        self.length += 1;
        assert(self@ =~= old(self)@.insert(index as int, value));
        Some(())
    }

    /// Shrinks the buffer to exactly the live elements; with no live element
    /// the buffer is released. The elements keep their order and their values.
    pub fn shrink_to_fit(&mut self)
        requires
            old(self).wf(),
        ensures
            final(self).wf(),
            final(self)@ == old(self)@,
            final(self).capacity() == old(self)@.len(),
    {
        if self.data.len() == 0 {
            return ;
        }
        if self.length == 0 {
            self.data = std::vec::Vec::new();
        } else {
            self.relocate(self.length);
        }
    }
}

impl<T> Vec<T> {
    /// The live elements as one borrowed range, in index order.
    pub fn as_slice(&self) -> (slice: std::vec::Vec<&T>)
        requires
            self.wf(),
        ensures
            slice@.len() == self@.len(),
            forall|i: int| 0 <= i < self@.len() ==> *(#[trigger] slice@[i]) == self@[i],
    {
        let mut slice: std::vec::Vec<&T> = std::vec::Vec::with_capacity(self.length);
        let mut i: usize = 0;
        while i < self.length
            invariant
                self.wf(),
                i <= self.length,
                slice@.len() == i,
                forall|j: int| 0 <= j < i ==> *(#[trigger] slice@[j]) == self@[j],
            decreases self.length - i,
        {
            slice.push(self.get_unchecked(i));
            i += 1;
        }
        slice
    }

    /// Exclusive access to each live element, as one borrowed range in index
    /// order. What is written through a reference is the element at that
    /// position afterwards.
    pub fn as_mut_slice(&mut self) -> (slice: std::vec::Vec<&mut T>)
        requires
            old(self).wf(),
        ensures
            final(self).wf(),
            final(self).capacity() == old(self).capacity(),
            slice@.len() == old(self)@.len(),
            final(self)@.len() == old(self)@.len(),
            forall|i: int| 0 <= i < old(self)@.len() ==> *(#[trigger] slice@[i]) == old(self)@[i],
            forall|i: int|
                0 <= i < old(self)@.len() ==> (#[trigger] final(self)@[i]) == *final(slice@[i]),
    {
        let length: usize = self.length;
        let ghost before = self.data@;
        let mut slice: std::vec::Vec<&mut T> = std::vec::Vec::with_capacity(length);
        // `rest` is the part of the buffer from slot `i` on. The buffer as it
        // is once all borrows have ended, `after_borrow(self.data)`, is the
        // elements as the references in `slice` leave them, followed by
        // `rest` as it is left.
        let mut rest: &mut [Option<T>] = self.data.as_mut_slice();
        let mut i: usize = 0;
        while i < length
            invariant
                i <= length <= before.len(),
                forall|j: int| 0 <= j < length ==> (#[trigger] before[j]) is Some,
                slice@.len() == i,
                rest@ =~= before.subrange(i as int, before.len() as int),
                forall|j: int| 0 <= j < i ==> *(#[trigger] slice@[j]) == before[j]->0,
                after_borrow(self.data)@.len() == i + final(rest)@.len(),
                forall|j: int|
                    0 <= j < i ==> (#[trigger] after_borrow(self.data)@[j])
                        == Some(*final(slice@[j])),
                forall|j: int|
                    0 <= j < final(rest)@.len() ==> (#[trigger] final(rest)@[j])
                        == after_borrow(self.data)@[i + j],
            decreases length - i,
        {
            let ghost whole = final(rest)@;
            let (head, tail) = rest.split_at_mut(1);
            let ghost front = final(head)@;
            assert(whole == front + final(tail)@);
            assert(head@[0] == before[i as int]);
            if let Some(slot) = head.first_mut() {
                if let Some(element) = slot.as_mut() {
                    assert(front[0] == Some(*final(element)));
                    assert(front.len() == 1);
                    slice.push(element);
                }
            }
            rest = tail;
            proof {
                assert(whole[0] == front[0]);
                assert forall|j: int| 0 <= j < final(rest)@.len() implies
                    (#[trigger] final(rest)@[j]) == after_borrow(self.data)@[i + 1 + j] by {
                    assert(whole[1 + j] == final(rest)@[j]);
                }
            }
            i += 1;
        }
        proof {
            let data = after_borrow(self.data)@;
            assert(final(rest)@ == rest@);
            assert forall|j: int| length <= j < data.len() implies (#[trigger] data[j]) is None by {
                assert(final(rest)@[j - length] == data[j]);
                assert(rest@[j - length] == before[j]);
            }
        }
        slice
    }

    /// A standard vector that holds a clone of each live element, in index
    /// order.
    pub fn to_std_vec(&self) -> (copy: std::vec::Vec<T>) where T: Clone
        requires
            self.wf(),
        ensures
            copy@.len() == self@.len(),
            forall|i: int| 0 <= i < self@.len() ==> cloned::<T>(self@[i], #[trigger] copy@[i]),
    {
        let mut copy: std::vec::Vec<T> = std::vec::Vec::with_capacity(self.length);
        let mut i: usize = 0;
        while i < self.length
            invariant
                self.wf(),
                i <= self.length,
                copy@.len() == i,
                forall|j: int| 0 <= j < i ==> cloned::<T>(self@[j], #[trigger] copy@[j]),
            decreases self.length - i,
        {
            copy.push(self.get_unchecked(i).clone());
            i += 1;
        }
        copy
    }
}

impl<T: Clone> Clone for Vec<T> {
    /// A container of its own that holds a clone of each live element, in
    /// index order, in a buffer of exactly as many slots.
    fn clone(&self) -> (copy: Self)
        ensures
            self.wf() ==> copy.wf() && copy.capacity() == self@.len() && copy@.len() == self@.len(),
            self.wf() ==> forall|i: int|
                0 <= i < self@.len() ==> cloned::<T>(self@[i], #[trigger] copy@[i]),
    {
        let mut copy = Vec::with_capacity(self.length);
        let mut i: usize = 0;
        while i < self.length
            invariant
                i <= self.length,
                copy.wf(),
                copy.capacity() == self.length,
                copy@.len() <= i,
                self.wf() ==> copy@.len() == i && forall|j: int|
                    0 <= j < i ==> cloned::<T>(self@[j], #[trigger] copy@[j]),
            decreases self.length - i,
        {
            if i < self.data.len() {
                if let Some(element) = &self.data[i] {
                    copy.push(element.clone());
                }
            }
            i += 1;
        }
        copy
    }
}

impl<T> Default for Vec<T> {
    /// An empty container without a buffer.
    fn default() -> (v: Self)
        ensures
            v.wf(),
            v@ == Seq::<T>::empty(),
            v.capacity() == 0,
    {
        Vec { data: std::vec::Vec::new(), length: 0 }
    }
}

} // verus!
