use vstd::prelude::*;

verus! {

/// A contiguous sequence of at most `capacity()` elements.
///
/// The storage is reserved once, when the container is made, and the live
/// elements always form its front; the container never holds more than its
/// capacity.
#[derive(Clone)]
pub struct SliceVec<T> {
    data: Vec<T>,
    cap: usize,
}

impl<T> View for SliceVec<T> {
    type V = Seq<T>;

    /// The live elements, in order.
    closed spec fn view(&self) -> Seq<T> {
        self.data@
    }
}

impl<T> SliceVec<T> {
    /// The container holds no more elements than its capacity.
    pub open spec fn wf(&self) -> bool {
        self@.len() <= self.capacity()
    }

    pub closed spec fn spec_capacity(&self) -> usize {
        self.cap
    }

    /// An empty container that can hold `cap` elements.
    pub fn with_capacity(cap: usize) -> (r: Self)
        ensures
            r.wf(),
            r@ == Seq::<T>::empty(),
            r.capacity() == cap,
    {
        SliceVec { data: Vec::with_capacity(cap), cap }
    }

    /// A container of capacity `cap` holding the items of `data`.
    pub(crate) fn from_vec(data: Vec<T>, cap: usize) -> (r: Self)
        requires
            data@.len() <= cap,
        ensures
            r.wf(),
            r@ == data@,
            r.capacity() == cap,
    {
        SliceVec { data, cap }
    }

    /// The live elements, moved out into a vector.
    pub(crate) fn into_vec(self) -> (r: Vec<T>)
        ensures
            r@ == self@,
    {
        self.data
    }

    /// Takes the elements of `[start, end)` out, closing the gap.
    pub(crate) fn take_range(&mut self, start: usize, end: usize) -> (r: Vec<T>)
        requires
            old(self).wf(),
            start <= end <= old(self)@.len(),
        ensures
            final(self).wf(),
            final(self).capacity() == old(self).capacity(),
            r@ == old(self)@.subrange(start as int, end as int),
            final(self)@ == old(self)@.subrange(0, start as int) + old(self)@.subrange(
                end as int,
                old(self)@.len() as int,
            ),
    {
        let mut tail = self.data.split_off(end);
        let taken = self.data.split_off(start);
        self.data.append(&mut tail);
        taken
    }

    /// Places the items of `items` at `at`, shifting the later elements up.
    pub(crate) fn put_range(&mut self, at: usize, items: Vec<T>)
        requires
            old(self).wf(),
            at <= old(self)@.len(),
            old(self)@.len() + items@.len() <= old(self).capacity(),
        ensures
            final(self).wf(),
            final(self).capacity() == old(self).capacity(),
            final(self)@ == old(self)@.subrange(0, at as int) + items@ + old(self)@.subrange(
                at as int,
                old(self)@.len() as int,
            ),
    {
        let mut items = items;
        let mut tail = self.data.split_off(at);
        self.data.append(&mut items);
        self.data.append(&mut tail);
    }

    /// The most elements the container can hold.
    #[verifier::when_used_as_spec(spec_capacity)]
    pub fn capacity(&self) -> (r: usize)
        ensures
            r == self.spec_capacity(),
    {
        self.cap
    }

    /// The number of live elements.
    pub fn len(&self) -> (r: usize)
        requires
            self.wf(),
        ensures
            r == self@.len(),
    {
        self.data.len()
    }

    pub fn is_empty(&self) -> (r: bool)
        requires
            self.wf(),
        ensures
            r <==> self@.len() == 0,
    {
        self.data.len() == 0
    }

    pub fn is_full(&self) -> (r: bool)
        requires
            self.wf(),
        ensures
            r <==> self@.len() == self.capacity(),
    {
        self.data.len() == self.cap
    }

    /// The number of free slots.
    pub fn remaining_capacity(&self) -> (r: usize)
        requires
            self.wf(),
        ensures
            r == self.capacity() - self@.len(),
    {
        self.cap - self.data.len()
    }

    /// Appends `value` and returns a reference to it in its slot, or hands
    /// `value` back when the container is full.
    pub fn push(&mut self, value: T) -> (r: Result<&mut T, T>)
        requires
            old(self).wf(),
        ensures
            final(self).wf(),
            final(self).capacity() == old(self).capacity(),
            r is Ok <==> old(self)@.len() < old(self).capacity(),
            match r {
                Ok(e) => *e == value && final(self)@ == old(self)@.push(*final(e)),
                Err(v) => v == value && final(self)@ == old(self)@,
            },
    {
        if self.data.len() < self.cap {
            Ok(self.push_unchecked(value))
        } else {
            Err(value)
        }
    }

    /// Appends `value`, which must fit, and returns a reference to it in its
    /// slot.
    pub fn push_unchecked(&mut self, value: T) -> (r: &mut T)
        requires
            old(self).wf(),
            old(self)@.len() < old(self).capacity(),
        ensures
            final(self).wf(),
            final(self).capacity() == old(self).capacity(),
            *r == value,
            final(self)@ == old(self)@.push(*final(r)),
    {
        self.data.push(value);
        let last = self.data.len() - 1;
        &mut self.data[last]
    }

    /// Removes and returns the last element, if any.
    pub fn pop(&mut self) -> (r: Option<T>)
        requires
            old(self).wf(),
        ensures
            final(self).wf(),
            final(self).capacity() == old(self).capacity(),
            old(self)@.len() == 0 ==> r is None && final(self)@ == old(self)@,
            old(self)@.len() > 0 ==> r == Some(old(self)@.last())
                && final(self)@ == old(self)@.drop_last(),
    {
        if self.data.len() > 0 {
            Some(self.pop_unchecked())
        } else {
            None
        }
    }

    /// Removes and returns the last element, which must exist.
    pub fn pop_unchecked(&mut self) -> (r: T)
        requires
            old(self).wf(),
            old(self)@.len() > 0,
        ensures
            final(self).wf(),
            final(self).capacity() == old(self).capacity(),
            r == old(self)@.last(),
            final(self)@ == old(self)@.drop_last(),
    {
        let last = self.data.len() - 1;
        self.data.remove(last)
    }

    /// Removes and returns the element at `index`, shifting the later ones
    /// down by one; `None` when `index` is past the end.
    pub fn remove(&mut self, index: usize) -> (r: Option<T>)
        requires
            old(self).wf(),
        ensures
            final(self).wf(),
            final(self).capacity() == old(self).capacity(),
            index >= old(self)@.len() ==> r is None && final(self)@ == old(self)@,
            index < old(self)@.len() ==> r == Some(old(self)@[index as int])
                && final(self)@ == old(self)@.remove(index as int),
    {
        if index < self.data.len() {
            Some(self.remove_unchecked(index))
        } else {
            None
        }
    }

    /// Removes and returns the element at `index`, which must be live,
    /// shifting the later ones down by one.
    pub fn remove_unchecked(&mut self, index: usize) -> (r: T)
        requires
            old(self).wf(),
            index < old(self)@.len(),
        ensures
            final(self).wf(),
            final(self).capacity() == old(self).capacity(),
            r == old(self)@[index as int],
            final(self)@ == old(self)@.remove(index as int),
    {
        self.data.remove(index)
    }

    /// Places `value` at `index`, shifting the later elements up by one; hands
    /// `value` back when the container is full or `index` is past the end.
    pub fn insert(&mut self, index: usize, value: T) -> (r: Result<(), T>)
        requires
            old(self).wf(),
        ensures
            final(self).wf(),
            final(self).capacity() == old(self).capacity(),
            r is Ok <==> old(self)@.len() < old(self).capacity() && index <= old(self)@.len(),
            match r {
                Ok(_) => final(self)@ == old(self)@.insert(index as int, value),
                Err(v) => v == value && final(self)@ == old(self)@,
            },
    {
        if self.data.len() < self.cap && index <= self.data.len() {
            self.data.insert(index, value);
            Ok(())
        } else {
            Err(value)
        }
    }

    /// Removes and returns the element at `index`, moving the last element
    /// into its place; `None` when `index` is past the end.
    pub fn swap_remove(&mut self, index: usize) -> (r: Option<T>)
        requires
            old(self).wf(),
        ensures
            final(self).wf(),
            final(self).capacity() == old(self).capacity(),
            index >= old(self)@.len() ==> r is None && final(self)@ == old(self)@,
            index < old(self)@.len() ==> r == Some(old(self)@[index as int])
                && final(self)@ == old(self)@.update(index as int, old(self)@.last()).drop_last(),
    {
        if index < self.data.len() {
            Some(self.data.swap_remove(index))
        } else {
            None
        }
    }

    /// Keeps the first `new_len` elements and drops the rest; does nothing
    /// when the container is not longer than `new_len`.
    pub fn truncate(&mut self, new_len: usize)
        requires
            old(self).wf(),
        ensures
            final(self).wf(),
            final(self).capacity() == old(self).capacity(),
            final(self)@ == if new_len < old(self)@.len() {
                old(self)@.subrange(0, new_len as int)
            } else {
                old(self)@
            },
    {
        self.data.truncate(new_len);
    }

    /// Drops every element.
    pub fn clear(&mut self)
        requires
            old(self).wf(),
        ensures
            final(self).wf(),
            final(self).capacity() == old(self).capacity(),
            final(self)@ == Seq::<T>::empty(),
    {
        self.data.clear();
    }

    /// Moves every element of `other` to the end of `self`, leaving `other`
    /// empty. Both must fit: the caller checks the combined length.
    pub fn append(&mut self, other: &mut SliceVec<T>)
        requires
            old(self).wf(),
            old(other).wf(),
            old(self)@.len() + old(other)@.len() <= old(self).capacity(),
        ensures
            final(self).wf(),
            final(other).wf(),
            final(self).capacity() == old(self).capacity(),
            final(other).capacity() == old(other).capacity(),
            final(self)@ == old(self)@ + old(other)@,
            final(other)@ == Seq::<T>::empty(),
    {
        self.data.append(&mut other.data);
    }

    /// Moves every item of `items` to the end, in order. They must all fit:
    /// the caller checks the length, as there is no partial result to hand
    /// back.
    pub fn extend_from_vec(&mut self, items: Vec<T>)
        requires
            old(self).wf(),
            old(self)@.len() + items@.len() <= old(self).capacity(),
        ensures
            final(self).wf(),
            final(self).capacity() == old(self).capacity(),
            final(self)@ == old(self)@ + items@,
    {
        let mut items = items;
        self.data.append(&mut items);
    }

    /// A shared reference to the element at `index`, if it is live.
    pub fn get(&self, index: usize) -> (r: Option<&T>)
        requires
            self.wf(),
        ensures
            index < self@.len() ==> r == Some(&self@[index as int]),
            index >= self@.len() ==> r is None,
    {
        if index < self.data.len() {
            Some(&self.data[index])
        } else {
            None
        }
    }

    /// A mutable reference to the element at `index`, if it is live.
    pub fn get_mut(&mut self, index: usize) -> (r: Option<&mut T>)
        requires
            old(self).wf(),
        ensures
            final(self).wf(),
            final(self).capacity() == old(self).capacity(),
            index >= old(self)@.len() ==> r is None && final(self)@ == old(self)@,
            index < old(self)@.len() ==> r is Some && *r->0 == old(self)@[index as int]
                && final(self)@ == old(self)@.update(index as int, *final(r->0)),
    {
        if index < self.data.len() {
            Some(&mut self.data[index])
        } else {
            None
        }
    }

    /// The live elements as a slice.
    pub fn as_slice(&self) -> (r: &[T])
        requires
            self.wf(),
        ensures
            r@ == self@,
    {
        self.data.as_slice()
    }

    /// The live elements as a mutable slice. Writes through it change the
    /// elements in place; a slice cannot change its length.
    pub fn as_mut_slice(&mut self) -> (r: &mut [T])
        requires
            old(self).wf(),
        ensures
            r@ == old(self)@,
            final(self)@ == final(r)@,
            final(self).capacity() == old(self).capacity(),
            final(r)@.len() == r@.len() ==> final(self).wf(),
    {
        self.data.as_mut_slice()
    }
}

} // verus!
