use vstd::prelude::*;

use crate::array_vec::ArrayVec;

verus! {

/// An owning iterator over the elements of a container, from either end.
///
/// Slots in `[start, start + length)` hold the elements not yet handed out;
/// every other slot is empty.
#[derive(Clone)]
pub struct SliceVecIntoIter<T> {
    slots: Vec<Option<T>>,
    start: usize,
    length: usize,
}

impl<T> View for SliceVecIntoIter<T> {
    type V = Seq<T>;

    /// The elements not yet handed out, front first.
    closed spec fn view(&self) -> Seq<T> {
        Seq::new(self.length as nat, |i: int| self.slots@[self.start + i]->0)
    }
}

impl<T> SliceVecIntoIter<T> {
    /// Exactly the slots of the window are occupied.
    pub closed spec fn wf(&self) -> bool {
        &&& self.start + self.length <= self.slots@.len() <= usize::MAX
        &&& forall|i: int|
            0 <= i < self.slots@.len() ==> (#[trigger] self.slots@[i] is Some <==> self.start <= i
                < self.start + self.length)
    }

    /// An iterator over the items of `items`, front first.
    pub(crate) fn from_vec(items: Vec<T>) -> (r: Self)
        ensures
            r.wf(),
            r@ == items@,
    {
        let mut items = items;
        let n = items.len();
        let mut slots: Vec<Option<T>> = Vec::with_capacity(n);
        let mut i: usize = 0;
        while i < n
            invariant
                i <= n,
                slots@.len() == i,
                forall|k: int| 0 <= k < i ==> #[trigger] slots@[k] is None,
            decreases n - i,
        {
            slots.push(None);
            i += 1;
        }
        let ghost all = items@;
        while i > 0
            invariant
                i <= n,
                slots@.len() == n,
                all.len() == n,
                items@ == all.subrange(0, i as int),
                forall|k: int| 0 <= k < i ==> #[trigger] slots@[k] is None,
                forall|k: int| i <= k < n ==> #[trigger] slots@[k] == Some(all[k]),
            decreases i,
        {
            let item = items.pop();
            i -= 1;
            slots[i] = item;
        }
        let r = SliceVecIntoIter { slots, start: 0, length: n };
        assert(r@ =~= all);
        r
    }

    /// The elements not yet handed out, moved into a vector, front first.
    pub(crate) fn into_vec(self) -> (r: Vec<T>)
        requires
            self.wf(),
        ensures
            r@ == self@,
    {
        let mut iter = self;
        let ghost all = iter@;
        let mut out: Vec<T> = Vec::with_capacity(iter.length);
        while iter.length > 0
            invariant
                iter.wf(),
                all == out@ + iter@,
            decreases iter.length,
        {
            let item = iter.next();
            if let Some(v) = item {
                out.push(v);
            }
            assert(all =~= out@ + iter@);
        }
        assert(out@ =~= all);
        out
    }

    /// The number of elements not yet handed out.
    pub fn len(&self) -> (r: usize)
        requires
            self.wf(),
        ensures
            r == self@.len(),
    {
        self.length
    }

    pub fn is_empty(&self) -> (r: bool)
        requires
            self.wf(),
        ensures
            r <==> self@.len() == 0,
    {
        self.length == 0
    }

    /// Hands out the front element, if any.
    pub fn next(&mut self) -> (r: Option<T>)
        requires
            old(self).wf(),
        ensures
            final(self).wf(),
            old(self)@.len() == 0 ==> r is None && final(self)@ == old(self)@,
            old(self)@.len() > 0 ==> r == Some(old(self)@[0]) && final(self)@ == old(self)@.drop_first(),
    {
        if self.length == 0 {
            return None;
        }
        let value = self.slots[self.start].take();
        self.start += 1;
        self.length -= 1;
        assert(self@ =~= old(self)@.drop_first());
        value
    }

    /// Hands out the back element, if any.
    pub fn next_back(&mut self) -> (r: Option<T>)
        requires
            old(self).wf(),
        ensures
            final(self).wf(),
            old(self)@.len() == 0 ==> r is None && final(self)@ == old(self)@,
            old(self)@.len() > 0 ==> r == Some(old(self)@.last()) && final(self)@ == old(self)@.drop_last(),
    {
        if self.length == 0 {
            return None;
        }
        self.length -= 1;
        let value = self.slots[self.start + self.length].take();
        assert(self@ =~= old(self)@.drop_last());
        value
    }
    /// Drops the first `n` elements not yet handed out (all of them when
    /// fewer are left), then hands out the front one, if any.
    pub fn nth(&mut self, n: usize) -> (r: Option<T>)
        requires
            old(self).wf(),
        ensures
            final(self).wf(),
            n < old(self)@.len() ==> r == Some(old(self)@[n as int])
                && final(self)@ == old(self)@.subrange(n + 1, old(self)@.len() as int),
            n >= old(self)@.len() ==> r is None && final(self)@ == Seq::<T>::empty(),
    {
        let skip = if n < self.length { n } else { self.length };
        let mut k: usize = 0;
        while k < skip
            invariant
                self.wf(),
                k <= skip,
                skip <= old(self)@.len(),
                self.length == old(self)@.len() - k,
                self.start == old(self).start + k,
                self.slots@.len() == old(self).slots@.len(),
                forall|j: int| self.start <= j < self.start + self.length ==> #[trigger] self.slots@[j] == old(self).slots@[j],
                self@ == old(self)@.subrange(k as int, old(self)@.len() as int),
            decreases skip - k,
        {
            let dropped = self.slots[self.start].take();
            self.start += 1;
            self.length -= 1;
            k += 1;
            assert(self@ =~= old(self)@.subrange(k as int, old(self)@.len() as int));
        }
        self.next()
    }

    /// Drops the last `n` elements not yet handed out (all of them when
    /// fewer are left), then hands out the back one, if any.
    pub fn nth_back(&mut self, n: usize) -> (r: Option<T>)
        requires
            old(self).wf(),
        ensures
            final(self).wf(),
            n < old(self)@.len() ==> r == Some(old(self)@[old(self)@.len() - 1 - n])
                && final(self)@ == old(self)@.subrange(0, old(self)@.len() - 1 - n),
            n >= old(self)@.len() ==> r is None && final(self)@ == Seq::<T>::empty(),
    {
        let skip = if n < self.length { n } else { self.length };
        let mut k: usize = 0;
        while k < skip
            invariant
                self.wf(),
                k <= skip,
                skip <= old(self)@.len(),
                self.length == old(self)@.len() - k,
                self.start == old(self).start,
                self.slots@.len() == old(self).slots@.len(),
                forall|j: int| self.start <= j < self.start + self.length ==> #[trigger] self.slots@[j] == old(self).slots@[j],
                self@ == old(self)@.subrange(0, old(self)@.len() - k),
            decreases skip - k,
        {
            self.length -= 1;
            let dropped = self.slots[self.start + self.length].take();
            k += 1;
            assert(self@ =~= old(self)@.subrange(0, old(self)@.len() - k));
        }
        self.next_back()
    }
}

/// An owning iterator over the elements of an `ArrayVec<T, N>`.
///
/// The capacity-independent operations live on `SliceVecIntoIter`, to which
/// the iterator dereferences.
#[derive(Clone)]
pub struct ArrayVecIntoIter<T, const N: usize> {
    iter: SliceVecIntoIter<T>,
}

impl<T, const N: usize> View for ArrayVecIntoIter<T, N> {
    type V = Seq<T>;

    /// The elements not yet handed out, front first.
    open spec fn view(&self) -> Seq<T> {
        self.slice_vec_into_iter()@
    }
}

impl<T, const N: usize> ArrayVecIntoIter<T, N> {
    /// The capacity-independent iterator inside.
    pub closed spec fn slice_vec_into_iter(&self) -> SliceVecIntoIter<T> {
        self.iter
    }

    pub open spec fn wf(&self) -> bool {
        self.slice_vec_into_iter().wf()
    }

    /// An iterator over the elements of `array`, front first.
    pub fn new(array: ArrayVec<T, N>) -> (r: Self)
        requires
            array.wf(),
        ensures
            r.wf(),
            r@ == array@,
    {
        ArrayVecIntoIter { iter: SliceVecIntoIter::from_vec(array.into_slice_vec().into_vec()) }
    }

    /// The iterator seen without the capacity in its type.
    pub fn as_slice_vec_into_iter(&self) -> (r: &SliceVecIntoIter<T>)
        ensures
            *r == self.slice_vec_into_iter(),
    {
        &self.iter
    }

    /// The iterator seen mutably without the capacity in its type.
    pub fn as_mut_slice_vec_into_iter(&mut self) -> (r: &mut SliceVecIntoIter<T>)
        ensures
            *r == old(self).slice_vec_into_iter(),
            final(self).slice_vec_into_iter() == *final(r),
    {
        &mut self.iter
    }

    /// The back element, dropping all the others.
    pub fn last(self) -> (r: Option<T>)
        requires
            self.wf(),
        ensures
            self@.len() == 0 ==> r is None,
            self@.len() > 0 ==> r == Some(self@.last()),
    {
        let mut iter = self.iter;
        iter.next_back()
    }
}

impl<T, const N: usize> core::ops::Deref for ArrayVecIntoIter<T, N> {
    type Target = SliceVecIntoIter<T>;

    fn deref(&self) -> &SliceVecIntoIter<T> {
        &self.iter
    }
}

impl<T, const N: usize> core::ops::DerefMut for ArrayVecIntoIter<T, N> {
    fn deref_mut(&mut self) -> &mut SliceVecIntoIter<T> {
        &mut self.iter
    }
}

} // verus!
