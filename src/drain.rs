use vstd::prelude::*;

use crate::array_vec::ArrayVec;
use crate::into_iter::SliceVecIntoIter;

verus! {

/// Where a drain of `range` over `len` elements stops: `range.end`, or the
/// length when that is smaller.
pub open spec fn drain_end(range: core::ops::Range<usize>, len: nat) -> int {
    if range.end < len {
        range.end as int
    } else {
        len as int
    }
}

/// Where a drain of `range` over `len` elements starts: `range.start`, or its
/// end when that is smaller.
pub open spec fn drain_start(range: core::ops::Range<usize>, len: nat) -> int {
    if range.start < drain_end(range, len) {
        range.start as int
    } else {
        drain_end(range, len)
    }
}

/// The elements a drain of `[start, end)` hands out.
pub open spec fn drained<T>(s: Seq<T>, start: int, end: int) -> Seq<T> {
    s.subrange(start, end)
}

/// What a container holds once `[start, end)` is drained from it.
pub open spec fn after_drain<T>(s: Seq<T>, start: int, end: int) -> Seq<T> {
    s.subrange(0, start) + s.subrange(end, s.len() as int)
}

/// A draining iterator: hands out, from either end, the elements that
/// `ArrayVec::drain` took out of a container.
///
/// The container is borrowed for the drain's whole life and already holds
/// the elements before the range followed by those after it. Elements not
/// handed out are dropped with the drain, unless `keep_rest` puts them back
/// where they were.
///
/// The fields are public so that contracts can speak of the borrow; the
/// methods keep them consistent, and writing them directly forfeits `wf`.
pub struct Drain<'a, T, const CAP: usize> {
    /// The container being drained.
    pub array: &'a mut ArrayVec<T, CAP>,
    /// The drained elements not yet handed out.
    pub pending: SliceVecIntoIter<T>,
    /// Where the drained range began in the container.
    pub at: usize,
}

impl<'a, T, const CAP: usize> View for Drain<'a, T, CAP> {
    type V = Seq<T>;

    /// The drained elements not yet handed out, front first.
    open spec fn view(&self) -> Seq<T> {
        self.pending@
    }
}

impl<'a, T, const CAP: usize> Drain<'a, T, CAP> {
    /// The borrowed container as it stands now.
    pub open spec fn container(&self) -> ArrayVec<T, CAP> {
        *self.array
    }

    /// Where the drained range began in the container.
    pub open spec fn position(&self) -> int {
        self.at as int
    }

    pub open spec fn wf(&self) -> bool {
        &&& self.array.wf()
        &&& self.pending.wf()
        &&& self.at <= self.array@.len()
        &&& self.array@.len() + self.pending@.len() <= CAP
    }

    /// Once nothing can write through the drain any more, the container is
    /// left as the drain holds it.
    pub proof fn lemma_resolved(&self)
        requires
            has_resolved(*self),
        ensures
            *final(self.array) == self.container(),
    {
    }

    /// The number of drained elements not yet handed out.
    pub fn len(&self) -> (r: usize)
        requires
            self.wf(),
        ensures
            r == self@.len(),
    {
        self.pending.len()
    }

    /// Hands out the front drained element, if any.
    pub fn next(&mut self) -> (r: Option<T>)
        requires
            old(self).wf(),
        ensures
            final(self).wf(),
            final(self).container() == old(self).container(),
            *final(final(self).array) == *final(old(self).array),
            final(self).position() == old(self).position(),
            old(self)@.len() == 0 ==> r is None && final(self)@ == old(self)@,
            old(self)@.len() > 0 ==> r == Some(old(self)@[0]) && final(self)@ == old(self)@.drop_first(),
    {
        self.pending.next()
    }

    /// Hands out the back drained element, if any.
    pub fn next_back(&mut self) -> (r: Option<T>)
        requires
            old(self).wf(),
        ensures
            final(self).wf(),
            final(self).container() == old(self).container(),
            *final(final(self).array) == *final(old(self).array),
            final(self).position() == old(self).position(),
            old(self)@.len() == 0 ==> r is None && final(self)@ == old(self)@,
            old(self)@.len() > 0 ==> r == Some(old(self)@.last()) && final(self)@ == old(self)@.drop_last(),
    {
        self.pending.next_back()
    }

    /// Puts the drained elements not yet handed out back into the container,
    /// in order, where the range began.
    pub fn keep_rest(self)
        requires
            self.wf(),
        ensures
            (*final(self.array)).wf(),
            (*final(self.array))@ == self.container()@.subrange(0, self.position()) + self@
                + self.container()@.subrange(self.position(), self.container()@.len() as int),
    {
        let Drain { array, pending, at } = self;
        let rest = pending.into_vec();
        array.as_mut_slice_vec().put_range(at, rest);
    }
}

impl<T, const N: usize> ArrayVec<T, N> {
    /// Takes the elements of `range` out of the container and returns an
    /// iterator that hands them out. The range is clamped to the live
    /// elements: its end to the length, its start to its end.
    pub fn drain(&mut self, range: core::ops::Range<usize>) -> (r: Drain<'_, T, N>)
        requires
            old(self).wf(),
        ensures
            r.wf(),
            r.position() == drain_start(range, old(self)@.len()),
            r@ == drained(
                old(self)@,
                drain_start(range, old(self)@.len()),
                drain_end(range, old(self)@.len()),
            ),
            r.container()@ == after_drain(
                old(self)@,
                drain_start(range, old(self)@.len()),
                drain_end(range, old(self)@.len()),
            ),
            *final(r.array) == *final(self),
    {
        let len = self.as_slice_vec().len();
        let end = if range.end < len { range.end } else { len };
        let start = if range.start < end { range.start } else { end };
        let taken = self.as_mut_slice_vec().take_range(start, end);
        Drain { array: self, pending: SliceVecIntoIter::from_vec(taken), at: start }
    }
}

} // verus!
