use vstd::prelude::*;

use crate::into_iter::ArrayVecIntoIter;
use crate::slice_vec::SliceVec;

verus! {

/// A contiguous sequence of at most `N` elements.
///
/// The capacity-independent operations live on `SliceVec`, which
/// `as_slice_vec` and `as_mut_slice_vec` expose, and to which the container
/// dereferences.
#[derive(Clone)]
pub struct ArrayVec<T, const N: usize> {
    pub(crate) vec: SliceVec<T>,
}

impl<T, const N: usize> View for ArrayVec<T, N> {
    type V = Seq<T>;

    /// The live elements, in order.
    open spec fn view(&self) -> Seq<T> {
        self.slice_vec()@
    }
}

/// Relies on `From<[T; M]> for Vec<T>`: the array's items are moved into a
/// new vector, in order.
#[verifier::external_body]
fn vec_from_array<T, const M: usize>(array: [T; M]) -> (r: Vec<T>)
    ensures
        r@ == array@,
{
    Vec::from(array)
}

impl<T, const N: usize> ArrayVec<T, N> {
    /// The capacity-independent container inside.
    pub closed spec fn slice_vec(&self) -> SliceVec<T> {
        self.vec
    }

    /// The capacity is `N` and the length at most `N`.
    pub open spec fn wf(&self) -> bool {
        self.slice_vec().wf() && self.slice_vec().capacity() == N
    }

    /// An empty container.
    pub fn new() -> (r: Self)
        ensures
            r.wf(),
            r@ == Seq::<T>::empty(),
    {
        ArrayVec { vec: SliceVec::with_capacity(N) }
    }

    /// A container holding the items of `array`, in order.
    pub fn from_array<const M: usize>(array: [T; M]) -> (r: Self)
        requires
            M <= N,
        ensures
            r.wf(),
            r@ == array@,
    {
        ArrayVec { vec: SliceVec::from_vec(vec_from_array(array), N) }
    }

    /// The elements, moved out into an owning iterator.
    pub fn into_iter(self) -> (r: ArrayVecIntoIter<T, N>)
        requires
            self.wf(),
        ensures
            r.wf(),
            r@ == self@,
    {
        ArrayVecIntoIter::new(self)
    }

    /// The capacity-independent container inside, by value.
    pub(crate) fn into_slice_vec(self) -> (r: SliceVec<T>)
        ensures
            r == self.slice_vec(),
    {
        self.vec
    }

    /// The container seen without its capacity in the type.
    pub fn as_slice_vec(&self) -> (r: &SliceVec<T>)
        requires
            self.wf(),
        ensures
            r.wf(),
            r@ == self@,
            r.capacity() == N,
    {
        &self.vec
    }

    /// The container seen mutably without its capacity in the type. Every
    /// operation of `SliceVec` keeps the capacity, so the container stays
    /// well formed after the borrow ends.
    pub fn as_mut_slice_vec(&mut self) -> (r: &mut SliceVec<T>)
        requires
            old(self).wf(),
        ensures
            r.wf(),
            r@ == old(self)@,
            r.capacity() == N,
            final(self)@ == final(r)@,
            final(r).wf() && final(r).capacity() == N ==> final(self).wf(),
    {
        &mut self.vec
    }

    /// A new container of the same capacity holding `f` of each element,
    /// in order.
    pub fn map_ref<U, F: Fn(&T) -> U>(&self, f: F) -> (r: ArrayVec<U, N>)
        requires
            self.wf(),
            forall|i: int| 0 <= i < self@.len() ==> f.requires((&self@[i],)),
        ensures
            r.wf(),
            r@.len() == self@.len(),
            forall|i: int| 0 <= i < self@.len() ==> f.ensures((&self@[i],), #[trigger] r@[i]),
    {
        let items = self.vec.as_slice();
        let mut out: SliceVec<U> = SliceVec::with_capacity(N);
        let mut i: usize = 0;
        while i < items.len()
            invariant
                self.wf(),
                items@ == self@,
                i <= items@.len(),
                out.wf(),
                out.capacity() == N,
                out@.len() == i,
                forall|k: int| 0 <= k < self@.len() ==> f.requires((&self@[k],)),
                forall|j: int| 0 <= j < i ==> f.ensures((&self@[j],), #[trigger] out@[j]),
            decreases items@.len() - i,
        {
            let u = f(&items[i]);
            let _ = out.push(u);
            i += 1;
        }
        ArrayVec { vec: out }
    }
}

impl<T, const N: usize> ArrayVec<T, N> {
    /// A new container of the same capacity holding `f` of each element,
    /// in order; the elements are moved into `f`.
    pub fn map<U, F: Fn(T) -> U>(self, f: F) -> (r: ArrayVec<U, N>)
        requires
            self.wf(),
            forall|i: int| 0 <= i < self@.len() ==> f.requires((self@[i],)),
        ensures
            r.wf(),
            r@.len() == self@.len(),
            forall|i: int| 0 <= i < self@.len() ==> f.ensures((self@[i],), #[trigger] r@[i]),
    {
        let ghost items = self@;
        let mut iter = self.into_iter();
        let mut out: SliceVec<U> = SliceVec::with_capacity(N);
        while iter.as_slice_vec_into_iter().len() > 0
            invariant
                iter.wf(),
                out.wf(),
                out.capacity() == N,
                items.len() <= N,
                out@.len() + iter@.len() == items.len(),
                items == items.subrange(0, out@.len() as int) + iter@,
                forall|k: int| 0 <= k < items.len() ==> f.requires((items[k],)),
                forall|j: int| 0 <= j < out@.len() ==> f.ensures((items[j],), #[trigger] out@[j]),
            decreases iter@.len(),
        {
            let ghost before = iter@;
            let item = iter.as_mut_slice_vec_into_iter().next();
            if let Some(v) = item {
                assert(before[0] == items[out@.len() as int]);
                let u = f(v);
                let _ = out.push(u);
            }
            assert(items =~= items.subrange(0, out@.len() as int) + iter@);
        }
        ArrayVec { vec: out }
    }

    /// A container's length never passes its capacity, and every operation
    /// keeps it well formed.
    pub proof fn lemma_length_bounded(&self)
        requires
            self.wf(),
        ensures
            0 <= self@.len() <= N,
    {
    }
}

impl<T, const N: usize> Default for ArrayVec<T, N> {
    fn default() -> (r: Self)
        ensures
            r.wf(),
            r@ == Seq::<T>::empty(),
    {
        Self::new()
    }
}

impl<T, const N: usize> core::ops::Deref for ArrayVec<T, N> {
    type Target = SliceVec<T>;

    fn deref(&self) -> &SliceVec<T> {
        &self.vec
    }
}

impl<T, const N: usize> core::ops::DerefMut for ArrayVec<T, N> {
    fn deref_mut(&mut self) -> &mut SliceVec<T> {
        &mut self.vec
    }
}

} // verus!
