use vstd::prelude::*;

use crate::slice::{PutAt, PutFromSliceAt, Targets, WriteAt, WriteFromSliceAt};

verus! {

/// A write-only **slice** with **dropping** and **non-dropping** write access.
pub struct WriteOnlySlice<'a, T> {
    data: &'a mut [T],
}

impl<'a, T> WriteOnlySlice<'a, T> {
    /// Forms a write-only slice from an exclusive borrow of a slice.
    ///
    /// The handle starts out over the borrowed elements, and what it leaves there is
    /// what the borrow leaves there.
    pub fn from(borrow: &'a mut [T]) -> (r: Self)
        ensures
            r.targets()@ == old(borrow)@,
            final(r.targets())@ == final(borrow)@,
    {
        WriteOnlySlice { data: borrow }
    }

    /// Returns the number of elements in the slice.
    pub fn len(&self) -> (r: usize)
        ensures
            r == self.targets()@.len(),
    {
        self.data.len()
    }

    /// Returns `true` if the slice has a length of 0.
    pub fn is_empty(&self) -> (r: bool)
        ensures
            r == (self.targets()@.len() == 0),
    {
        self.data.len() == 0
    }
}

/// Once a handle is done with, the values its targets hold are the values they keep.
pub broadcast proof fn lemma_resolved_slice<'a, T>(r: WriteOnlySlice<'a, T>)
    ensures
        #[trigger] has_resolved(r) ==> r.targets()@ == final(r.targets())@,
{
}

impl<'a, T> Targets<T> for WriteOnlySlice<'a, T> {
    closed spec fn targets(&self) -> &mut [T] {
        self.data
    }
}

impl<'a, T> PutAt<T> for WriteOnlySlice<'a, T> {
    fn put_at(&mut self, index: usize, value: T) {
        self.put_at_unchecked(index, value);
    }

    fn put_at_unchecked(&mut self, index: usize, value: T) {
        self.data[index] = value;
    }
}

impl<'a, T> WriteAt<T> for WriteOnlySlice<'a, T> {
    fn write_at(&mut self, index: usize, value: T) {
        self.write_at_unchecked(index, value);
    }

    fn write_at_unchecked(&mut self, index: usize, value: T) {
        let mut value = value;
        core::mem::swap(&mut self.data[index], &mut value);
        core::mem::forget(value);
    }
}

impl<'a, T> PutFromSliceAt<T> for WriteOnlySlice<'a, T> {
    fn put_cloning_from_slice_at(&mut self, src: &[T], offset: usize) where T: Clone {
        let total: usize = self.len();
        let n: usize = src.len();
        let mut i: usize = 0;
        while i < n
            invariant
                n == src@.len(),
                i <= n,
                offset + n <= total,
                total == old(self).targets()@.len(),
                self.targets()@.len() == total,
                crate::slice::cloned_into(
                    old(self).targets()@,
                    self.targets()@,
                    src@.subrange(0, i as int),
                    offset as int,
                ),
                final(self.targets())@ == final(old(self).targets())@,
            decreases n - i,
        {
            self.put_at_unchecked(offset + i, src[i].clone());
            i += 1;
        }
        assert(src@.subrange(0, n as int) =~= src@);
    }
}

impl<'a, T> WriteFromSliceAt<T> for WriteOnlySlice<'a, T> {
    fn write_cloning_from_slice_at(&mut self, src: &[T], offset: usize) where T: Clone {
        let total: usize = self.len();
        let n: usize = src.len();
        let mut i: usize = 0;
        while i < n
            invariant
                n == src@.len(),
                i <= n,
                offset + n <= total,
                total == old(self).targets()@.len(),
                self.targets()@.len() == total,
                crate::slice::cloned_into(
                    old(self).targets()@,
                    self.targets()@,
                    src@.subrange(0, i as int),
                    offset as int,
                ),
                final(self.targets())@ == final(old(self).targets())@,
            decreases n - i,
        {
            self.write_at_unchecked(offset + i, src[i].clone());
            i += 1;
        }
        assert(src@.subrange(0, n as int) =~= src@);
    }

    fn write_copying_from_slice_at(&mut self, src: &[T], offset: usize) where T: Copy {
        let total: usize = self.len();
        let n: usize = src.len();
        let mut i: usize = 0;
        while i < n
            invariant
                n == src@.len(),
                i <= n,
                offset + n <= total,
                total == old(self).targets()@.len(),
                self.targets()@.len() == total,
                self.targets()@ == crate::slice::spliced(
                    old(self).targets()@,
                    src@.subrange(0, i as int),
                    offset as int,
                ),
                final(self.targets())@ == final(old(self).targets())@,
            decreases n - i,
        {
            self.data[offset + i] = src[i];
            i += 1;
        }
        assert(src@.subrange(0, n as int) =~= src@);
    }
}

impl<'a, T> From<&'a mut [T]> for WriteOnlySlice<'a, T> {
    fn from(borrow: &'a mut [T]) -> Self {
        WriteOnlySlice::from(borrow)
    }
}

impl<'a, T> vstd::std_specs::convert::FromSpecImpl<&'a mut [T]> for WriteOnlySlice<'a, T> {
    // The handle holds a reborrow of `borrow`, which is not equal to `borrow` itself:
    // the inherent `from` states what a handle made this way targets.
    open spec fn obeys_from_spec() -> bool {
        false
    }

    closed spec fn from_spec(borrow: &'a mut [T]) -> Self {
        WriteOnlySlice { data: borrow }
    }
}

} // verus!
