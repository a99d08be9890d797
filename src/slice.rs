//! Slices that only provide write access, no read access.

use vstd::prelude::*;

pub mod non_volatile;

pub use non_volatile::WriteOnlySlice;

verus! {

/// The run of storage locations that a slice handle writes to, as seen by proofs.
pub trait Targets<T> {
    /// The borrow that the handle forwards its writes to.
    ///
    /// `self.targets()@` is what the run holds now; `final(self.targets())@` is what it
    /// holds once the handle is gone.
    spec fn targets(&self) -> &mut [T];
}

/// `after` is `before` with a clone of each element of `src` in the slots starting at
/// `offset`, and every other slot unchanged.
pub open spec fn cloned_into<T: Clone>(before: Seq<T>, after: Seq<T>, src: Seq<T>, offset: int) -> bool {
    &&& after.len() == before.len()
    &&& forall|i: int|
        0 <= i < before.len() ==> if offset <= i < offset + src.len() {
            cloned(src[i - offset], #[trigger] after[i])
        } else {
            after[i] == before[i]
        }
}

/// `before` with the slots starting at `offset` replaced by the elements of `src`.
pub open spec fn spliced<T>(before: Seq<T>, src: Seq<T>, offset: int) -> Seq<T> {
    before.subrange(0, offset) + src + before.subrange(offset + src.len(), before.len() as int)
}

/// A splice keeps the length, writes exactly the slots from `offset` to
/// `offset + src.len()`, and leaves every slot outside them unchanged.
pub proof fn lemma_spliced_bounds<T>(before: Seq<T>, src: Seq<T>, offset: int)
    requires
        0 <= offset,
        offset + src.len() <= before.len(),
    ensures
        spliced(before, src, offset).len() == before.len(),
        forall|i: int|
            0 <= i < before.len() ==> #[trigger] spliced(before, src, offset)[i] == if offset <= i
                < offset + src.len() {
                src[i - offset]
            } else {
                before[i]
            },
{
}

/// A copy from a slice leaves the written range identical to the source.
pub proof fn lemma_spliced_copies_source<T>(before: Seq<T>, src: Seq<T>, offset: int)
    requires
        0 <= offset,
        offset + src.len() <= before.len(),
    ensures
        spliced(before, src, offset).subrange(offset, offset + src.len()) == src,
{
    assert(spliced(before, src, offset).subrange(offset, offset + src.len()) =~= src);
}

/// A trait for objects which provide **dropping indexed** write access to their values.
pub trait PutAt<T>: Targets<T> {
    /// Stores `value` at `index`, dropping the value that was there.
    ///
    /// An `index` out of bounds is outside the contract.
    fn put_at(&mut self, index: usize, value: T)
        requires
            index < old(self).targets()@.len(),
        ensures
            final(self).targets()@ == old(self).targets()@.update(index as int, value),
            final(final(self).targets())@ == final(old(self).targets())@,
    ;

    /// Stores `value` at `index`, dropping the value that was there, without a check
    /// of its own: the caller establishes the bound.
    ///
    /// For the checked entry point see [`PutAt::put_at`].
    fn put_at_unchecked(&mut self, index: usize, value: T)
        requires
            index < old(self).targets()@.len(),
        ensures
            final(self).targets()@ == old(self).targets()@.update(index as int, value),
            final(final(self).targets())@ == final(old(self).targets())@,
    ;
}

/// A trait for objects which provide **dropping indexed** write access to their values
/// from a slice.
pub trait PutFromSliceAt<T>: PutAt<T> {
    /// Clones the elements of `src` into `self`, starting at `offset`, dropping the old
    /// values in increasing index order.
    ///
    /// `offset + src.len()` past the end of `self` is outside the contract.
    fn put_cloning_from_slice_at(&mut self, src: &[T], offset: usize) where T: Clone
        requires
            offset + src@.len() <= old(self).targets()@.len(),
        ensures
            cloned_into(old(self).targets()@, final(self).targets()@, src@, offset as int),
            final(final(self).targets())@ == final(old(self).targets())@,
    ;
}

/// A trait for objects which provide **non-dropping indexed** write access to their values.
pub trait WriteAt<T>: Targets<T> {
    /// Stores `value` at `index` without reading or dropping the value that was there.
    ///
    /// An `index` out of bounds is outside the contract.
    fn write_at(&mut self, index: usize, value: T)
        requires
            index < old(self).targets()@.len(),
        ensures
            final(self).targets()@ == old(self).targets()@.update(index as int, value),
            final(final(self).targets())@ == final(old(self).targets())@,
    ;

    /// Stores `value` at `index` without reading or dropping the value that was there,
    /// and without a check of its own: the caller establishes the bound.
    ///
    /// For the checked entry point see [`WriteAt::write_at`].
    fn write_at_unchecked(&mut self, index: usize, value: T)
        requires
            index < old(self).targets()@.len(),
        ensures
            final(self).targets()@ == old(self).targets()@.update(index as int, value),
            final(final(self).targets())@ == final(old(self).targets())@,
    ;
}

/// A trait for objects which provide **non-dropping indexed** write access to their
/// values from a slice.
pub trait WriteFromSliceAt<T>: WriteAt<T> {
    /// Clones the elements of `src` into `self`, starting at `offset`, without reading or
    /// dropping the old values.
    ///
    /// If `T` implements `Copy`, [`WriteFromSliceAt::write_copying_from_slice_at`] does
    /// the same with plain copies.
    ///
    /// `offset + src.len()` past the end of `self` is outside the contract.
    fn write_cloning_from_slice_at(&mut self, src: &[T], offset: usize) where T: Clone
        requires
            offset + src@.len() <= old(self).targets()@.len(),
        ensures
            cloned_into(old(self).targets()@, final(self).targets()@, src@, offset as int),
            final(final(self).targets())@ == final(old(self).targets())@,
    ;

    /// Copies all elements of `src` into `self`, starting at `offset`.
    ///
    /// `offset + src.len()` past the end of `self` is outside the contract.
    fn write_copying_from_slice_at(&mut self, src: &[T], offset: usize) where T: Copy
        requires
            offset + src@.len() <= old(self).targets()@.len(),
        ensures
            final(self).targets()@ == spliced(old(self).targets()@, src@, offset as int),
            final(final(self).targets())@ == final(old(self).targets())@,
    ;
}

} // verus!
