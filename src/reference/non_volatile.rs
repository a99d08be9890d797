use vstd::prelude::*;

use crate::reference::{Put, Target, Write};

verus! {

/// A write-only **reference** with **dropping** and **non-dropping** write access.
pub struct WriteOnlyRef<'a, T> {
    data: &'a mut T,
}

impl<'a, T> WriteOnlyRef<'a, T> {
    /// Forms a write-only reference from an exclusive borrow of a value.
    ///
    /// The handle starts out over the borrowed value, and what it leaves there is what
    /// the borrow leaves there.
    pub fn from(borrow: &'a mut T) -> (r: Self)
        ensures
            *r.target() == *old(borrow),
            *final(r.target()) == *final(borrow),
    {
        WriteOnlyRef { data: borrow }
    }
}

/// Once a handle is done with, the value its target holds is the value the target keeps.
pub broadcast proof fn lemma_resolved_ref<'a, T>(r: WriteOnlyRef<'a, T>)
    ensures
        #[trigger] has_resolved(r) ==> *r.target() == *final(r.target()),
{
}

impl<'a, T> Target<T> for WriteOnlyRef<'a, T> {
    closed spec fn target(&self) -> &mut T {
        self.data
    }
}

impl<'a, T> Put<T> for WriteOnlyRef<'a, T> {
    fn put(&mut self, value: T) {
        *self.data = value;
    }
}

impl<'a, T> Write<T> for WriteOnlyRef<'a, T> {
    fn write(&mut self, value: T) {
        let mut value = value;
        core::mem::swap(self.data, &mut value);
        core::mem::forget(value);
    }
}

impl<'a, T> From<&'a mut T> for WriteOnlyRef<'a, T> {
    fn from(borrow: &'a mut T) -> Self {
        WriteOnlyRef::from(borrow)
    }
}

impl<'a, T> vstd::std_specs::convert::FromSpecImpl<&'a mut T> for WriteOnlyRef<'a, T> {
    // The handle holds a reborrow of `borrow`, which is not equal to `borrow` itself:
    // the inherent `from` states what a handle made this way targets.
    open spec fn obeys_from_spec() -> bool {
        false
    }

    closed spec fn from_spec(borrow: &'a mut T) -> Self {
        WriteOnlyRef { data: borrow }
    }
}

} // verus!
