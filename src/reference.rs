//! References that only provide write access, no read access.

use vstd::prelude::*;

pub mod non_volatile;

pub use non_volatile::WriteOnlyRef;

verus! {

/// The storage location that a scalar handle writes to, as seen by proofs.
pub trait Target<T> {
    /// The borrow that the handle forwards its writes to.
    ///
    /// `*self.target()` is what the location holds now; `*final(self.target())` is what
    /// it holds once the handle is gone.
    spec fn target(&self) -> &mut T;
}

/// A trait for objects which provide **dropping** write access to their value.
pub trait Put<T>: Target<T> {
    /// Stores `value` in the target, dropping the value that was there.
    ///
    /// The handle keeps forwarding to the same storage.
    fn put(&mut self, value: T)
        ensures
            *final(self).target() == value,
            *final(final(self).target()) == *final(old(self).target()),
    ;
}

/// A trait for objects which provide **non-dropping** write access to their value.
pub trait Write<T>: Target<T> {
    /// Stores `value` in the target without reading or dropping the value that was there.
    ///
    /// The handle keeps forwarding to the same storage.
    fn write(&mut self, value: T)
        ensures
            *final(self).target() == value,
            *final(final(self).target()) == *final(old(self).target()),
    ;
}

} // verus!
