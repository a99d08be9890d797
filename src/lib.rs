//! Handles that grant write access to existing storage, but never read access.
//!
//! A handle is built from an exclusive borrow of a value ([`WriteOnlyRef`]) or of a
//! run of values ([`WriteOnlySlice`]). Through it a caller can overwrite the target,
//! either dropping the value that was there ([`Put`], [`PutAt`], [`PutFromSliceAt`])
//! or leaving it untouched ([`Write`], [`WriteAt`], [`WriteFromSliceAt`]). No method
//! hands back any element data.
//!
//! For proofs, each handle exposes the borrow it forwards to as a spec function
//! ([`Target::target`], [`Targets::targets`]). Every operation states what it stores
//! there, and that the value left behind when the handle is discarded still flows back
//! to the storage the handle was made from.

use vstd::prelude::*;

pub mod prelude;
pub mod reference;
pub mod slice;

pub use reference::{Put, Target, Write, WriteOnlyRef};
pub use slice::{PutAt, PutFromSliceAt, Targets, WriteAt, WriteFromSliceAt, WriteOnlySlice};

verus! {

/// Relies on `core::mem::forget`: it takes ownership of the value and returns without
/// running the value's destructor. Non-dropping writes hand it the value they displace.
pub assume_specification<T>[ core::mem::forget::<T> ](t: T);

/// What callers of the handles need in scope: a handle that is done with leaves its
/// last writes in the storage it was made from.
pub broadcast group group_write_only {
    crate::reference::non_volatile::lemma_resolved_ref,
    crate::slice::non_volatile::lemma_resolved_slice,
}

} // verus!
