//! The handle types, with the write traits in scope for method calls.

pub use crate::reference::{Put as _, Write as _, WriteOnlyRef};
pub use crate::slice::{
    PutAt as _, PutFromSliceAt as _, WriteAt as _, WriteFromSliceAt as _, WriteOnlySlice,
};
