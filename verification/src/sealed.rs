//! Private marker traits that close the set of write-only handle types.
//!
//! `WriteRef` and `WriteSlice` require these markers as supertraits. Because
//! this module is private, code outside the crate cannot name the markers and
//! therefore cannot implement the write-only capabilities for its own types:
//! the only conforming handles are the ones defined here.

use vstd::prelude::*;

verus! {

/// Marker for the sole type allowed to implement `WriteRef`.
pub trait Sealed {}

impl<'a, T: 'a> Sealed for &'a mut T {}

/// Marker for the sole type allowed to implement `WriteSlice`.
pub trait SealedSlice {}

impl<'a, T: 'a> SealedSlice for &'a mut [T] {}

} // verus!
