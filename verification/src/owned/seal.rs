//! Seals the storage-strategy trait: only this crate's strategies divide and
//! rejoin a value's backing store.

use vstd::prelude::*;

verus! {

/// Bound required of every storage strategy.  The module holding this trait
/// is private, so nothing outside this crate can implement it.
pub trait Sealed {}

} // verus!
