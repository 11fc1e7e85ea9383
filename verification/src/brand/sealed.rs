//! Seals the brand trait: only this crate's brand types may carry an
//! identity, so no outside type can pose as a compatible brand.

use vstd::prelude::*;

verus! {

/// Bound required of every brand type.  The module holding this trait is
/// private, so nothing outside this crate can implement it.
pub trait Seal {}

} // verus!
