//! Static management of exclusive and shared access to a heap-resident value.
//!
//! A sole-owner handle ([`Owned`]) can be divided into a residual [`Husk`]
//! plus a level-0 [`Ref`], the only mutable view.  A reference can be split
//! into two read-only views one level up, and two sibling views can be joined
//! back one level down; once the tree is rejoined to level 0, the reference
//! and the matching husk reconstruct the sole owner.  Which husks and
//! references belong together is witnessed by a ghost brand identity, and the
//! level of each reference is ghost as well: every compatibility check is a
//! verification-time obligation, never a runtime comparison, so an illegal
//! pairing is rejected before the program runs and no handle carries any
//! bookkeeping data at runtime.

pub mod brand;

mod owned;
pub use owned::{Heap, Husk, Owned, OwnershipKind, lemma_extract_round_trip, make_owned};

mod reference;
pub use reference::{
    Ref, RefMut, begin_borrow, lemma_cross_origin_rejection, lemma_divide_reconstruct_round_trip,
    lemma_mutability_restoration, lemma_split_join_round_trip,
};
