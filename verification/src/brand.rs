//! Brand identities that witness a common split origin.
//!
//! A [`Brand`] is an unforgeable proof that two handles descend from the same
//! division of ownership.  Its identity is ghost: a brand occupies no memory
//! at runtime, and two brands are compatible exactly when their identities
//! are provably equal.  Fresh identities are drawn from a [`Minter`], the
//! token generator, which owns the supply of identities it has not issued
//! yet; duplication of a brand is reserved to the library's own split and
//! divide operations.

use vstd::prelude::*;

mod sealed;

verus! {

/// Implemented for all brand types: exposes the ghost identity that the
/// compatibility checks of join and reconstruct compare.
pub trait IsBrand: sealed::Seal + Sized {
    /// The ghost identity of this brand.  Two brands may be joined or used
    /// to reconstruct ownership together exactly when their identities are
    /// provably equal.
    spec fn id(self) -> nat;
}

/// A brand: a zero-footprint value whose only content is a ghost identity.
pub struct Brand {
    id: Ghost<nat>,
}

impl sealed::Seal for Brand {
}

impl IsBrand for Brand {
    closed spec fn id(self) -> nat {
        self.id@
    }
}

impl Brand {
    /// Produce two brands of the same identity from one.
    ///
    /// This is the one place where two compatible brands come into being.
    /// It is deliberately confined to this crate, and its only callers are
    /// the two sanctioned compositions: splitting a reference into two, and
    /// dividing a sole owner into a husk and a reference.
    pub(crate) fn duplicate(self) -> (r: (Brand, Brand))
        ensures
            r.0.id() == self.id(),
            r.1.id() == self.id(),
    {
        let Brand { id } = self;
        (Brand { id }, Brand { id })
    }
}

/// The unique token generator: a source of brands whose identities never
/// repeat.
///
/// The generator's whole state is ghost, so it is free at runtime; what a
/// fresh generator's first identity is stays unspecified, so brands from two
/// independent generators are never provably compatible.
pub struct Minter {
    issued: Ghost<nat>,
}

/// One invocation of the token generator: from the state `before` it issued
/// `token` and moved to the state `after`.
pub open spec fn mint_step(before: Minter, after: Minter, token: Brand) -> bool {
    &&& token.id() == before.issued()
    &&& after.issued() == before.issued() + 1
}

impl Minter {
    /// How many identities this generator has issued so far, counted from
    /// an unspecified starting point.
    pub closed spec fn issued(self) -> nat {
        self.issued@
    }

    /// Make a token generator.  Nothing is promised of where its identities
    /// start, only that they never repeat; so nothing relates the brands of
    /// one generator to those of another, and a pairing across generators
    /// can never be proved compatible.
    pub fn new() -> Minter {
        Minter { issued: Ghost(0) }
    }

    /// Generate one fresh unique token.
    pub fn new_token(&mut self) -> (token: Brand)
        ensures
            mint_step(*old(self), *final(self), token),
    {
        let id = Ghost(self.issued@);
        self.issued = Ghost(self.issued@ + 1);
        Brand { id }
    }
}

/// Uniqueness of tokens: two distinct invocations of one token generator
/// yield brands that are never compatible, however many further tokens were
/// issued between the two.
pub proof fn lemma_token_uniqueness(
    before1: Minter,
    after1: Minter,
    token1: Brand,
    before2: Minter,
    after2: Minter,
    token2: Brand,
)
    requires
        mint_step(before1, after1, token1),
        mint_step(before2, after2, token2),
        after1.issued() <= before2.issued(),
    ensures
        token1.id() != token2.id(),
{
}

} // verus!
