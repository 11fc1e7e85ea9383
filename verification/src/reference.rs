//! Borrowed references: split, join, and reconstruction of ownership.

use vstd::prelude::*;

use crate::brand::{Brand, IsBrand, Minter};
use crate::owned::{Husk, Owned, OwnershipKind};

verus! {

/// A borrowed reference: the uniquely owned slot holding the value, a brand
/// witnessing which division it descends from, and a ghost level.  Level 0
/// is the unique mutable view; every level above 0 is a read-only view
/// produced by splitting.
pub struct Ref<T, B> where B: IsBrand {
    ptr: Box<T>,
    brand: B,
    level: Ghost<nat>,
}

/// A mutable borrowed reference.  Levels are ghost, so this is the same
/// type as [`Ref`]; that the level is 0 stands in the contracts of the
/// operations reserved to the mutable view.
pub type RefMut<T, B> = Ref<T, B>;

impl<T, B> Ref<T, B> where B: IsBrand {
    /// The value this reference views.
    pub closed spec fn value(self) -> T {
        *self.ptr
    }

    /// The identity of the brand this reference carries.
    pub closed spec fn brand_id(self) -> nat {
        self.brand.id()
    }

    /// The level of this reference: 0 is the unique mutable view, higher
    /// levels are read-only.
    pub closed spec fn level(self) -> nat {
        self.level@
    }

    /// Mint the unique level-0 reference over a slot divided off a sole
    /// owner.  `brand` must carry the identity used at division time for
    /// this reference ever to meet its husk again.
    pub fn new(ptr: Box<T>, brand: B) -> (r: Self)
        ensures
            r.value() == *ptr,
            r.brand_id() == brand.id(),
            r.level() == 0,
    {
        Ref { ptr, brand, level: Ghost(0) }
    }

    /// Read the value; legal at every level.
    pub fn deref(&self) -> (r: &T)
        ensures
            *r == self.value(),
    {
        &*self.ptr
    }

    /// Mutably access the value; legal only at level 0.
    pub fn deref_mut(&mut self) -> (r: &mut T)
        requires
            old(self).level() == 0,
        ensures
            *r == old(self).value(),
            final(self).value() == *final(r),
            final(self).brand_id() == old(self).brand_id(),
            final(self).level() == 0,
    {
        &mut *self.ptr
    }

    /// Join this reference with a sibling of the same level and brand,
    /// coming back one level down.  The result views this reference's
    /// value; the sibling, a read-only view of the same division, is
    /// consumed.
    pub fn join(self, other: Self) -> (r: Self)
        requires
            self.level() >= 1,
            other.level() == self.level(),
            other.brand_id() == self.brand_id(),
        ensures
            r.value() == self.value(),
            r.brand_id() == self.brand_id(),
            r.level() == self.level() - 1,
    {
        let Ref { ptr, brand, level } = self;
        Ref { ptr, brand, level: Ghost((level@ - 1) as nat) }
    }

    /// Join this level-0 reference with the husk of the same division,
    /// reconstructing the sole owner.
    pub fn reconstruct<Kind>(self, husk: Husk<T, B, Kind>) -> (r: Owned<T, Kind>)
        where Kind: OwnershipKind<T>
        requires
            self.level() == 0,
            husk.brand_id() == self.brand_id(),
        ensures
            r.value() == self.value(),
    {
        let Ref { ptr, brand: _, level: _ } = self;
        Owned::from_inner(Kind::join(husk.into_inner(), ptr))
    }
}

impl<T> Ref<T, Brand> where T: Clone {
    /// Split this reference into two read-only references one level up.
    /// Both halves carry this reference's brand; the first keeps the
    /// value's slot, the second views a clone of the value.
    pub fn split(self) -> (r: (Ref<T, Brand>, Ref<T, Brand>))
        ensures
            r.0.value() == self.value(),
            vstd::pervasive::cloned(self.value(), r.1.value()),
            r.0.brand_id() == self.brand_id(),
            r.1.brand_id() == self.brand_id(),
            r.0.level() == self.level() + 1,
            r.1.level() == self.level() + 1,
    {
        let Ref { ptr, brand, level } = self;
        let (brand1, brand2) = brand.duplicate();
        let copy = ptr.clone();
        let up = Ghost((level@ + 1) as nat);
        (Ref { ptr, brand: brand1, level: up }, Ref { ptr: copy, brand: brand2, level: up })
    }
}

/// Divide a sole owner into its husk and the initial mutable reference: a
/// fresh brand is generated, duplicated once, and its two halves tag the
/// husk and the reference, so the pair is compatible by construction.
pub fn begin_borrow<T, Kind>(owned: Owned<T, Kind>, minter: &mut Minter) -> (r: (
    Husk<T, Brand, Kind>,
    RefMut<T, Brand>,
))
    where Kind: OwnershipKind<T>
    ensures
        r.1.value() == owned.value(),
        r.1.level() == 0,
        r.0.brand_id() == r.1.brand_id(),
        r.1.brand_id() == old(minter).issued(),
        final(minter).issued() == old(minter).issued() + 1,
{
    let token = minter.new_token();
    let (husk_brand, ref_brand) = token.duplicate();
    let (husk, ptr) = owned.split(husk_brand);
    let reference = Ref::new(ptr, ref_brand);
    (husk, reference)
}

/// Split/join round trip: the two references a split yields may immediately
/// be joined again, and the rejoined reference is observably equivalent to
/// the one that was split: same value, same brand, same level, so it can be
/// paired with whatever husk the original could.
pub proof fn lemma_split_join_round_trip<T: Clone>(
    r: Ref<T, Brand>,
    a: Ref<T, Brand>,
    b: Ref<T, Brand>,
    rejoined: Ref<T, Brand>,
)
    requires
        call_ensures(Ref::<T, Brand>::split, (r,), (a, b)),
        call_ensures(Ref::<T, Brand>::join, (a, b), rejoined),
    ensures
        call_requires(Ref::<T, Brand>::join, (a, b)),
        rejoined.value() == r.value(),
        rejoined.brand_id() == r.brand_id(),
        rejoined.level() == r.level(),
{
}

/// Divide/reconstruct round trip: the husk and reference a division yields
/// may immediately reconstruct the owner, without any split or join, and
/// extracting from the reconstructed owner yields the value unchanged.
pub proof fn lemma_divide_reconstruct_round_trip<T, Kind: OwnershipKind<T>>(
    owned: Owned<T, Kind>,
    husk: Husk<T, Brand, Kind>,
    r0: Ref<T, Brand>,
    rebuilt: Owned<T, Kind>,
    out: T,
)
    requires
        r0.value() == owned.value(),
        r0.level() == 0,
        husk.brand_id() == r0.brand_id(),
        call_ensures(Ref::<T, Brand>::reconstruct, (r0, husk), rebuilt),
        call_ensures(Owned::<T, Kind>::into_inner, (rebuilt,), out),
    ensures
        call_requires(Ref::<T, Brand>::reconstruct, (r0, husk)),
        out == owned.value(),
{
}

/// Cross-origin rejection: two divisions that drew their brands from one
/// token generator, one after the other, are never compatible.  Neither
/// join nor reconstruct accepts a reference of the one division paired with
/// a reference or husk of the other, and since splitting preserves a
/// reference's brand, the same holds of every reference descended from
/// either division.
pub proof fn lemma_cross_origin_rejection<T, Kind: OwnershipKind<T>>(
    m0: Minter,
    m1: Minter,
    husk1: Husk<T, Brand, Kind>,
    r1: Ref<T, Brand>,
    m2: Minter,
    m3: Minter,
    husk2: Husk<T, Brand, Kind>,
    r2: Ref<T, Brand>,
)
    requires
        husk1.brand_id() == r1.brand_id(),
        r1.brand_id() == m0.issued(),
        m1.issued() == m0.issued() + 1,
        m1.issued() <= m2.issued(),
        husk2.brand_id() == r2.brand_id(),
        r2.brand_id() == m2.issued(),
        m3.issued() == m2.issued() + 1,
    ensures
        r1.brand_id() != r2.brand_id(),
        husk1.brand_id() != r2.brand_id(),
        husk2.brand_id() != r1.brand_id(),
{
}

/// Mutability restoration: joining two sibling views at level 1 yields a
/// reference at level 0, the level at which mutable access is granted
/// again, and reading the rejoined reference returns exactly its value.
/// That a mutable access then changes what reads return is the contract of
/// [`Ref::deref_mut`]: the value written through the returned borrow
/// becomes the reference's value.
pub proof fn lemma_mutability_restoration<T: Clone>(
    a: Ref<T, Brand>,
    b: Ref<T, Brand>,
    r0: Ref<T, Brand>,
    observed: &T,
)
    requires
        a.level() == 1,
        b.level() == a.level(),
        b.brand_id() == a.brand_id(),
        call_ensures(Ref::<T, Brand>::join, (a, b), r0),
        call_ensures(Ref::<T, Brand>::deref, (&r0,), observed),
    ensures
        r0.level() == 0,
        *observed == r0.value(),
{
}

} // verus!
