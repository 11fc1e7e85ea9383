//! Sole ownership of a value, the storage strategies that back it, and the
//! residual husk left behind while the value is out on loan.

use vstd::prelude::*;

use crate::brand::IsBrand;

mod seal;

verus! {

/// A storage strategy: how a value's backing store is created, divided into
/// residual metadata plus the uniquely owned slot holding the value,
/// rejoined, and finally given up by value.
pub trait OwnershipKind<T>: seal::Sealed + Sized {
    /// The residual metadata left behind while the value is out on loan.
    type Husk;

    /// The owning representation of the stored value.
    type Inner;

    /// The value a container currently holds.
    spec fn contents(inner: Self::Inner) -> T;

    /// Divide a container into its residual and the slot holding the value.
    fn split(val: Self::Inner) -> (r: (Self::Husk, Box<T>))
        ensures
            *r.1 == Self::contents(val),
    ;

    /// Rejoin a residual with the slot, yielding the container back.
    fn join(husk: Self::Husk, ptr: Box<T>) -> (r: Self::Inner)
        ensures
            Self::contents(r) == *ptr,
    ;

    /// Give up the container, yielding the stored value by ownership.
    fn move_out(val: Self::Inner) -> (r: T)
        ensures
            r == Self::contents(val),
    ;
}

/// The heap-backed storage strategy: the container is a heap allocation and
/// the residual is empty.
pub struct Heap;

impl seal::Sealed for Heap {
}

impl<T> OwnershipKind<T> for Heap {
    type Husk = ();

    type Inner = Box<T>;

    open spec fn contents(inner: Box<T>) -> T {
        *inner
    }

    fn split(val: Box<T>) -> (r: ((), Box<T>)) {
        ((), val)
    }

    fn join(husk: (), ptr: Box<T>) -> (r: Box<T>) {
        ptr
    }

    fn move_out(val: Box<T>) -> (r: T) {
        *val
    }
}

/// The sole owner of a value: the whole, undivided ownership.  It is
/// consumed either by extracting the value or by dividing itself into a
/// husk and a reference.
pub struct Owned<T, Kind> where Kind: OwnershipKind<T> {
    inner: Kind::Inner,
}

/// The residual ownership of a value that is currently out on loan, tagged
/// with the brand of the division that produced it.  A husk is inert until
/// a level-0 reference carrying a compatible brand reconstructs the owner.
pub struct Husk<T, B, Kind> where B: IsBrand, Kind: OwnershipKind<T> {
    inner: Kind::Husk,
    brand: B,
}

impl<T, Kind> Owned<T, Kind> where Kind: OwnershipKind<T> {
    /// The value this handle owns.
    pub closed spec fn value(self) -> T {
        Kind::contents(self.inner)
    }

    /// Extract the owned value, consuming the handle.
    pub fn into_inner(self) -> (r: T)
        ensures
            r == self.value(),
    {
        Kind::move_out(self.inner)
    }

    /// Wrap a container into a sole-owner handle: the birth of ownership.
    pub fn from_inner(inner: Kind::Inner) -> (r: Self)
        ensures
            r.value() == Kind::contents(inner),
    {
        Owned { inner }
    }

    /// Divide this handle into a husk carrying `brand` and the slot that
    /// holds the value.  A reference built over the slot must carry the same
    /// brand identity for the two halves ever to be rejoined.
    pub fn split<B: IsBrand>(self, brand: B) -> (r: (Husk<T, B, Kind>, Box<T>))
        ensures
            r.0.brand_id() == brand.id(),
            *r.1 == self.value(),
    {
        let (inner, ptr) = Kind::split(self.inner);
        (Husk { inner, brand }, ptr)
    }
}

impl<T, B, Kind> Husk<T, B, Kind> where B: IsBrand, Kind: OwnershipKind<T> {
    /// The identity of the brand this husk carries.
    pub closed spec fn brand_id(self) -> nat {
        self.brand.id()
    }

    /// The residual metadata this husk holds.
    pub closed spec fn residual(self) -> Kind::Husk {
        self.inner
    }

    /// Forget the brand information, leaving just the unbranded residual.
    pub fn into_inner(self) -> (r: Kind::Husk)
        ensures
            r == self.residual(),
    {
        let Husk { inner, brand: _ } = self;
        inner
    }
}

/// Create a new sole-owner handle holding `value` on the heap.
pub fn make_owned<T>(value: T) -> (r: Owned<T, Heap>)
    ensures
        r.value() == value,
{
    Owned::from_inner(Box::new(value))
}

/// Round trip: extracting from a freshly created owned handle yields the
/// value that was stored, unchanged.
pub proof fn lemma_extract_round_trip<T>(v: T, owned: Owned<T, Heap>, out: T)
    requires
        call_ensures(make_owned::<T>, (v,), owned),
        call_ensures(Owned::<T, Heap>::into_inner, (owned,), out),
    ensures
        out == v,
{
}

} // verus!
