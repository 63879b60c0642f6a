//! How a plain, identifier-only value becomes a reference bound to an index,
//! and back. Every kind of indexed entity converts in this one way.

use crate::index::GeoIndex;
use vstd::prelude::*;

verus! {

/// A reference that can give up its borrow of the index.
pub trait UnRef<'a, C>: Sized {
    /// The identifier-only value that is left.
    type Obj;

    /// What [`UnRef::un_ref`] recovers: a reference carries identifiers and a
    /// borrow, and this is the identifiers.
    spec fn bare(&self) -> Self::Obj;

    /// Drops the borrow and returns the plain value.
    fn un_ref(self) -> (obj: Self::Obj)
        ensures
            obj == self.bare(),
    ;
}

/// A plain value that can be bound to an index, for reading or for writing.
pub trait GeoObject<'a, C: 'a>: Sized {
    /// The read capability: any number of them may share an index.
    type Ref: UnRef<'a, C>;

    /// The write capability: while one is alive it is the only reference to
    /// its index.
    type MutRef: UnRef<'a, C>;

    /// What a read reference made of `self` gives back on `un_ref`.
    spec fn read_back(&self) -> <Self::Ref as UnRef<'a, C>>::Obj;

    /// What a write reference made of `self` gives back on `un_ref`.
    spec fn write_back(&self) -> <Self::MutRef as UnRef<'a, C>>::Obj;

    fn make_ref(&self, index: &'a GeoIndex<C>) -> (r: Self::Ref)
        ensures
            r.bare() == self.read_back(),
    ;

    fn make_mut_ref(&self, index: &'a mut GeoIndex<C>) -> (r: Self::MutRef)
        ensures
            r.bare() == self.write_back(),
    ;
}

} // verus!
