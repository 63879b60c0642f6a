//! The index: the one place where points and ribs are stored.

use crate::rib::{Rib, RibId, RibMap};
use crate::vertex_index::{PtId, VertexIndex};
use vstd::prelude::*;

verus! {

/// What an index holds, as mathematics: the stored coordinates in the order in
/// which they were added, and the stored ribs by identifier.
pub struct GeoIndexView<C> {
    pub points: Seq<C>,
    pub ribs: Map<RibId, Rib>,
}

impl<C> GeoIndexView<C> {
    /// Whether `id` names a stored point.
    pub open spec fn has_point(self, id: PtId) -> bool {
        id.0 < self.points.len()
    }

    /// The coordinate stored for `id`.
    pub open spec fn point(self, id: PtId) -> C
        recommends
            self.has_point(id),
    {
        self.points[id.0 as int]
    }

    /// Whether `rib` could be stored here: it joins two different points, and
    /// both are stored.
    pub open spec fn admits(self, rib: Rib) -> bool {
        &&& rib.is_proper()
        &&& self.has_point(rib.0)
        &&& self.has_point(rib.1)
    }

    /// Every stored rib joins two different stored points.
    pub open spec fn wf(self) -> bool {
        forall|id: RibId| #[trigger] self.ribs.contains_key(id) ==> self.admits(self.ribs[id])
    }

    /// Whether all that `earlier` held is still here: the same coordinate
    /// for each of its points, the same rib under each of its identifiers.
    pub open spec fn extends(self, earlier: Self) -> bool {
        &&& earlier.points.len() <= self.points.len()
        &&& forall|i: int|
            0 <= i < earlier.points.len() ==> #[trigger] self.points[i] == earlier.points[i]
        &&& forall|id: RibId| #[trigger]
            earlier.ribs.contains_key(id) ==> self.ribs.contains_key(id) && self.ribs[id]
                == earlier.ribs[id]
    }
}

/// Points and ribs together. Every value of this type is well formed in the
/// sense of [`GeoIndexView::wf`]: [`GeoIndex::insert_rib`] turns away a rib
/// that would break it, and points are never taken out.
pub struct GeoIndex<C> {
    vertices: VertexIndex<C>,
    ribs: RibMap,
}

impl<C> View for GeoIndex<C> {
    type V = GeoIndexView<C>;

    closed spec fn view(&self) -> GeoIndexView<C> {
        GeoIndexView { points: self.vertices@, ribs: self.ribs@ }
    }
}

impl<C> GeoIndex<C> {
    #[verifier::type_invariant]
    spec fn inv(self) -> bool {
        self@.wf()
    }
}

impl<C: Copy> GeoIndex<C> {
    pub fn new() -> (r: Self)
        ensures
            r@.points == Seq::<C>::empty(),
            r@.ribs == Map::<RibId, Rib>::empty(),
    {
        GeoIndex { vertices: VertexIndex::new(), ribs: RibMap::new() }
    }

    /// Stores `coord` as a new point and returns its handle. The ribs stay as
    /// they are.
    pub fn add_point(&mut self, coord: C) -> (id: PtId)
        ensures
            final(self)@.points == old(self)@.points.push(coord),
            final(self)@.ribs == old(self)@.ribs,
            id.0 == old(self)@.points.len(),
            final(self)@.extends(old(self)@),
    {
        proof {
            use_type_invariant(&*self);
        }
        // Both fields leave, ribs first, and come back, ribs last: without
        // ribs the index is well formed whatever its points are.
        let mut ribs = RibMap::new();
        std::mem::swap(&mut ribs, &mut self.ribs);
        let mut vertices = VertexIndex::new();
        std::mem::swap(&mut vertices, &mut self.vertices);
        let id = vertices.add(coord);
        self.vertices = vertices;
        proof {
            let grown = GeoIndexView { points: vertices@, ribs: ribs@ };
            assert forall|rib_id: RibId| #[trigger]
                grown.ribs.contains_key(rib_id) implies grown.admits(grown.ribs[rib_id]) by {
                assert(old(self)@.ribs.contains_key(rib_id));
            }
        }
        self.ribs = ribs;
        id
    }

    /// Stores `rib` under `id` if `id` is not taken and the index admits the
    /// rib; otherwise leaves the index as it was. Returns whether it stored.
    /// A stored rib is never replaced, so an identifier that resolves keeps
    /// resolving to the same two points.
    pub fn insert_rib(&mut self, id: RibId, rib: Rib) -> (stored: bool)
        ensures
            stored == (old(self)@.admits(rib) && !old(self)@.ribs.contains_key(id)),
            final(self)@.points == old(self)@.points,
            final(self)@.ribs == (if stored {
                old(self)@.ribs.insert(id, rib)
            } else {
                old(self)@.ribs
            }),
            final(self)@.extends(old(self)@),
    {
        proof {
            use_type_invariant(&*self);
        }
        if rib.0 != rib.1 && self.vertices.contains(rib.0) && self.vertices.contains(rib.1)
            && !self.ribs.contains_key(id) {
            // Without ribs the index is well formed whatever its points are,
            // so the map may leave, grow outside and come back.
            let mut ribs = RibMap::new();
            std::mem::swap(&mut ribs, &mut self.ribs);
            ribs.insert(id, rib);
            proof {
                let grown = GeoIndexView { points: self.vertices@, ribs: ribs@ };
                assert forall|rib_id: RibId| #[trigger]
                    grown.ribs.contains_key(rib_id) implies grown.admits(grown.ribs[rib_id]) by {
                    if rib_id != id {
                        assert(old(self)@.ribs.contains_key(rib_id));
                    }
                }
            }
            self.ribs = ribs;
            true
        } else {
            false
        }
    }

    /// The vertex store.
    pub fn vertices(&self) -> (r: &VertexIndex<C>)
        ensures
            r@ == self@.points,
    {
        &self.vertices
    }

    /// The rib map, for code that resolves against it alone.
    pub fn ribs(&self) -> (r: &RibMap)
        ensures
            r@ == self@.ribs,
            self@.wf(),
    {
        proof {
            use_type_invariant(self);
        }
        &self.ribs
    }

    pub fn has_point(&self, id: PtId) -> (r: bool)
        ensures
            r == self@.has_point(id),
    {
        self.vertices.contains(id)
    }

    /// The coordinate of a stored point.
    pub fn get_point(&self, id: PtId) -> (coord: C)
        requires
            self@.has_point(id),
        ensures
            coord == self@.point(id),
    {
        self.vertices.get_point(id)
    }

    pub fn has_rib(&self, id: RibId) -> (r: bool)
        ensures
            r == self@.ribs.contains_key(id),
    {
        self.ribs.contains_key(id)
    }

    /// The rib stored under `id`, or `None` for an identifier that does not
    /// resolve. A rib that comes back joins two different stored points.
    pub fn rib(&self, id: RibId) -> (r: Option<Rib>)
        ensures
            r == (if self@.ribs.contains_key(id) {
                Some(self@.ribs[id])
            } else {
                None
            }),
            r matches Some(rib) ==> self@.admits(rib),
    {
        proof {
            use_type_invariant(self);
        }
        let r = self.ribs.get(id);
        assert(r.is_some() ==> self@.ribs.contains_key(id));
        r
    }
}

} // verus!
