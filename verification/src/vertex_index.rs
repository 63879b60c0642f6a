//! The vertex store: point identifiers and the coordinates they stand for.

use vstd::prelude::*;

verus! {

/// Handle of a stored point. Two handles are the same point exactly when they
/// are equal; nothing else is read from one.
#[derive(Debug, PartialEq, Eq, Hash, Clone, Copy, Structural)]
pub struct PtId(pub usize);

/// Coordinates by point identifier. Points are only ever added, so a handle
/// that resolves once resolves for good.
pub struct VertexIndex<C> {
    points: Vec<C>,
}

impl<C> View for VertexIndex<C> {
    type V = Seq<C>;

    closed spec fn view(&self) -> Seq<C> {
        self.points@
    }
}

impl<C: Copy> VertexIndex<C> {
    /// Whether `id` names a stored point.
    pub open spec fn has(&self, id: PtId) -> bool {
        id.0 < self@.len()
    }

    /// The coordinate stored for `id`.
    pub open spec fn point(&self, id: PtId) -> C
        recommends
            self.has(id),
    {
        self@[id.0 as int]
    }

    pub fn new() -> (r: Self)
        ensures
            r@ == Seq::<C>::empty(),
    {
        VertexIndex { points: Vec::new() }
    }

    /// Stores `coord` as a new point and returns its handle.
    pub fn add(&mut self, coord: C) -> (id: PtId)
        ensures
            final(self)@ == old(self)@.push(coord),
            id.0 == old(self)@.len(),
    {
        let id = PtId(self.points.len());
        self.points.push(coord);
        id
    }

    pub fn contains(&self, id: PtId) -> (r: bool)
        ensures
            r == self.has(id),
    {
        id.0 < self.points.len()
    }

    /// The coordinate of a stored point.
    pub fn get_point(&self, id: PtId) -> (coord: C)
        requires
            self.has(id),
        ensures
            coord == self.point(id),
    {
        self.points[id.0]
    }
}

} // verus!
