//! A segment between two points that no rib has to join.

use crate::index::GeoIndex;
use crate::vertex_index::PtId;
use vstd::prelude::*;

verus! {

/// A reading from one point to another over an index, whether or not a rib
/// joins the two: a probe for geometry that is not stored yet. The two points
/// of a value of this type always differ.
pub struct SegmentRef<'i, C> {
    to: PtId,
    from: PtId,
    index: &'i GeoIndex<C>,
}

impl<'i, C> Clone for SegmentRef<'i, C> {
    fn clone(&self) -> (r: Self)
        ensures
            r == *self,
    {
        *self
    }
}

impl<'i, C> Copy for SegmentRef<'i, C> {

}

impl<'i, C> SegmentRef<'i, C> {
    #[verifier::type_invariant]
    spec fn ends_differ(self) -> bool {
        self.from != self.to
    }

    /// The point at which the segment starts.
    pub closed spec fn from_id(&self) -> PtId {
        self.from
    }

    /// The point at which the segment ends.
    pub closed spec fn to_id(&self) -> PtId {
        self.to
    }

    /// The index that the segment reads its coordinates from.
    pub closed spec fn bound_to(&self) -> &'i GeoIndex<C> {
        self.index
    }

    /// The same two points over the same index, read the other way.
    pub closed spec fn flipped(self) -> Self {
        SegmentRef { to: self.from, from: self.to, index: self.index }
    }

    /// A segment from `from` to `to` over `index`. The two must differ: a
    /// segment from a point to itself has no direction.
    pub fn new(from: PtId, to: PtId, index: &'i GeoIndex<C>) -> (r: Self)
        requires
            from != to,
        ensures
            r.from_pt() == from,
            r.to_pt() == to,
            r.index() == index,
    {
        SegmentRef { to, from, index }
    }

    /// As [`SegmentRef::new`], for a caller that cannot promise that the two
    /// points differ: `None` exactly when they are the same point.
    pub fn try_new(from: PtId, to: PtId, index: &'i GeoIndex<C>) -> (r: Option<Self>)
        ensures
            r.is_none() <==> from == to,
            r matches Some(s) ==> s.from_pt() == from && s.to_pt() == to && s.index() == index,
    {
        if to == from {
            None
        } else {
            Some(SegmentRef { to, from, index })
        }
    }

    /// Whether `v` is one of the two end points.
    pub fn has(&self, v: PtId) -> (r: bool)
        ensures
            r == (v == self.to_pt() || v == self.from_pt()),
    {
        self.to_pt() == v || self.from_pt() == v
    }

    /// The end point, which is not the start point.
    #[verifier::when_used_as_spec(to_id)]
    pub fn to_pt(&self) -> (pt: PtId)
        ensures
            pt == self.to_id(),
            pt != self.from_id(),
    {
        proof {
            use_type_invariant(self);
        }
        self.to
    }

    /// The start point, which is not the end point.
    #[verifier::when_used_as_spec(from_id)]
    pub fn from_pt(&self) -> (pt: PtId)
        ensures
            pt == self.from_id(),
            pt != self.to_id(),
    {
        proof {
            use_type_invariant(self);
        }
        self.from
    }

    #[verifier::when_used_as_spec(bound_to)]
    pub fn index(&self) -> (index: &'i GeoIndex<C>)
        ensures
            index == self.bound_to(),
    {
        self.index
    }

    #[verifier::when_used_as_spec(flipped)]
    pub fn flip(self) -> (r: Self)
        ensures
            r == self.flipped(),
            r.from_pt() == self.to_pt(),
            r.to_pt() == self.from_pt(),
            r.index() == self.index(),
    {
        proof {
            use_type_invariant(&self);
        }
        SegmentRef { to: self.from, from: self.to, index: self.index }
    }
}

impl<'i, C: Copy> SegmentRef<'i, C> {
    /// Coordinate of the start point.
    pub fn from(&self) -> (coord: C)
        requires
            self.index()@.has_point(self.from_pt()),
        ensures
            coord == self.index()@.point(self.from_pt()),
    {
        self.index.get_point(self.from_pt())
    }

    /// Coordinate of the end point.
    pub fn to(&self) -> (coord: C)
        requires
            self.index()@.has_point(self.to_pt()),
        ensures
            coord == self.index()@.point(self.to_pt()),
    {
        self.index.get_point(self.to_pt())
    }
}

/// A segment reference is its two points and its index: two that agree on
/// all three are the same.
pub proof fn lemma_segment_ref_is_its_parts<C>(a: SegmentRef<C>, b: SegmentRef<C>)
    requires
        a.from_pt() == b.from_pt(),
        a.to_pt() == b.to_pt(),
        a.index() == b.index(),
    ensures
        a == b,
{
}

/// Flipping swaps the two points and keeps the index, so flipping twice
/// gives the segment reference back.
pub proof fn lemma_segment_ref_flip_involution<C>(s: SegmentRef<C>)
    ensures
        s.flip().from_pt() == s.to_pt(),
        s.flip().to_pt() == s.from_pt(),
        s.flip().index() == s.index(),
        s.flip().flip() == s,
{
}

} // verus!
