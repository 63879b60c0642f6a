//! Segments: directed readings of ribs, and the references that bind a reading
//! to an index.

use crate::geo_object::{GeoObject, UnRef};
use crate::ident::{fresh_v4_bits, is_random_v4};
use crate::index::GeoIndex;
use crate::rib::{Rib, RibId, RibMap};
use crate::vertex_index::PtId;
use vstd::prelude::*;

verus! {

/// Handle of one traversal, for the bookkeeping of whoever walks the
/// segments. Nothing here reads it.
#[derive(Debug, PartialEq, Eq, Hash, Clone, Copy, Structural)]
pub struct SegId(pub u128);

impl Default for SegId {
    /// A fresh random identifier.
    fn default() -> (r: Self)
        ensures
            is_random_v4(r.0),
    {
        SegId(fresh_v4_bits())
    }
}

/// The two ways to read a rib: as it was made, or backwards.
#[derive(Debug, PartialEq, Eq, Clone, Copy, Structural)]
pub enum SegmentDir {
    Fow,
    Rev,
}

impl SegmentDir {
    /// The other direction.
    pub open spec fn flipped(&self) -> SegmentDir {
        match self {
            SegmentDir::Fow => SegmentDir::Rev,
            SegmentDir::Rev => SegmentDir::Fow,
        }
    }

    #[verifier::when_used_as_spec(flipped)]
    pub fn flip(&self) -> (r: SegmentDir)
        ensures
            r == self.flipped(),
    {
        match self {
            SegmentDir::Fow => SegmentDir::Rev,
            SegmentDir::Rev => SegmentDir::Fow,
        }
    }
}

/// The point at which a reading of `rib` in direction `dir` starts.
pub open spec fn start_of(rib: Rib, dir: SegmentDir) -> PtId {
    match dir {
        SegmentDir::Fow => rib.0,
        SegmentDir::Rev => rib.1,
    }
}

/// The point at which a reading of `rib` in direction `dir` ends.
pub open spec fn end_of(rib: Rib, dir: SegmentDir) -> PtId {
    match dir {
        SegmentDir::Fow => rib.1,
        SegmentDir::Rev => rib.0,
    }
}

/// A directed reading of one rib. It names the rib and says which way to
/// read it; it owns no geometry and borrows nothing.
#[derive(Debug, PartialEq, Eq, Clone, Copy, Structural)]
pub struct Seg {
    pub rib_id: RibId,
    pub dir: SegmentDir,
}

impl Seg {
    /// The same rib, read the other way.
    pub open spec fn flipped(&self) -> Seg {
        Seg { rib_id: self.rib_id, dir: self.dir.flipped() }
    }

    /// Where this reading starts, by the ribs in `ribs`.
    pub open spec fn from_in(&self, ribs: Map<RibId, Rib>) -> PtId
        recommends
            ribs.contains_key(self.rib_id),
    {
        start_of(ribs[self.rib_id], self.dir)
    }

    /// Where this reading ends, by the ribs in `ribs`.
    pub open spec fn to_in(&self, ribs: Map<RibId, Rib>) -> PtId
        recommends
            ribs.contains_key(self.rib_id),
    {
        end_of(ribs[self.rib_id], self.dir)
    }

    #[verifier::when_used_as_spec(flipped)]
    pub fn flip(&self) -> (r: Seg)
        ensures
            r == self.flipped(),
    {
        Seg { rib_id: self.rib_id, dir: self.dir.flip() }
    }

    /// The end point, resolved against a rib map that the caller holds.
    pub fn to(&self, ribs: &RibMap) -> (pt: PtId)
        requires
            ribs@.contains_key(self.rib_id),
        ensures
            pt == self.to_in(ribs@),
    {
        let rib = ribs.get(self.rib_id).unwrap();
        match self.dir {
            SegmentDir::Fow => rib.1,
            SegmentDir::Rev => rib.0,
        }
    }

    /// The start point, resolved against a rib map that the caller holds.
    pub fn from(&self, ribs: &RibMap) -> (pt: PtId)
        requires
            ribs@.contains_key(self.rib_id),
        ensures
            pt == self.from_in(ribs@),
    {
        let rib = ribs.get(self.rib_id).unwrap();
        match self.dir {
            SegmentDir::Fow => rib.0,
            SegmentDir::Rev => rib.1,
        }
    }

    /// Binds this reading to `index`.
    pub fn to_ref<'i, C>(self, index: &'i GeoIndex<C>) -> (r: SegRef<'i, C>)
        ensures
            r == (SegRef { rib_id: self.rib_id, dir: self.dir, index }),
    {
        SegRef { rib_id: self.rib_id, dir: self.dir, index }
    }
}

/// A reading of a rib, bound to the index that stores the rib. It holds no
/// coordinate: every answer is looked up when it is asked for.
pub struct SegRef<'i, C> {
    pub rib_id: RibId,
    pub dir: SegmentDir,
    pub index: &'i GeoIndex<C>,
}

impl<'i, C> Clone for SegRef<'i, C> {
    fn clone(&self) -> (r: Self)
        ensures
            r == *self,
    {
        *self
    }
}

impl<'i, C> Copy for SegRef<'i, C> {

}

/// The token that stands for the right to change a segment's index. It holds
/// the one mutable borrow of the index, so nothing else can read or write the
/// index while it is alive.
pub struct SegRefMut<'i, C> {
    pub rib_id: RibId,
    pub dir: SegmentDir,
    pub index: &'i mut GeoIndex<C>,
}

impl<'i, C: Copy> SegRef<'i, C> {
    /// The reading without the borrow.
    pub open spec fn as_seg(self) -> Seg {
        Seg { rib_id: self.rib_id, dir: self.dir }
    }

    /// Whether the rib is stored in the index.
    pub open spec fn resolves(&self) -> bool {
        self.index@.ribs.contains_key(self.rib_id)
    }

    /// The point at which this reading starts.
    pub open spec fn from_id(&self) -> PtId
        recommends
            self.resolves(),
    {
        self.as_seg().from_in(self.index@.ribs)
    }

    /// The point at which this reading ends.
    pub open spec fn to_id(&self) -> PtId
        recommends
            self.resolves(),
    {
        self.as_seg().to_in(self.index@.ribs)
    }

    /// The same rib over the same index, read the other way.
    pub open spec fn flipped(self) -> Self {
        SegRef { rib_id: self.rib_id, dir: self.dir.flipped(), index: self.index }
    }

    /// Coordinate of the start point.
    pub fn from(&self) -> (coord: C)
        requires
            self.resolves(),
        ensures
            coord == self.index@.point(self.from_pt()),
    {
        self.index.get_point(self.from_pt())
    }

    /// Coordinate of the end point.
    pub fn to(&self) -> (coord: C)
        requires
            self.resolves(),
        ensures
            coord == self.index@.point(self.to_pt()),
    {
        self.index.get_point(self.to_pt())
    }

    /// Whether `v` is one of the two end points.
    pub fn has(&self, v: PtId) -> (r: bool)
        requires
            self.resolves(),
        ensures
            r == (v == self.to_pt() || v == self.from_pt()),
    {
        self.to_pt() == v || self.from_pt() == v
    }

    /// The end point. It is stored in the index and is not the start point.
    #[verifier::when_used_as_spec(to_id)]
    pub fn to_pt(&self) -> (pt: PtId)
        requires
            self.resolves(),
        ensures
            pt == self.to_id(),
            pt != self.from_id(),
            self.index@.has_point(pt),
    {
        let rib = self.index.rib(self.rib_id).unwrap();
        match self.dir {
            SegmentDir::Fow => rib.1,
            SegmentDir::Rev => rib.0,
        }
    }

    /// The start point. It is stored in the index and is not the end point.
    #[verifier::when_used_as_spec(from_id)]
    pub fn from_pt(&self) -> (pt: PtId)
        requires
            self.resolves(),
        ensures
            pt == self.from_id(),
            pt != self.to_id(),
            self.index@.has_point(pt),
    {
        let rib = self.index.rib(self.rib_id).unwrap();
        match self.dir {
            SegmentDir::Fow => rib.0,
            SegmentDir::Rev => rib.1,
        }
    }

    #[verifier::when_used_as_spec(flipped)]
    pub fn flip(self) -> (r: Self)
        ensures
            r == self.flipped(),
    {
        SegRef { rib_id: self.rib_id, dir: self.dir.flip(), index: self.index }
    }

    /// The reading without the borrow.
    #[verifier::when_used_as_spec(as_seg)]
    pub fn seg(self) -> (s: Seg)
        ensures
            s == self.as_seg(),
    {
        Seg { rib_id: self.rib_id, dir: self.dir }
    }

    pub fn rib_id(&self) -> (id: RibId)
        ensures
            id == self.rib_id,
    {
        self.rib_id
    }
}

impl<'i, C: Copy> UnRef<'i, C> for SegRef<'i, C> {
    type Obj = Seg;

    open spec fn bare(&self) -> Seg {
        self.as_seg()
    }

    fn un_ref(self) -> (obj: Seg) {
        Seg { rib_id: self.rib_id, dir: self.dir }
    }
}

impl<'i, C: Copy> UnRef<'i, C> for SegRefMut<'i, C> {
    type Obj = RibId;

    open spec fn bare(&self) -> RibId {
        self.rib_id
    }

    /// Gives the borrow back with the index as it found it.
    fn un_ref(self) -> (obj: RibId)
        ensures
            *final(self.index) == *old(self.index),
    {
        self.rib_id
    }
}

impl<'i, C: Copy + 'i> GeoObject<'i, C> for Seg {
    type Ref = SegRef<'i, C>;

    type MutRef = SegRefMut<'i, C>;

    open spec fn read_back(&self) -> Seg {
        *self
    }

    open spec fn write_back(&self) -> RibId {
        self.rib_id
    }

    fn make_ref(&self, index: &'i GeoIndex<C>) -> (r: SegRef<'i, C>)
        ensures
            r == (SegRef { rib_id: self.rib_id, dir: self.dir, index }),
    {
        SegRef { index, rib_id: self.rib_id, dir: self.dir }
    }

    /// The index passes into the token as it is, and what the token leaves
    /// behind is what the caller finds when the borrow ends.
    fn make_mut_ref(&self, index: &'i mut GeoIndex<C>) -> (r: SegRefMut<'i, C>)
        ensures
            r.rib_id == self.rib_id,
            r.dir == self.dir,
            *r.index == *old(index),
            *final(index) == *final(r.index),
    {
        SegRefMut { index, rib_id: self.rib_id, dir: self.dir }
    }
}

/// Flipping a direction twice gives it back, and flipping once never does.
pub proof fn lemma_dir_flip_involution(dir: SegmentDir)
    ensures
        dir.flip().flip() == dir,
        dir.flip() != dir,
{
}

/// Flipping a segment twice gives it back. One flip keeps the rib and changes
/// the direction.
pub proof fn lemma_seg_flip_involution(seg: Seg)
    ensures
        seg.flip().flip() == seg,
        seg.flip().rib_id == seg.rib_id,
        seg.flip().dir == seg.dir.flip(),
{
}

/// Flipping a segment reference twice gives it back. One flip keeps the index
/// and flips the segment underneath.
pub proof fn lemma_seg_ref_flip_involution<C: Copy>(r: SegRef<C>)
    ensures
        r.flip().flip() == r,
        r.flip().index == r.index,
        r.flip().seg() == r.seg().flip(),
{
}

/// A forward reading of the rib from `origin` to `dest` starts at `origin`
/// and ends at `dest`; a reverse reading starts at `dest` and ends at
/// `origin`.
pub proof fn lemma_seg_reads_rib(
    ribs: Map<RibId, Rib>,
    rib_id: RibId,
    origin: PtId,
    dest: PtId,
)
    requires
        ribs.contains_key(rib_id),
        ribs[rib_id] == Rib(origin, dest),
    ensures
        (Seg { rib_id, dir: SegmentDir::Fow }).from_in(ribs) == origin,
        (Seg { rib_id, dir: SegmentDir::Fow }).to_in(ribs) == dest,
        (Seg { rib_id, dir: SegmentDir::Rev }).from_in(ribs) == dest,
        (Seg { rib_id, dir: SegmentDir::Rev }).to_in(ribs) == origin,
{
}

/// The same for a reference: over an index that stores the rib from `origin`
/// to `dest` under `rib_id`, forward reads `origin` then `dest`, reverse
/// `dest` then `origin`.
pub proof fn lemma_seg_ref_reads_rib<C: Copy>(
    index: &GeoIndex<C>,
    rib_id: RibId,
    origin: PtId,
    dest: PtId,
)
    requires
        index@.ribs.contains_key(rib_id),
        index@.ribs[rib_id] == Rib(origin, dest),
    ensures
        (SegRef { rib_id, dir: SegmentDir::Fow, index }).from_pt() == origin,
        (SegRef { rib_id, dir: SegmentDir::Fow, index }).to_pt() == dest,
        (SegRef { rib_id, dir: SegmentDir::Rev, index }).from_pt() == dest,
        (SegRef { rib_id, dir: SegmentDir::Rev, index }).to_pt() == origin,
{
}

/// Flipping swaps the two ends, whatever the rib map holds.
pub proof fn lemma_seg_flip_swaps_ends(seg: Seg, ribs: Map<RibId, Rib>)
    ensures
        seg.flip().from_in(ribs) == seg.to_in(ribs),
        seg.flip().to_in(ribs) == seg.from_in(ribs),
{
}

/// Flipping a reference swaps the two ends and leaves the rest alone: the
/// flipped one resolves exactly when the unflipped one does.
pub proof fn lemma_seg_ref_flip_swaps_ends<C: Copy>(r: SegRef<C>)
    ensures
        r.flip().from_pt() == r.to_pt(),
        r.flip().to_pt() == r.from_pt(),
        r.flip().resolves() == r.resolves(),
{
}

/// Growth of the index disturbs no reading: a segment that resolved in
/// `before` resolves in every index that extends it, to the same two points,
/// and these have the coordinates they had.
pub proof fn lemma_growth_keeps_readings<C: Copy>(
    seg: Seg,
    before: &GeoIndex<C>,
    after: &GeoIndex<C>,
)
    requires
        before@.wf(),
        after@.extends(before@),
        (SegRef { rib_id: seg.rib_id, dir: seg.dir, index: before }).resolves(),
    ensures
        ({
            let old_ref = SegRef { rib_id: seg.rib_id, dir: seg.dir, index: before };
            let new_ref = SegRef { rib_id: seg.rib_id, dir: seg.dir, index: after };
            &&& new_ref.resolves()
            &&& new_ref.from_pt() == old_ref.from_pt()
            &&& new_ref.to_pt() == old_ref.to_pt()
            &&& after@.point(new_ref.from_pt()) == before@.point(old_ref.from_pt())
            &&& after@.point(new_ref.to_pt()) == before@.point(old_ref.to_pt())
        }),
{
    assert(before@.ribs.contains_key(seg.rib_id));
}

/// Binding a segment to an index and dropping the borrow again gives the
/// segment back.
pub proof fn lemma_ref_round_trip<C: Copy>(seg: Seg, index: &GeoIndex<C>)
    ensures
        (SegRef { rib_id: seg.rib_id, dir: seg.dir, index }).bare() == seg,
        (SegRef { rib_id: seg.rib_id, dir: seg.dir, index }).seg() == seg,
{
}

} // verus!
