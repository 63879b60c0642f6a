use prismatic::{
    GeoIndex, GeoObject, PtId, Rib, RibId, RibMap, Seg, SegRef, SegmentDir, SegmentRef, UnRef,
};

type Coord = [f64; 3];

fn unit_edge() -> (GeoIndex<Coord>, PtId, PtId, RibId) {
    let mut index = GeoIndex::new();
    let origin = index.add_point([0.0, 0.0, 0.0]);
    let dest = index.add_point([1.0, 0.0, 0.0]);
    let rib_id = RibId(42);
    assert!(index.insert_rib(rib_id, Rib(origin, dest)));
    (index, origin, dest, rib_id)
}

#[test]
fn direction_flip_is_an_involution() {
    assert_eq!(SegmentDir::Fow.flip(), SegmentDir::Rev);
    assert_eq!(SegmentDir::Rev.flip(), SegmentDir::Fow);
    assert_eq!(SegmentDir::Fow.flip().flip(), SegmentDir::Fow);
    assert_eq!(SegmentDir::Rev.flip().flip(), SegmentDir::Rev);
}

#[test]
fn seg_flip_changes_only_the_direction() {
    let seg = Seg { rib_id: RibId(7), dir: SegmentDir::Fow };
    let flipped = seg.flip();
    assert_eq!(flipped, Seg { rib_id: RibId(7), dir: SegmentDir::Rev });
    assert_ne!(flipped, seg);
    assert_eq!(flipped.flip(), seg);
}

#[test]
fn segs_are_equal_when_both_fields_match() {
    let seg = Seg { rib_id: RibId(7), dir: SegmentDir::Fow };
    assert_eq!(seg, Seg { rib_id: RibId(7), dir: SegmentDir::Fow });
    assert_ne!(seg, Seg { rib_id: RibId(8), dir: SegmentDir::Fow });
    assert_ne!(seg, Seg { rib_id: RibId(7), dir: SegmentDir::Rev });
}

#[test]
fn seg_reads_a_rib_map_forward_and_in_reverse() {
    let mut ribs = RibMap::new();
    ribs.insert(RibId(1), Rib(PtId(10), PtId(20)));
    ribs.insert(RibId(2), Rib(PtId(30), PtId(40)));
    let forward = Seg { rib_id: RibId(1), dir: SegmentDir::Fow };
    assert_eq!(forward.from(&ribs), PtId(10));
    assert_eq!(forward.to(&ribs), PtId(20));
    let reverse = Seg { rib_id: RibId(1), dir: SegmentDir::Rev };
    assert_eq!(reverse.from(&ribs), PtId(20));
    assert_eq!(reverse.to(&ribs), PtId(10));
    let other = Seg { rib_id: RibId(2), dir: SegmentDir::Rev };
    assert_eq!(other.from(&ribs), PtId(40));
    assert_eq!(other.to(&ribs), PtId(30));
}

#[test]
fn seg_reads_the_rib_map_of_an_index() {
    let (index, origin, dest, rib_id) = unit_edge();
    let seg = Seg { rib_id, dir: SegmentDir::Rev };
    assert_eq!(seg.from(index.ribs()), dest);
    assert_eq!(seg.to(index.ribs()), origin);
}

#[test]
fn forward_reference_reads_origin_then_destination() {
    let (index, origin, dest, rib_id) = unit_edge();
    let r = Seg { rib_id, dir: SegmentDir::Fow }.to_ref(&index);
    assert_eq!(r.from_pt(), origin);
    assert_eq!(r.to_pt(), dest);
    assert_eq!(r.from(), [0.0, 0.0, 0.0]);
    assert_eq!(r.to(), [1.0, 0.0, 0.0]);
}

#[test]
fn reverse_reference_reads_destination_then_origin() {
    let (index, origin, dest, rib_id) = unit_edge();
    let r = Seg { rib_id, dir: SegmentDir::Rev }.to_ref(&index);
    assert_eq!(r.from_pt(), dest);
    assert_eq!(r.to_pt(), origin);
    assert_eq!(r.from(), [1.0, 0.0, 0.0]);
    assert_eq!(r.to(), [0.0, 0.0, 0.0]);
}

#[test]
fn reference_knows_its_two_points_and_no_other() {
    let (mut index, origin, dest, rib_id) = unit_edge();
    let apex = index.add_point([5.0, 5.0, 5.0]);
    let r = Seg { rib_id, dir: SegmentDir::Fow }.to_ref(&index);
    assert!(r.has(origin));
    assert!(r.has(dest));
    assert!(!r.has(apex));
    assert!(!r.has(PtId(99)));
}

#[test]
fn reference_flip_is_an_involution_over_the_same_index() {
    let (index, origin, dest, rib_id) = unit_edge();
    let seg = Seg { rib_id, dir: SegmentDir::Fow };
    let r = seg.to_ref(&index);
    let flipped = r.flip();
    assert_eq!(flipped.rib_id(), rib_id);
    assert_eq!(flipped.dir, SegmentDir::Rev);
    assert!(std::ptr::eq(flipped.index, &index));
    assert_eq!(flipped.from_pt(), dest);
    assert_eq!(flipped.to_pt(), origin);
    assert_eq!(flipped.seg(), seg.flip());
    let back = flipped.flip();
    assert_eq!(back.seg(), seg);
    assert!(std::ptr::eq(back.index, &index));
    assert_eq!(back.from_pt(), origin);
}

#[test]
fn reference_gives_its_seg_and_rib_back() {
    let (index, _, _, rib_id) = unit_edge();
    let seg = Seg { rib_id, dir: SegmentDir::Rev };
    let r = seg.to_ref(&index);
    assert_eq!(r.rib_id(), rib_id);
    assert_eq!(r.seg(), seg);
    assert_eq!(r.un_ref(), seg);
    let copy = r;
    assert_eq!(copy.clone().seg(), r.seg());
}

#[test]
fn make_ref_and_un_ref_round_trip() {
    let (index, origin, _, rib_id) = unit_edge();
    for dir in [SegmentDir::Fow, SegmentDir::Rev] {
        let seg = Seg { rib_id, dir };
        let r: SegRef<'_, Coord> = seg.make_ref(&index);
        assert_eq!(r.rib_id, rib_id);
        assert_eq!(r.dir, dir);
        assert!(std::ptr::eq(r.index, &index));
        assert_eq!(r.un_ref(), seg);
    }
    let r = Seg { rib_id, dir: SegmentDir::Fow }.make_ref(&index);
    assert_eq!(r.from_pt(), origin);
}

#[test]
fn dangling_seg_can_be_bound_and_told_apart() {
    let (index, _, _, _) = unit_edge();
    let seg = Seg { rib_id: RibId(1000), dir: SegmentDir::Fow };
    let r = seg.to_ref(&index);
    assert!(!r.index.has_rib(r.rib_id()));
    assert_eq!(r.un_ref(), seg);
}

#[test]
fn write_token_gives_back_the_rib_and_the_index() {
    let (mut index, origin, dest, rib_id) = unit_edge();
    let seg = Seg { rib_id, dir: SegmentDir::Rev };
    let token = seg.make_mut_ref(&mut index);
    assert_eq!(token.rib_id, rib_id);
    assert_eq!(token.dir, SegmentDir::Rev);
    assert_eq!(token.un_ref(), rib_id);
    // The token is gone, so the index can be read again, and is as it was.
    assert_eq!(index.rib(rib_id), Some(Rib(origin, dest)));
    let r = seg.make_ref(&index);
    assert_eq!(r.from(), [1.0, 0.0, 0.0]);
}

#[test]
fn write_token_carries_the_right_to_change_the_index() {
    let (mut index, origin, _, rib_id) = unit_edge();
    let seg = Seg { rib_id, dir: SegmentDir::Fow };
    let token = seg.make_mut_ref(&mut index);
    let apex = token.index.add_point([0.0, 3.0, 0.0]);
    assert!(token.index.insert_rib(RibId(43), Rib(origin, apex)));
    assert_eq!(token.un_ref(), rib_id);
    assert_eq!(index.get_point(apex), [0.0, 3.0, 0.0]);
    assert_eq!(index.rib(RibId(43)), Some(Rib(origin, apex)));
}

#[test]
fn growth_of_the_index_keeps_earlier_readings() {
    let (mut index, origin, dest, rib_id) = unit_edge();
    let seg = Seg { rib_id, dir: SegmentDir::Fow };
    let before = (seg.to_ref(&index).from(), seg.to_ref(&index).to());
    let apex = index.add_point([9.0, 9.0, 9.0]);
    assert!(index.insert_rib(RibId(77), Rib(dest, apex)));
    assert!(!index.insert_rib(rib_id, Rib(dest, apex)));
    let r = seg.to_ref(&index);
    assert_eq!(r.from_pt(), origin);
    assert_eq!(r.to_pt(), dest);
    assert_eq!((r.from(), r.to()), before);
}

#[test]
fn two_segs_traverse_one_rib_in_both_directions() {
    let (index, origin, dest, rib_id) = unit_edge();
    let there = Seg { rib_id, dir: SegmentDir::Fow }.to_ref(&index);
    let back = Seg { rib_id, dir: SegmentDir::Rev }.to_ref(&index);
    assert_eq!(there.to_pt(), back.from_pt());
    assert_eq!(there.from_pt(), back.to_pt());
    assert_eq!(there.rib_id(), back.rib_id());
    assert_eq!((there.from_pt(), there.to_pt()), (origin, dest));
}

#[test]
fn segment_between_two_points_needs_no_rib() {
    let mut index: GeoIndex<Coord> = GeoIndex::new();
    let a = index.add_point([0.0, 0.0, 0.0]);
    let b = index.add_point([2.0, 0.0, 0.0]);
    let s = SegmentRef::new(a, b, &index);
    assert_eq!(s.from_pt(), a);
    assert_eq!(s.to_pt(), b);
    assert_eq!(s.from(), [0.0, 0.0, 0.0]);
    assert_eq!(s.to(), [2.0, 0.0, 0.0]);
    assert!(std::ptr::eq(s.index(), &index));
}

#[test]
fn segment_from_a_point_to_itself_is_refused() {
    let mut index: GeoIndex<Coord> = GeoIndex::new();
    let a = index.add_point([0.0, 0.0, 0.0]);
    let b = index.add_point([2.0, 0.0, 0.0]);
    assert!(SegmentRef::try_new(a, a, &index).is_none());
    assert!(SegmentRef::try_new(b, b, &index).is_none());
    assert!(SegmentRef::try_new(PtId(50), PtId(50), &index).is_none());
}

#[test]
fn segment_between_different_points_is_made() {
    let mut index: GeoIndex<Coord> = GeoIndex::new();
    let a = index.add_point([0.5, -1.0, 0.0]);
    let b = index.add_point([0.5, 1.0, 0.0]);
    let s = match SegmentRef::try_new(a, b, &index) {
        Some(s) => s,
        None => panic!("two different points make a segment"),
    };
    assert_eq!(s.from_pt(), a);
    assert_eq!(s.to_pt(), b);
    assert_eq!(s.from(), [0.5, -1.0, 0.0]);
    assert_eq!(s.to(), [0.5, 1.0, 0.0]);
}

#[test]
fn segment_knows_its_two_points_and_no_other() {
    let mut index: GeoIndex<Coord> = GeoIndex::new();
    let a = index.add_point([0.0, 0.0, 0.0]);
    let b = index.add_point([2.0, 0.0, 0.0]);
    let c = index.add_point([1.0, 1.0, 0.0]);
    let s = SegmentRef::new(a, b, &index);
    assert!(s.has(a));
    assert!(s.has(b));
    assert!(!s.has(c));
}

#[test]
fn segment_flip_swaps_the_ends_and_twice_restores_them() {
    let mut index: GeoIndex<Coord> = GeoIndex::new();
    let a = index.add_point([0.0, 0.0, 0.0]);
    let b = index.add_point([2.0, 0.0, 0.0]);
    let s = SegmentRef::new(a, b, &index);
    let flipped = s.flip();
    assert_eq!(flipped.from_pt(), b);
    assert_eq!(flipped.to_pt(), a);
    assert_eq!(flipped.from(), [2.0, 0.0, 0.0]);
    assert!(std::ptr::eq(flipped.index(), &index));
    let back = flipped.flip();
    assert_eq!(back.from_pt(), a);
    assert_eq!(back.to_pt(), b);
    assert!(std::ptr::eq(back.index(), &index));
    let copy = s;
    assert_eq!(copy.clone().from_pt(), s.from_pt());
}

#[test]
fn segment_may_name_points_that_are_not_stored() {
    let index: GeoIndex<Coord> = GeoIndex::new();
    let s = SegmentRef::new(PtId(3), PtId(4), &index);
    assert_eq!(s.from_pt(), PtId(3));
    assert_eq!(s.to_pt(), PtId(4));
    assert!(!s.index().has_point(s.from_pt()));
}
