use prismatic::{RibId, SegId};
use uuid::{Uuid, Variant};

const FIXED_BITS: u128 = 0x0000_0000_0000_f000_c000_0000_0000_0000;
const V4_PATTERN: u128 = 0x0000_0000_0000_4000_8000_0000_0000_0000;

#[test]
fn fresh_seg_id_is_a_version_4_identifier() {
    let id = SegId::default();
    assert_eq!(id.0 & FIXED_BITS, V4_PATTERN);
    let uuid = Uuid::from_u128(id.0);
    assert_eq!(uuid.get_version_num(), 4);
    assert_eq!(uuid.get_variant(), Variant::RFC4122);
}

#[test]
fn fresh_rib_id_is_a_version_4_identifier() {
    let id = RibId::default();
    assert_eq!(id.0 & FIXED_BITS, V4_PATTERN);
    let uuid = Uuid::from_u128(id.0);
    assert_eq!(uuid.get_version_num(), 4);
    assert_eq!(uuid.get_variant(), Variant::RFC4122);
}

#[test]
fn fresh_identifiers_differ() {
    let a = SegId::default();
    let b = SegId::default();
    let c = SegId::default();
    assert_ne!(a, b);
    assert_ne!(b, c);
    assert_ne!(a, c);
    assert_ne!(RibId::default(), RibId::default());
}

#[test]
fn identifiers_are_equal_by_their_bits() {
    assert_eq!(SegId(5), SegId(5));
    assert_ne!(SegId(5), SegId(6));
    assert_eq!(RibId(5), RibId(5));
    assert_ne!(RibId(5), RibId(6));
    let copy = SegId(9);
    let again = copy;
    assert_eq!(copy, again);
}

#[test]
fn rib_ids_are_ordered_by_their_bits() {
    assert!(RibId(1) < RibId(2));
    assert!(RibId(u128::MAX) > RibId(0));
    let mut ids = vec![RibId(30), RibId(10), RibId(20)];
    ids.sort();
    assert_eq!(ids, vec![RibId(10), RibId(20), RibId(30)]);
}
