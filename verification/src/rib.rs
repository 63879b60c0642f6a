//! Ribs: the undirected edges, and the map that stores them by identifier.

use crate::ident::{fresh_v4_bits, is_random_v4};
use crate::vertex_index::PtId;
use std::collections::BTreeMap;
use vstd::prelude::*;

verus! {

/// Handle of a stored rib: 128 bits, ordered so that it can key a map.
#[derive(Debug, PartialEq, Eq, PartialOrd, Ord, Hash, Clone, Copy, Structural)]
pub struct RibId(pub u128);

impl Default for RibId {
    /// A fresh random identifier.
    fn default() -> (r: Self)
        ensures
            is_random_v4(r.0),
    {
        RibId(fresh_v4_bits())
    }
}

/// An edge between two points: origin first, destination second. The order is
/// fixed when the rib is made and is what "forward" means for it.
#[derive(Debug, PartialEq, Eq, Clone, Copy, Structural)]
pub struct Rib(pub PtId, pub PtId);

impl Rib {
    /// A rib joins two different points.
    pub open spec fn is_proper(self) -> bool {
        self.0 != self.1
    }
}

/// Ribs by identifier, in identifier order.
pub struct RibMap {
    map: BTreeMap<u128, Rib>,
}

impl View for RibMap {
    type V = Map<RibId, Rib>;

    closed spec fn view(&self) -> Map<RibId, Rib> {
        Map::new(|id: RibId| self.map@.contains_key(id.0), |id: RibId| self.map@[id.0])
    }
}

impl RibMap {
    pub fn new() -> (r: Self)
        ensures
            r@ == Map::<RibId, Rib>::empty(),
    {
        let r = RibMap { map: BTreeMap::new() };
        assert(r@ =~= Map::<RibId, Rib>::empty());
        r
    }

    /// Stores `rib` under `id` and returns what was stored there before.
    pub fn insert(&mut self, id: RibId, rib: Rib) -> (prev: Option<Rib>)
        ensures
            final(self)@ == old(self)@.insert(id, rib),
            prev == (if old(self)@.contains_key(id) {
                Some(old(self)@[id])
            } else {
                None
            }),
    {
        broadcast use vstd::laws_cmp::group_laws_cmp;

        let prev = self.map.insert(id.0, rib);
        assert(self@ =~= old(self)@.insert(id, rib));
        prev
    }

    pub fn contains_key(&self, id: RibId) -> (r: bool)
        ensures
            r == self@.contains_key(id),
    {
        broadcast use vstd::laws_cmp::group_laws_cmp;

        self.map.contains_key(&id.0)
    }

    /// The rib stored under `id`, if there is one.
    pub fn get(&self, id: RibId) -> (r: Option<Rib>)
        ensures
            r == (if self@.contains_key(id) {
                Some(self@[id])
            } else {
                None
            }),
    {
        broadcast use vstd::laws_cmp::group_laws_cmp;

        match self.map.get(&id.0) {
            Some(rib) => Some(*rib),
            None => None,
        }
    }
}

} // verus!
