//! Directed traversals over the shared, undirected edges of a boundary
//! representation.
//!
//! An edge (a [`Rib`]) is stored once, between two points. A [`Seg`] reads it
//! forward or in reverse, and the contextual references ([`SegRef`],
//! [`SegmentRef`], [`SegRefMut`]) bind such a reading to a borrowed
//! [`GeoIndex`], from which every lookup is answered afresh.
//!
//! The index is generic in the coordinate type it stores: the topology here
//! never computes with a coordinate, it only hands it out.

pub mod geo_object;
pub mod ident;
pub mod index;
pub mod rib;
pub mod seg;
pub mod segment_ref;
pub mod vertex_index;

pub use geo_object::{GeoObject, UnRef};
pub use index::{GeoIndex, GeoIndexView};
pub use rib::{Rib, RibId, RibMap};
pub use seg::{Seg, SegId, SegRef, SegRefMut, SegmentDir};
pub use segment_ref::SegmentRef;
pub use vertex_index::{PtId, VertexIndex};
