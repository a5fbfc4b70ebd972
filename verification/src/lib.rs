//! A model of polygon meshes in memory, and the triangulation of their faces
//! by ear clipping.
//!
//! Everything in this crate works on indices and bit patterns. Coordinates are
//! never interpreted here: the geometric predicates that ear clipping depends
//! on are put to the caller as [`triangulate::earclipping::Query`] values, one
//! at a time, and the triangulators go on from each answer.

pub mod obj;
pub mod triangulate;
