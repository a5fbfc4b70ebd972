//! Everything related to triangulation.

use vstd::prelude::*;

pub mod earclipping;

verus! {

/// A triangle: three vertex references, in the order of the face they were
/// cut from.
pub type Tri = [crate::obj::Vertex; 3];

/// The triangles of one polygon, in the order in which they were cut off.
pub type Triangulation = Vec<Tri>;

} // verus!
