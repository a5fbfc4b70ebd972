//! Triangulation by ear clipping.

use vstd::prelude::*;

pub mod batch;
pub mod face;
pub mod group;
pub mod laws;
pub mod model;
pub mod object;
pub mod query;
pub mod scene;
pub mod tracking;

pub use batch::{triangulate, BatchState, BatchTriangulator};
pub use face::{FaceState, FaceTriangulator, Stage};
pub use group::{GroupState, GroupTriangulator};
pub use object::{ObjectState, ObjectTriangulator};
pub use query::{Query, Step};
pub use scene::{ObjTriangulator, SceneState};

verus! {

/// Errors related to triangulation by ear clipping.
#[derive(Debug, Clone, Copy, PartialEq, Eq)]
pub enum Error {
    /// The face has fewer than three vertices.
    TooFewVertices,
    /// No vertex of the remaining polygon can be cut off.
    NoEarFound,
    /// No face of the group has three vertices or more.
    NoValidFacesFound,
    /// No group of the object has a face to start with.
    NoValidGroupsFound,
    /// No object of the scene has a face to start with.
    NoValidObjectsFound,
}

} // verus!
