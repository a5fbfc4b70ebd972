//! What a triangulator asks of the geometry, and what it hands back.

use crate::obj::Vertex;
use crate::triangulate::Tri;
use vstd::prelude::*;

verus! {

/// A question about the face that is being triangulated, as it lies in its
/// best-fit plane. Each is answered by yes or no.
#[derive(Debug, Clone, Copy, PartialEq, Eq)]
pub enum Query {
    /// Does `p` lie further left than `q`, or as far left and lower?
    Precedes { p: Vertex, q: Vertex },
    /// Does the triangle run counter-clockwise?
    Winding { tri: Tri },
    /// Do `p` and `q` fall on the same point?
    Coincides { p: Vertex, q: Vertex },
    /// Does `p` lie within the triangle?
    Contains { tri: Tri, p: Vertex },
}

/// What a triangulator does next.
#[derive(Debug, Clone, Copy, PartialEq, Eq)]
pub enum Step {
    /// A new face begins, and questions about it will follow: its vertex loop
    /// is the triangulator's `polygon()`. Whatever is answered is ignored.
    Project,
    /// The triangulator needs the answer to this question, and takes it with
    /// the next call.
    Ask(Query),
    /// The next triangle. Whatever is answered is ignored.
    Emit(Tri),
    /// There are no more triangles.
    Done,
}

/// The index before `e` in a loop of `len` vertices.
pub open spec fn before(e: int, len: int) -> int {
    if e > 0 {
        e - 1
    } else {
        len - 1
    }
}

/// The index after `e` in a loop of `len` vertices.
pub open spec fn after(e: int, len: int) -> int {
    if e < len - 1 {
        e + 1
    } else {
        0
    }
}

/// The triangle that the vertex at `e` forms with its two neighbours in the
/// loop.
pub open spec fn corner(polygon: Seq<Vertex>, e: int) -> Tri {
    [
        polygon[before(e, polygon.len() as int)],
        polygon[e],
        polygon[after(e, polygon.len() as int)],
    ]
}

/// The triangle at `e`, computed.
pub fn corner_at(polygon: &Vec<Vertex>, e: usize) -> (tri: Tri)
    requires
        e < polygon.len(),
    ensures
        tri == corner(polygon@, e as int),
{
    let max_index: usize = polygon.len() - 1;
    let prev: usize = if e > 0 { e - 1 } else { max_index };
    let next: usize = if e < max_index { e + 1 } else { 0 };
    [polygon[prev], polygon[e], polygon[next]]
}

} // verus!
