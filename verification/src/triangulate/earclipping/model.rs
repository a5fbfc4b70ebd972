//! What ear clipping computes, stated on a geometry that answers every
//! question at once.

use super::query::{after, before, corner, Query};
use crate::obj::Vertex;
use crate::triangulate::Tri;
use vstd::prelude::*;

verus! {

/// The geometry of one face: the answer to each question about it.
pub type Geometry = spec_fn(Query) -> bool;

/// The geometry of every face, by its vertex loop.
pub type Projection = spec_fn(Seq<Vertex>) -> Geometry;

/// Whether the corner at `c` winds against the face.
pub open spec fn reflex_at(polygon: Seq<Vertex>, winding: bool, geo: Geometry, c: int) -> bool {
    geo(Query::Winding { tri: corner(polygon, c) }) != winding
}

/// Whether `p` falls on one of the three corners of `tri`.
pub open spec fn on_corner(geo: Geometry, tri: Tri, p: Vertex) -> bool {
    ||| geo(Query::Coincides { p: tri[0], q: p })
    ||| geo(Query::Coincides { p: tri[1], q: p })
    ||| geo(Query::Coincides { p: tri[2], q: p })
}

/// Whether the earlier candidate `c` keeps the corner at `e` from being cut
/// off: it winds against the face, is no neighbour of `e`, and lies within
/// the corner.
pub open spec fn blocked_by_reflex(
    polygon: Seq<Vertex>,
    winding: bool,
    geo: Geometry,
    e: int,
    c: int,
) -> bool {
    &&& reflex_at(polygon, winding, geo, c)
    &&& c != before(e, polygon.len() as int)
    &&& c != after(e, polygon.len() as int)
    &&& geo(Query::Contains { tri: corner(polygon, e), p: polygon[c] })
}

/// Whether the later vertex `j` keeps the corner at `e` from being cut off:
/// it falls on none of the three corners and lies within the triangle.
pub open spec fn blocked_by_later(polygon: Seq<Vertex>, geo: Geometry, e: int, j: int) -> bool {
    &&& !on_corner(geo, corner(polygon, e), polygon[j])
    &&& geo(Query::Contains { tri: corner(polygon, e), p: polygon[j] })
}

/// Whether the search accepts the corner at `e` as an ear: it winds as the
/// face does, and neither a reflex candidate before it nor a vertex after it
/// is in its way.
pub open spec fn is_ear(polygon: Seq<Vertex>, winding: bool, geo: Geometry, e: int) -> bool {
    &&& !reflex_at(polygon, winding, geo, e)
    &&& forall|c: int| 0 <= c < e ==> !#[trigger] blocked_by_reflex(polygon, winding, geo, e, c)
    &&& forall|j: int| e < j < polygon.len() ==> !#[trigger] blocked_by_later(polygon, geo, e, j)
}

/// The first ear at or after `from`. The last vertex of the loop is never
/// tried.
pub open spec fn first_ear(polygon: Seq<Vertex>, winding: bool, geo: Geometry, from: int) -> Option<
    int,
>
    decreases polygon.len() - from,
{
    if from < 0 || from >= polygon.len() - 1 {
        None
    } else if is_ear(polygon, winding, geo, from) {
        Some(from)
    } else {
        first_ear(polygon, winding, geo, from + 1)
    }
}

/// What [`first_ear`] finds is an ear among the candidates from `from` on, and
/// no candidate between `from` and it is one; where it finds none, there is
/// none.
pub proof fn first_ear_is_first(polygon: Seq<Vertex>, winding: bool, geo: Geometry, from: int)
    requires
        0 <= from,
    ensures
        match first_ear(polygon, winding, geo, from) {
            Some(e) => {
                &&& from <= e < polygon.len() - 1
                &&& is_ear(polygon, winding, geo, e)
                &&& forall|c: int| from <= c < e ==> !is_ear(polygon, winding, geo, c)
            },
            None => forall|c: int| from <= c < polygon.len() - 1 ==> !is_ear(polygon, winding, geo, c),
        },
    decreases polygon.len() - from,
{
    if from < polygon.len() - 1 && !is_ear(polygon, winding, geo, from) {
        first_ear_is_first(polygon, winding, geo, from + 1);
    }
}

/// The triangles that clipping cuts from the polygon, in order. Three
/// vertices, left of a longer loop, are the last triangle: the corner at the
/// first of them. Where a search finds no ear the clipping ends with what it
/// has.
pub open spec fn clip(polygon: Seq<Vertex>, winding: bool, geo: Geometry) -> Seq<Tri>
    decreases polygon.len(),
{
    if polygon.len() < 3 {
        Seq::empty()
    } else if polygon.len() == 3 {
        seq![corner(polygon, 0)]
    } else {
        proof {
            first_ear_is_first(polygon, winding, geo, 0);
        }
        match first_ear(polygon, winding, geo, 0) {
            Some(e) => seq![corner(polygon, e)] + clip(polygon.remove(e), winding, geo),
            None => Seq::empty(),
        }
    }
}

/// Whether every search of the clipping finds an ear.
pub open spec fn clips_fully(polygon: Seq<Vertex>, winding: bool, geo: Geometry) -> bool
    decreases polygon.len(),
{
    if polygon.len() <= 3 {
        true
    } else {
        proof {
            first_ear_is_first(polygon, winding, geo, 0);
        }
        match first_ear(polygon, winding, geo, 0) {
            Some(e) => clips_fully(polygon.remove(e), winding, geo),
            None => false,
        }
    }
}

/// The extreme vertex among the first `upto`: the first vertex, unless a later
/// one precedes the extreme vertex of those before it.
pub open spec fn extreme(polygon: Seq<Vertex>, geo: Geometry, upto: int) -> int
    decreases upto,
{
    if upto <= 1 {
        0
    } else {
        let best = extreme(polygon, geo, upto - 1);
        if geo(Query::Precedes { p: polygon[upto - 1], q: polygon[best] }) {
            upto - 1
        } else {
            best
        }
    }
}

/// The winding of the face: that of the corner at its extreme vertex.
pub open spec fn orientation(polygon: Seq<Vertex>, geo: Geometry) -> bool {
    geo(Query::Winding { tri: corner(polygon, extreme(polygon, geo, polygon.len() as int)) })
}

/// The triangles of a face. A face of three vertices is returned as it
/// stands, and nothing is asked about it; a face of fewer has none.
pub open spec fn face_triangles(polygon: Seq<Vertex>, geo: Geometry) -> Seq<Tri> {
    if polygon.len() < 3 {
        Seq::empty()
    } else if polygon.len() == 3 {
        seq![corner(polygon, 1)]
    } else {
        clip(polygon, orientation(polygon, geo), geo)
    }
}

/// Whether the triangulation of a face gets to its end.
pub open spec fn face_complete(polygon: Seq<Vertex>, geo: Geometry) -> bool {
    polygon.len() <= 3 || clips_fully(polygon, orientation(polygon, geo), geo)
}

/// The reflex candidates before `e`, in order: what a search has recorded
/// when it turns to candidate `e`.
pub open spec fn reflex_before(polygon: Seq<Vertex>, winding: bool, geo: Geometry, e: int) -> Seq<
    usize,
>
    decreases e,
{
    if e <= 0 {
        Seq::empty()
    } else if reflex_at(polygon, winding, geo, e - 1) {
        reflex_before(polygon, winding, geo, e - 1).push((e - 1) as usize)
    } else {
        reflex_before(polygon, winding, geo, e - 1)
    }
}

} // verus!
