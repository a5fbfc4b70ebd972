//! What holds of ear clipping and of the face triangulator, whatever the
//! geometry.

use super::face::FaceState;
use super::model::{clip, clips_fully, face_complete, face_triangles, first_ear_is_first, Geometry};
use super::query::{corner, Query, Step};
use super::tracking::{carries_on, fate, fresh_tracks, next_carries_on, tracks};
use crate::obj::Vertex;
use crate::triangulate::Tri;
use vstd::prelude::*;

verus! {

/// From a state that answers from `geo` lead to, the triangulator hands out
/// the triangles that are still to come, and no others.
pub proof fn drive_yields_fate(s: FaceState, geo: Geometry, answer: bool)
    requires
        s.wf(),
        tracks(s, geo, answer),
    ensures
        s.drive(geo, answer) == fate(s, geo).0,
    decreases s.polygon.len(), s.stage_rank(), s.within(),
{
    s.next_makes_progress(answer);
    next_carries_on(s, geo, answer);
    let (then, step) = s.next(answer);
    match step {
        Step::Done => {},
        Step::Project => drive_yields_fate(then, geo, answer),
        Step::Ask(q) => drive_yields_fate(then, geo, geo(q)),
        Step::Emit(tri) => drive_yields_fate(then, geo, answer),
    }
}

/// A face triangulator whose questions are answered from `geo` hands out the
/// triangles of the face under `geo`, in order, and then ends. What it is
/// given with the first call makes no difference.
pub proof fn face_triangulator_yields_triangles(polygon: Seq<Vertex>, geo: Geometry, answer: bool)
    requires
        polygon.len() <= usize::MAX,
    ensures
        FaceState::fresh(polygon).drive(geo, answer) == face_triangles(polygon, geo),
{
    fresh_tracks(polygon, geo, answer);
    drive_yields_fate(FaceState::fresh(polygon), geo, answer);
}

/// A face of three vertices is its own triangulation, whatever the geometry.
pub proof fn triangle_is_its_own_triangulation(polygon: Seq<Vertex>, geo: Geometry)
    requires
        polygon.len() == 3,
    ensures
        face_triangles(polygon, geo) == seq![[polygon[0], polygon[1], polygon[2]]],
        face_complete(polygon, geo),
{
}

/// Clipping a polygon of `n` vertices, three or more, gives `n - 2` triangles
/// if every search finds an ear, and fewer if one does not.
pub proof fn clipping_counts(polygon: Seq<Vertex>, winding: bool, geo: Geometry)
    requires
        polygon.len() >= 3,
    ensures
        clips_fully(polygon, winding, geo) ==> clip(polygon, winding, geo).len() == polygon.len()
            - 2,
        !clips_fully(polygon, winding, geo) ==> clip(polygon, winding, geo).len() < polygon.len()
            - 2,
    decreases polygon.len(),
{
    if polygon.len() > 3 {
        first_ear_is_first(polygon, winding, geo, 0);
        match super::model::first_ear(polygon, winding, geo, 0) {
            Some(e) => clipping_counts(polygon.remove(e), winding, geo),
            None => {},
        }
    }
}

/// A face of `n` vertices, three or more, has `n - 2` triangles if its
/// triangulation gets to its end, and fewer if it does not.
pub proof fn face_counts(polygon: Seq<Vertex>, geo: Geometry)
    requires
        polygon.len() >= 3,
    ensures
        face_complete(polygon, geo) ==> face_triangles(polygon, geo).len() == polygon.len() - 2,
        !face_complete(polygon, geo) ==> face_triangles(polygon, geo).len() < polygon.len() - 2,
{
    clipping_counts(polygon, false, geo);
    clipping_counts(polygon, super::model::orientation(polygon, geo), geo);
}

/// Every triangle that clipping cuts off as an ear winds as the face does.
/// The triangle that three remaining vertices form is handed out without a
/// question: it is the last of a polygon of `n` vertices if it comes at all,
/// the one at `n - 3`.
pub proof fn ears_wind_as_the_face(polygon: Seq<Vertex>, winding: bool, geo: Geometry, i: int)
    requires
        0 <= i < clip(polygon, winding, geo).len(),
        i < polygon.len() - 3,
    ensures
        geo(Query::Winding { tri: clip(polygon, winding, geo)[i] }) == winding,
    decreases polygon.len(),
{
    first_ear_is_first(polygon, winding, geo, 0);
    match super::model::first_ear(polygon, winding, geo, 0) {
        Some(e) => {
            if i > 0 {
                ears_wind_as_the_face(polygon.remove(e), winding, geo, i - 1);
            }
        },
        None => {},
    }
}

/// Every corner of every triangle that clipping cuts off is a vertex of the
/// polygon.
pub proof fn triangles_keep_to_the_polygon(
    polygon: Seq<Vertex>,
    winding: bool,
    geo: Geometry,
    i: int,
    k: int,
)
    requires
        0 <= i < clip(polygon, winding, geo).len(),
        0 <= k < 3,
    ensures
        polygon.contains(clip(polygon, winding, geo)[i][k]),
    decreases polygon.len(),
{
    if polygon.len() > 3 {
        first_ear_is_first(polygon, winding, geo, 0);
        match super::model::first_ear(polygon, winding, geo, 0) {
            Some(e) => {
                if i > 0 {
                    triangles_keep_to_the_polygon(polygon.remove(e), winding, geo, i - 1, k);
                }
            },
            None => {},
        }
    }
}

/// Every triangle that is cut off a face as an ear winds as the face does:
/// every triangle of a face of `n` vertices, four or more, but the one at
/// `n - 3`, which three remaining vertices form.
pub proof fn ears_of_a_face_wind_as_the_face(polygon: Seq<Vertex>, geo: Geometry, i: int)
    requires
        polygon.len() >= 4,
        0 <= i < face_triangles(polygon, geo).len(),
        i < polygon.len() - 3,
    ensures
        geo(Query::Winding { tri: face_triangles(polygon, geo)[i] }) == super::model::orientation(
            polygon,
            geo,
        ),
{
    ears_wind_as_the_face(polygon, super::model::orientation(polygon, geo), geo, i);
}

/// Whether the triangle is made of the vertices at the places `x`, `y` and
/// `z` of the polygon, three different places.
pub open spec fn picks(polygon: Seq<Vertex>, tri: Tri, x: int, y: int, z: int) -> bool {
    &&& 0 <= x < polygon.len() && 0 <= y < polygon.len() && 0 <= z < polygon.len()
    &&& x != y && y != z && x != z
    &&& tri == [polygon[x], polygon[y], polygon[z]]
}

/// Where a place of a polygon lies once the vertex at `e` is put back in.
pub open spec fn put_back(place: int, e: int) -> int {
    if place < e {
        place
    } else {
        place + 1
    }
}

/// Every triangle that clipping cuts off is made of whole vertices of the
/// polygon, taken from three different places of the loop.
pub proof fn triangles_take_three_places(
    polygon: Seq<Vertex>,
    winding: bool,
    geo: Geometry,
    i: int,
)
    requires
        0 <= i < clip(polygon, winding, geo).len(),
    ensures
        exists|x: int, y: int, z: int|
            #[trigger] picks(polygon, clip(polygon, winding, geo)[i], x, y, z),
    decreases polygon.len(),
{
    let n = polygon.len() as int;
    let tri = clip(polygon, winding, geo)[i];
    if n == 3 {
        assert(picks(polygon, tri, 2, 0, 1));
    } else {
        first_ear_is_first(polygon, winding, geo, 0);
        match super::model::first_ear(polygon, winding, geo, 0) {
            Some(e) => {
                if i > 0 {
                    let rest = polygon.remove(e);
                    triangles_take_three_places(rest, winding, geo, i - 1);
                    let (x, y, z) = choose|x: int, y: int, z: int|
                        #[trigger] picks(rest, clip(rest, winding, geo)[i - 1], x, y, z);
                    assert(picks(polygon, tri, put_back(x, e), put_back(y, e), put_back(z, e)));
                } else {
                    assert(picks(
                        polygon,
                        tri,
                        super::query::before(e, n),
                        e,
                        super::query::after(e, n),
                    ));
                }
            },
            None => {},
        }
    }
}

/// Whether the vertex is a corner of one of the triangles.
pub open spec fn is_a_corner(triangles: Seq<Tri>, v: Vertex) -> bool {
    exists|i: int, k: int| corner_is(triangles, v, i, k)
}

/// Whether the vertex is corner `k` of triangle `i`.
pub open spec fn corner_is(triangles: Seq<Tri>, v: Vertex, i: int, k: int) -> bool {
    0 <= i < triangles.len() && 0 <= k < 3 && triangles[i][k] == v
}

/// Where every search finds an ear, every vertex of the polygon is a corner
/// of one of the triangles.
pub proof fn every_vertex_is_a_corner(polygon: Seq<Vertex>, winding: bool, geo: Geometry, m: int)
    requires
        polygon.len() >= 3,
        clips_fully(polygon, winding, geo),
        0 <= m < polygon.len(),
    ensures
        is_a_corner(clip(polygon, winding, geo), polygon[m]),
    decreases polygon.len(),
{
    let triangles = clip(polygon, winding, geo);
    if polygon.len() == 3 {
        assert(corner_is(triangles, polygon[m], 0, if m == 2 { 0 } else { m + 1 }));
    } else {
        first_ear_is_first(polygon, winding, geo, 0);
        let e = super::model::first_ear(polygon, winding, geo, 0)->0;
        if m == e {
            assert(corner_is(triangles, polygon[m], 0, 1));
        } else {
            let rest = polygon.remove(e);
            let place = if m < e { m } else { m - 1 };
            every_vertex_is_a_corner(rest, winding, geo, place);
            let (i, k) = choose|i: int, k: int|
                corner_is(clip(rest, winding, geo), rest[place], i, k);
            assert(corner_is(triangles, polygon[m], i + 1, k));
        }
    }
}

/// Every triangle of a face is made of whole vertices of the face, taken
/// from three different places of its loop.
pub proof fn triangles_of_a_face_take_three_places(polygon: Seq<Vertex>, geo: Geometry, i: int)
    requires
        0 <= i < face_triangles(polygon, geo).len(),
    ensures
        exists|x: int, y: int, z: int|
            #[trigger] picks(polygon, face_triangles(polygon, geo)[i], x, y, z),
{
    if polygon.len() == 3 {
        assert(picks(polygon, face_triangles(polygon, geo)[i], 0, 1, 2));
    } else {
        triangles_take_three_places(polygon, super::model::orientation(polygon, geo), geo, i);
    }
}

/// Where the triangulation of a face gets to its end, every vertex of the
/// face is a corner of one of its triangles.
pub proof fn every_vertex_of_a_face_is_a_corner(polygon: Seq<Vertex>, geo: Geometry, m: int)
    requires
        polygon.len() >= 3,
        face_complete(polygon, geo),
        0 <= m < polygon.len(),
    ensures
        is_a_corner(face_triangles(polygon, geo), polygon[m]),
{
    if polygon.len() == 3 {
        assert(corner_is(face_triangles(polygon, geo), polygon[m], 0, m));
    } else {
        every_vertex_is_a_corner(polygon, super::model::orientation(polygon, geo), geo, m);
    }
}

/// The winding of the face is set once, by the answer about the corner at
/// its extreme vertex: no other call changes it.
pub proof fn winding_is_fixed(s: FaceState, answer: bool)
    requires
        !(s.stage is Orient),
    ensures
        s.next(answer).0.winding == s.winding,
{
}

/// A call that hands out a triangle takes one vertex from the polygon, and
/// one from the number of triangles that can still come.
pub proof fn each_triangle_takes_a_vertex(s: FaceState, answer: bool)
    requires
        s.wf(),
        s.next(answer).1 is Emit,
    ensures
        s.next(answer).0.polygon.len() == s.polygon.len() - 1,
        s.next(answer).0.remaining() == s.remaining() - 1,
{
    match s.stage {
        super::face::Stage::Turn { ear } => {
            s.unrelated_slot_is_first(ear as int, 0);
        },
        super::face::Stage::Reflex { ear, slot } => {
            s.unrelated_slot_is_first(ear as int, slot + 1);
        },
        _ => {},
    }
}

/// Whether every vertex that the question names is one of the polygon.
pub open spec fn keeps_to(query: Query, polygon: Seq<Vertex>) -> bool {
    match query {
        Query::Precedes { p, q } => polygon.contains(p) && polygon.contains(q),
        Query::Winding { tri } => within(tri, polygon),
        Query::Coincides { p, q } => polygon.contains(p) && polygon.contains(q),
        Query::Contains { tri, p } => within(tri, polygon) && polygon.contains(p),
    }
}

/// Whether every corner of the triangle is a vertex of the polygon.
pub open spec fn within(tri: Tri, polygon: Seq<Vertex>) -> bool {
    polygon.contains(tri[0]) && polygon.contains(tri[1]) && polygon.contains(tri[2])
}

/// The corners of a corner of the polygon are vertices of the polygon.
pub proof fn corner_is_within(polygon: Seq<Vertex>, e: int)
    requires
        0 <= e < polygon.len(),
    ensures
        within(corner(polygon, e), polygon),
{
}

/// A face triangulator names no vertex but those of its polygon, neither in
/// a question nor in a triangle: whoever holds the coordinates of the face
/// can answer and can draw.
pub proof fn steps_keep_to_the_polygon(s: FaceState, answer: bool)
    requires
        s.wf(),
    ensures
        match s.next(answer).1 {
            Step::Ask(query) => keeps_to(query, s.polygon),
            Step::Emit(tri) => within(tri, s.polygon),
            _ => true,
        },
{
    match s.stage {
        super::face::Stage::Turn { ear } => {
            s.unrelated_slot_is_first(ear as int, 0);
        },
        super::face::Stage::Reflex { ear, slot } => {
            s.unrelated_slot_is_first(ear as int, slot + 1);
        },
        _ => {},
    }
}

} // verus!
