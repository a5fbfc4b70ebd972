//! How a face triangulator that is answered from one geometry follows the
//! clipping that the geometry determines.

use super::face::{all_below, FaceState, Stage};
use super::model::{
    blocked_by_later, blocked_by_reflex, clip, clips_fully, extreme, face_complete,
    face_triangles, first_ear, Projection,
    first_ear_is_first, is_ear, on_corner, orientation, reflex_at, reflex_before, Geometry,
};
use super::query::{after, before, corner, Query, Step};
use crate::obj::Vertex;
use crate::triangulate::Tri;
use vstd::prelude::*;

verus! {

/// What [`reflex_before`] holds: the candidates before `e` that wind against
/// the face, all of them, and nothing else.
proof fn reflex_before_is_exact(polygon: Seq<Vertex>, winding: bool, geo: Geometry, e: int)
    requires
        0 <= e <= usize::MAX,
    ensures
        reflex_before(polygon, winding, geo, e).len() <= e,
        all_below(reflex_before(polygon, winding, geo, e), e),
        forall|i: int|
            0 <= i < reflex_before(polygon, winding, geo, e).len() ==> reflex_at(
                polygon,
                winding,
                geo,
                #[trigger] reflex_before(polygon, winding, geo, e)[i] as int,
            ),
        forall|c: int|
            0 <= c < e && #[trigger] reflex_at(polygon, winding, geo, c) ==> reflex_before(
                polygon,
                winding,
                geo,
                e,
            ).contains(c as usize),
    decreases e,
{
    if e > 0 {
        reflex_before_is_exact(polygon, winding, geo, e - 1);
        let shorter = reflex_before(polygon, winding, geo, e - 1);
        let full = reflex_before(polygon, winding, geo, e);
        assert forall|c: int| 0 <= c < e && #[trigger] reflex_at(polygon, winding, geo, c) implies full.contains(
            c as usize,
        ) by {
            if c < e - 1 {
                let i = choose|i: int| 0 <= i < shorter.len() && shorter[i] == c as usize;
                assert(full[i] == c as usize);
            } else {
                assert(full[full.len() - 1] == c as usize);
            }
        }
    }
}

/// Whether the search, as it stands at candidate `e`, has recorded the reflex
/// candidates before `e` and found no ear among the candidates before `e`.
spec fn search_tracks(s: FaceState, geo: Geometry, e: int) -> bool {
    &&& s.reflex == reflex_before(s.polygon, s.winding, geo, e)
    &&& forall|c: int| 0 <= c < e ==> !#[trigger] is_ear(s.polygon, s.winding, geo, c)
}

/// Whether none of the first `slot` recorded reflex vertices is in the way of
/// the corner at `e`.
spec fn slots_clear(s: FaceState, geo: Geometry, e: int, slot: int) -> bool {
    forall|i: int|
        0 <= i < slot ==> !blocked_by_reflex(
            s.polygon,
            s.winding,
            geo,
            e,
            #[trigger] s.reflex[i] as int,
        )
}

/// Whether no candidate before `e` is in the way of the corner at `e`.
spec fn reflex_clear(s: FaceState, geo: Geometry, e: int) -> bool {
    forall|c: int| 0 <= c < e ==> !#[trigger] blocked_by_reflex(s.polygon, s.winding, geo, e, c)
}

/// Whether no vertex between `e` and `other` is in the way of the corner at
/// `e`.
spec fn later_clear(s: FaceState, geo: Geometry, e: int, other: int) -> bool {
    forall|j: int| e < j < other ==> !#[trigger] blocked_by_later(s.polygon, geo, e, j)
}

/// Whether the state is one that answers from `geo` lead to, and `answer` is
/// what `geo` answers to the question that is open.
pub closed spec fn tracks(s: FaceState, geo: Geometry, answer: bool) -> bool {
    let p = s.polygon;
    let w = s.winding;
    match s.stage {
        Stage::Fresh => true,
        Stage::Projecting => true,
        Stage::Ready => true,
        Stage::Failed => true,
        Stage::Extreme { probe, best } => {
            &&& best == extreme(p, geo, probe as int)
            &&& answer == geo(Query::Precedes { p: p[probe as int], q: p[best as int] })
        },
        Stage::Orient => answer == orientation(p, geo),
        Stage::Turn { ear } => {
            &&& search_tracks(s, geo, ear as int)
            &&& answer == geo(Query::Winding { tri: corner(p, ear as int) })
        },
        Stage::Reflex { ear, slot } => {
            &&& search_tracks(s, geo, ear as int)
            &&& !reflex_at(p, w, geo, ear as int)
            &&& slots_clear(s, geo, ear as int, slot as int)
            &&& s.reflex[slot as int] != before(ear as int, p.len() as int)
            &&& s.reflex[slot as int] != after(ear as int, p.len() as int)
            &&& answer == geo(
                Query::Contains { tri: corner(p, ear as int), p: p[s.reflex[slot as int] as int] },
            )
        },
        Stage::Corner { ear, other, corner: c } => {
            let tri = corner(p, ear as int);
            &&& search_tracks(s, geo, ear as int)
            &&& !reflex_at(p, w, geo, ear as int)
            &&& reflex_clear(s, geo, ear as int)
            &&& later_clear(s, geo, ear as int, other as int)
            &&& c >= 1 ==> !geo(Query::Coincides { p: tri[0], q: p[other as int] })
            &&& c >= 2 ==> !geo(Query::Coincides { p: tri[1], q: p[other as int] })
            &&& answer == geo(Query::Coincides { p: tri[c as int], q: p[other as int] })
        },
        Stage::Inside { ear, other } => {
            let tri = corner(p, ear as int);
            &&& search_tracks(s, geo, ear as int)
            &&& !reflex_at(p, w, geo, ear as int)
            &&& reflex_clear(s, geo, ear as int)
            &&& later_clear(s, geo, ear as int, other as int)
            &&& !on_corner(geo, tri, p[other as int])
            &&& answer == geo(Query::Contains { tri, p: p[other as int] })
        },
    }
}

/// What is still to come from the state: the triangles, and whether the
/// clipping gets to its end.
pub open spec fn fate(s: FaceState, geo: Geometry) -> (Seq<Tri>, bool) {
    match s.stage {
        Stage::Fresh => (face_triangles(s.polygon, geo), face_complete(s.polygon, geo)),
        Stage::Projecting => (face_triangles(s.polygon, geo), face_complete(s.polygon, geo)),
        Stage::Extreme { probe, best } => (
            face_triangles(s.polygon, geo),
            face_complete(s.polygon, geo),
        ),
        Stage::Orient => (face_triangles(s.polygon, geo), face_complete(s.polygon, geo)),
        Stage::Failed => (Seq::empty(), false),
        _ => clipping(s.polygon, s.winding, geo),
    }
}

/// The triangles of a clipping, and whether it gets to its end.
pub open spec fn clipping(polygon: Seq<Vertex>, winding: bool, geo: Geometry) -> (Seq<Tri>, bool) {
    (clip(polygon, winding, geo), clips_fully(polygon, winding, geo))
}

/// Whether `(then, step)` carries on from a state with the fate `due`.
pub open spec fn carries_on(due: (Seq<Tri>, bool), then: FaceState, step: Step, geo: Geometry) -> bool {
    match step {
        Step::Done => due.0 == Seq::<Tri>::empty() && due.1 == !(then.stage is Failed),
        Step::Project => due == fate(then, geo) && forall|a: bool| tracks(then, geo, a),
        Step::Ask(q) => due == fate(then, geo) && tracks(then, geo, geo(q)),
        Step::Emit(tri) => due.0 == seq![tri] + fate(then, geo).0 && due.1 == fate(then, geo).1
            && forall|a: bool| tracks(then, geo, a),
    }
}

proof fn candidate_carries_on(s: FaceState, geo: Geometry, e: int)
    requires
        s.polygon.len() >= 4,
        s.polygon.len() <= usize::MAX,
        0 <= e <= s.polygon.len() - 1,
        search_tracks(s, geo, e),
    ensures
        carries_on(clipping(s.polygon, s.winding, geo), s.candidate(e).0, s.candidate(e).1, geo),
{
    if e >= s.polygon.len() - 1 {
        first_ear_is_first(s.polygon, s.winding, geo, 0);
    }
}

proof fn probe_rest_carries_on(s: FaceState, geo: Geometry, e: int, other: int)
    requires
        s.searching(e),
        s.polygon.len() <= usize::MAX,
        search_tracks(s, geo, e),
        !reflex_at(s.polygon, s.winding, geo, e),
        reflex_clear(s, geo, e),
        e < other <= s.polygon.len(),
        later_clear(s, geo, e, other),
    ensures
        carries_on(
            clipping(s.polygon, s.winding, geo),
            s.probe_rest(e, other).0,
            s.probe_rest(e, other).1,
            geo,
        ),
{
    if other >= s.polygon.len() {
        assert(is_ear(s.polygon, s.winding, geo, e));
        first_ear_is_first(s.polygon, s.winding, geo, 0);
    }
}

proof fn probe_reflex_carries_on(s: FaceState, geo: Geometry, e: int, from: int)
    requires
        s.searching(e),
        s.polygon.len() <= usize::MAX,
        search_tracks(s, geo, e),
        !reflex_at(s.polygon, s.winding, geo, e),
        0 <= from <= s.reflex.len(),
        slots_clear(s, geo, e, from),
    ensures
        carries_on(
            clipping(s.polygon, s.winding, geo),
            s.probe_reflex(e, from).0,
            s.probe_reflex(e, from).1,
            geo,
        ),
{
    s.unrelated_slot_is_first(e, from);
    if s.unrelated_slot(e, from) >= s.reflex.len() {
        reflex_before_is_exact(s.polygon, s.winding, geo, e);
        probe_rest_carries_on(s, geo, e, e + 1);
    }
}

/// A candidate that was turned down is no ear, and the search goes on with
/// the next one.
proof fn rejection_carries_on(s: FaceState, geo: Geometry, e: int)
    requires
        s.searching(e),
        s.polygon.len() <= usize::MAX,
        search_tracks(s, geo, e),
        !reflex_at(s.polygon, s.winding, geo, e),
        !is_ear(s.polygon, s.winding, geo, e),
    ensures
        carries_on(clipping(s.polygon, s.winding, geo), s.candidate(e + 1).0, s.candidate(e + 1).1, geo),
{
    candidate_carries_on(s, geo, e + 1);
}

proof fn search_carries_on(s: FaceState, geo: Geometry)
    requires
        s.polygon.len() <= usize::MAX,
    ensures
        carries_on(clipping(s.polygon, s.winding, geo), s.search().0, s.search().1, geo),
{
    if s.polygon.len() > 3 {
        candidate_carries_on(FaceState { reflex: Seq::empty(), ..s }, geo, 0);
    }
}

/// One call, answered from `geo`, leaves the triangles to come as they were,
/// less the one it hands out.
pub proof fn next_carries_on(s: FaceState, geo: Geometry, answer: bool)
    requires
        s.wf(),
        tracks(s, geo, answer),
    ensures
        carries_on(fate(s, geo), s.next(answer).0, s.next(answer).1, geo),
{
    let p = s.polygon;
    let w = s.winding;
    match s.stage {
        Stage::Fresh => {},
        Stage::Projecting => {},
        Stage::Extreme { probe, best } => {},
        Stage::Orient => {
            search_carries_on(FaceState { winding: answer, ..s }, geo);
        },
        Stage::Ready => {
            search_carries_on(s, geo);
        },
        Stage::Turn { ear } => {
            if answer != w {
                candidate_carries_on(FaceState { reflex: s.reflex.push(ear), ..s }, geo, ear + 1);
            } else {
                probe_reflex_carries_on(s, geo, ear as int, 0);
            }
        },
        Stage::Reflex { ear, slot } => {
            if answer {
                reflex_before_is_exact(p, w, geo, ear as int);
                assert(blocked_by_reflex(p, w, geo, ear as int, s.reflex[slot as int] as int));
                rejection_carries_on(s, geo, ear as int);
            } else {
                probe_reflex_carries_on(s, geo, ear as int, slot + 1);
            }
        },
        Stage::Corner { ear, other, corner: c } => {
            if answer {
                probe_rest_carries_on(s, geo, ear as int, other + 1);
            }
        },
        Stage::Inside { ear, other } => {
            if answer {
                assert(blocked_by_later(p, geo, ear as int, other as int));
                rejection_carries_on(s, geo, ear as int);
            } else {
                probe_rest_carries_on(s, geo, ear as int, other + 1);
            }
        },
        Stage::Failed => {},
    }
}

/// The triangles that are still to come from a face triangulator among
/// others. `geo` is the geometry of its face once the face was announced;
/// before that, `geos` has it.
pub open spec fn face_due(s: FaceState, geos: Projection, geo: Geometry) -> Seq<Tri> {
    if s.stage is Fresh {
        face_triangles(s.polygon, geos(s.polygon))
    } else {
        fate(s, geo).0
    }
}

/// Whether a call that returned `step` has left the triangles to come as they
/// were, less the one it handed out. After it `same` are to come if the
/// geometry is the one before the call, and `anew` if it is that of the face
/// which the call announced.
pub open spec fn hands_on(due: Seq<Tri>, step: Step, same: Seq<Tri>, anew: Seq<Tri>) -> bool {
    match step {
        Step::Done => due == Seq::<Tri>::empty(),
        Step::Project => due == anew,
        Step::Ask(q) => due == same,
        Step::Emit(tri) => due == seq![tri] + same,
    }
}

/// One call of a face triangulator among others, answered from `geo`, hands
/// the triangles to come on, and leaves a state that answers lead to.
pub proof fn face_hands_on(s: FaceState, geos: Projection, geo: Geometry, answer: bool)
    requires
        s.wf(),
        tracks(s, geo, answer),
    ensures
        ({
            let (then, step) = s.next(answer);
            let anew = geos(then.polygon);
            &&& hands_on(
                face_due(s, geos, geo),
                step,
                face_due(then, geos, geo),
                face_due(then, geos, anew),
            )
            &&& !(then.stage is Fresh)
            &&& match step {
                Step::Done => true,
                Step::Project => forall|a: bool| tracks(then, anew, a),
                Step::Ask(q) => tracks(then, geo, geo(q)),
                Step::Emit(tri) => forall|a: bool| tracks(then, geo, a),
            }
        }),
{
    next_carries_on(s, geo, answer);
    s.next_makes_progress(answer);
}

/// A triangle that a search hands out winds as the face does: it was asked
/// about, and the answer was that of the face. The triangle that three
/// remaining vertices form is handed out unasked.
pub proof fn ears_wind_as_asked(s: FaceState, geo: Geometry, answer: bool)
    requires
        s.wf(),
        tracks(s, geo, answer),
        s.polygon.len() > 3,
    ensures
        s.next(answer).1 matches Step::Emit(tri) ==> geo(Query::Winding { tri }) == s.winding,
{
    match s.stage {
        Stage::Turn { ear } => {
            s.unrelated_slot_is_first(ear as int, 0);
        },
        Stage::Reflex { ear, slot } => {
            s.unrelated_slot_is_first(ear as int, slot + 1);
        },
        _ => {},
    }
}

/// Between two questions a state is one that answers lead to, whatever the
/// geometry.
pub proof fn tracks_at_rest(s: FaceState, geo: Geometry, answer: bool)
    requires
        s.stage is Fresh || s.stage is Projecting || s.stage is Ready || s.stage is Failed,
    ensures
        tracks(s, geo, answer),
{
}

/// Every state is one that answers lead to before the first call, and all
/// of the face is still to come from it.
pub proof fn fresh_tracks(polygon: Seq<Vertex>, geo: Geometry, answer: bool)
    ensures
        tracks(FaceState::fresh(polygon), geo, answer),
        fate(FaceState::fresh(polygon), geo) == (
            face_triangles(polygon, geo),
            face_complete(polygon, geo),
        ),
{
}

} // verus!
