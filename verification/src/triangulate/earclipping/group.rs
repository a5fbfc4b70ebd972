//! The triangulator of a group: its faces, one after another.

use super::face::{FaceState, FaceTriangulator};
use super::model::{face_triangles, Geometry, Projection};
use super::query::Step;
use super::tracking::{face_due, face_hands_on, hands_on, tracks, tracks_at_rest};
use super::Error;
use crate::obj::{Face, Group, Vertex};
use crate::triangulate::Tri;
use vstd::prelude::*;

verus! {

/// The first face from `from` on that has three vertices or more, or the
/// number of faces if there is none.
pub open spec fn next_face(faces: Seq<Seq<Vertex>>, from: int) -> int
    decreases faces.len() - from,
{
    if from < 0 || from >= faces.len() {
        faces.len() as int
    } else if faces[from].len() >= 3 {
        from
    } else {
        next_face(faces, from + 1)
    }
}

/// [`next_face`] looks no further back than `from`, passes over faces of
/// fewer than three vertices only, and stops at a face that has three.
pub proof fn next_face_is_first(faces: Seq<Seq<Vertex>>, from: int)
    requires
        0 <= from <= faces.len(),
    ensures
        from <= next_face(faces, from) <= faces.len(),
        forall|i: int| from <= i < next_face(faces, from) ==> (#[trigger] faces[i]).len() < 3,
        next_face(faces, from) < faces.len() ==> faces[next_face(faces, from)].len() >= 3,
    decreases faces.len() - from,
{
    if from < faces.len() && faces[from].len() < 3 {
        next_face_is_first(faces, from + 1);
    }
}

/// The triangles of the faces from `from` on, face after face. A face of
/// fewer than three vertices has none.
pub open spec fn faces_triangles(faces: Seq<Seq<Vertex>>, geos: Projection, from: int) -> Seq<Tri>
    decreases faces.len() - from,
{
    if from < 0 || from >= faces.len() {
        Seq::empty()
    } else {
        face_triangles(faces[from], geos(faces[from])) + faces_triangles(faces, geos, from + 1)
    }
}

/// The triangles of a group.
pub open spec fn group_triangles(faces: Seq<Seq<Vertex>>, geos: Projection) -> Seq<Tri> {
    faces_triangles(faces, geos, 0)
}

/// Whether every face has a number of vertices that a machine can count.
pub open spec fn faces_bounded(faces: Seq<Seq<Vertex>>) -> bool {
    &&& faces.len() <= usize::MAX
    &&& forall|i: int| 0 <= i < faces.len() ==> (#[trigger] faces[i]).len() <= usize::MAX
}

/// The state of a group triangulator, as contracts see it.
pub struct GroupState {
    /// The vertex loops of the faces of the group.
    pub faces: Seq<Seq<Vertex>>,
    /// The face that is being triangulated, or the number of faces at the end.
    pub index: int,
    /// The state of the triangulator of that face.
    pub inner: FaceState,
}

impl GroupState {
    /// Whether the group has a face to start with.
    pub open spec fn can_start(faces: Seq<Seq<Vertex>>) -> bool {
        next_face(faces, 0) < faces.len()
    }

    /// The state in which the triangulator of a group starts: at its first
    /// face of three vertices or more.
    pub open spec fn fresh(faces: Seq<Seq<Vertex>>) -> GroupState {
        GroupState {
            faces,
            index: next_face(faces, 0),
            inner: FaceState::fresh(faces[next_face(faces, 0)]),
        }
    }

    /// Whether the fields fit each other.
    pub open spec fn wf(self) -> bool {
        &&& faces_bounded(self.faces)
        &&& 0 <= self.index <= self.faces.len()
        &&& self.inner.wf()
    }

    /// The vertices of the current face that are not cut off yet.
    pub open spec fn polygon(self) -> Seq<Vertex> {
        self.inner.polygon
    }

    /// Turns to the next face that has three vertices or more, and takes the
    /// first step on it; without such a face the group is done.
    pub open spec fn refill(self, answer: bool) -> (GroupState, Step) {
        let j = next_face(self.faces, self.index + 1);
        if j >= self.faces.len() {
            (GroupState { index: self.faces.len() as int, ..self }, Step::Done)
        } else {
            let (then, step) = FaceState::fresh(self.faces[j]).next(answer);
            (GroupState { index: j, inner: then, ..self }, step)
        }
    }

    /// The state after the next call and what that call returns: the step of
    /// the current face, or, when that face is done, the first step of the
    /// face that follows.
    pub open spec fn next(self, answer: bool) -> (GroupState, Step) {
        if self.index >= self.faces.len() {
            (self, Step::Done)
        } else {
            let (then, step) = self.inner.next(answer);
            if step is Done {
                GroupState { inner: then, ..self }.refill(answer)
            } else {
                (GroupState { inner: then, ..self }, step)
            }
        }
    }

    /// The triangles that come out when every question is answered from the
    /// geometry of the face that it is about, from this state to the end.
    /// `geo` is the geometry of the face that was announced last, and `answer`
    /// is what the next call is given.
    pub open spec fn drive(self, geos: Projection, geo: Geometry, answer: bool) -> Seq<Tri>
        decreases
            self.faces.len() - self.index,
            self.inner.polygon.len(),
            self.inner.stage_rank(),
            self.inner.within(),
        when self.wf()
    {
        proof {
            self.next_makes_progress(answer);
        }
        let (then, step) = self.next(answer);
        match step {
            Step::Done => Seq::empty(),
            Step::Project => then.drive(geos, geos(then.polygon()), answer),
            Step::Ask(q) => then.drive(geos, geo, geo(q)),
            Step::Emit(tri) => seq![tri] + then.drive(geos, geo, answer),
        }
    }

    /// A call leaves the state well formed, and unless it returns
    /// [`Step::Done`] the state has come closer to the end.
    pub proof fn next_makes_progress(self, answer: bool)
        requires
            self.wf(),
        ensures
            self.next(answer).0.wf(),
            !(self.next(answer).1 is Done) ==> decreases_to!(
                self.faces.len() - self.index,
                self.inner.polygon.len(),
                self.inner.stage_rank(),
                self.inner.within()
                => self.next(answer).0.faces.len() - self.next(answer).0.index,
                self.next(answer).0.inner.polygon.len(),
                self.next(answer).0.inner.stage_rank(),
                self.next(answer).0.inner.within()),
    {
        if self.index < self.faces.len() {
            self.inner.next_makes_progress(answer);
            if self.inner.next(answer).1 is Done {
                next_face_is_first(self.faces, self.index + 1);
                let j = next_face(self.faces, self.index + 1);
                if j < self.faces.len() {
                    FaceState::fresh(self.faces[j]).next_makes_progress(answer);
                }
            }
        }
    }

    /// The first call on a fresh state does not end the group.
    pub proof fn fresh_goes_on(faces: Seq<Seq<Vertex>>, answer: bool)
        requires
            faces_bounded(faces),
            Self::can_start(faces),
        ensures
            Self::fresh(faces).wf(),
            !(Self::fresh(faces).next(answer).1 is Done),
    {
        next_face_is_first(faces, 0);
    }
}

/// Triangulates the faces of a [`Group`], one after another. Faces of fewer
/// than three vertices are passed over.
///
/// It asks as a [`FaceTriangulator`] does, about one face at a time.
#[derive(Debug)]
pub struct GroupTriangulator<'obj> {
    group: &'obj Group,
    face_index: usize,
    triangulator: FaceTriangulator,
}

impl<'obj> View for GroupTriangulator<'obj> {
    type V = GroupState;

    closed spec fn view(&self) -> GroupState {
        GroupState {
            faces: self.group.loops(),
            index: self.face_index as int,
            inner: self.triangulator@,
        }
    }
}

impl<'obj> GroupTriangulator<'obj> {
    /// Whether the triangulator is in a state that its own calls lead to.
    pub open spec fn wf(&self) -> bool {
        self@.wf()
    }

    /// Constructs the triangulator of `group`. A group without a face of
    /// three vertices or more has none.
    pub fn new(group: &'obj Group) -> (r: Result<Self, Error>)
        ensures
            !GroupState::can_start(group.loops()) ==> r == Err::<Self, Error>(
                Error::NoValidFacesFound,
            ),
            GroupState::can_start(group.loops()) ==> r is Ok && r->Ok_0.wf() && r->Ok_0@
                == GroupState::fresh(group.loops()),
    {
        let n: usize = group.faces.len();
        let mut face_index: usize = 0;
        proof {
            group.loops_bounded();
        }
        while face_index < n
            invariant
                n == group.faces@.len(),
                face_index <= n,
                faces_bounded(group.loops()),
                next_face(group.loops(), face_index as int) == next_face(group.loops(), 0),
            decreases n - face_index,
        {
            match FaceTriangulator::new(&group.faces[face_index]) {
                Ok(triangulator) => {
                    return Ok(Self { group, face_index, triangulator });
                },
                Err(_) => {},
            }
            face_index += 1;
        }
        Err(Error::NoValidFacesFound)
    }

    /// The vertices of the current face that are not cut off yet. After
    /// [`Step::Project`] this is the whole loop of the face.
    pub fn polygon(&self) -> (polygon: &Vec<Vertex>)
        ensures
            polygon@ == self@.polygon(),
    {
        self.triangulator.polygon()
    }

    /// Takes the answer to the question that the last call asked, and goes on
    /// to the next question, the next triangle, or the end.
    pub fn next(&mut self, answer: bool) -> (step: Step)
        requires
            old(self).wf(),
        ensures
            final(self).wf(),
            (final(self)@, step) == old(self)@.next(answer),
    {
        let n: usize = self.group.faces.len();
        if self.face_index >= n {
            return Step::Done;
        }
        let step = self.triangulator.next(answer);
        match step {
            Step::Done => {},
            _ => {
                return step;
            },
        }
        let ghost before = self@;
        let mut j: usize = self.face_index + 1;
        while j < n
            invariant
                n == self.group.faces@.len(),
                self.face_index < j <= n,
                self@ == before,
                self.wf(),
                old(self)@.next(answer) == before.refill(answer),
                next_face(before.faces, j as int) == next_face(before.faces, before.index + 1),
            decreases n - j,
        {
            match FaceTriangulator::new(&self.group.faces[j]) {
                Ok(triangulator) => {
                    self.triangulator = triangulator;
                    self.face_index = j;
                    return self.triangulator.next(answer);
                },
                Err(_) => {},
            }
            j += 1;
        }
        self.face_index = n;
        Step::Done
    }
}

/// Whether the state is one that answers from the faces' geometries lead to,
/// where `geo` is the geometry of the face that was announced last and
/// `answer` is what it answers to the question that is open.
pub open spec fn group_tracks(s: GroupState, geo: Geometry, answer: bool) -> bool {
    s.index < s.faces.len() ==> tracks(s.inner, geo, answer)
}

/// The triangles that are still to come from the state.
pub open spec fn group_due(s: GroupState, geos: Projection, geo: Geometry) -> Seq<Tri> {
    if s.index < s.faces.len() {
        face_due(s.inner, geos, geo) + faces_triangles(s.faces, geos, s.index + 1)
    } else {
        Seq::empty()
    }
}

/// The faces that [`next_face`] passes over have no triangles.
pub proof fn passed_over_faces_have_none(faces: Seq<Seq<Vertex>>, geos: Projection, from: int)
    requires
        0 <= from <= faces.len(),
    ensures
        faces_triangles(faces, geos, from) == faces_triangles(faces, geos, next_face(faces, from)),
    decreases faces.len() - from,
{
    if from < faces.len() && faces[from].len() < 3 {
        passed_over_faces_have_none(faces, geos, from + 1);
    }
}

/// A group has a face to start with if and only if one of its faces has
/// three vertices or more.
pub proof fn group_starts_with_a_valid_face(faces: Seq<Seq<Vertex>>)
    ensures
        GroupState::can_start(faces) <==> exists|i: int|
            0 <= i < faces.len() && (#[trigger] faces[i]).len() >= 3,
{
    next_face_is_first(faces, 0);
}

/// Where one face only has three vertices or more, the faces from `from` on
/// have its triangles if it is among them, and none if it is not.
proof fn faces_around_a_lone_face_have_none(
    faces: Seq<Seq<Vertex>>,
    geos: Projection,
    k: int,
    from: int,
)
    requires
        0 <= k < faces.len(),
        0 <= from <= faces.len(),
        forall|i: int| 0 <= i < faces.len() && i != k ==> (#[trigger] faces[i]).len() < 3,
    ensures
        faces_triangles(faces, geos, from) == if from <= k {
            face_triangles(faces[k], geos(faces[k]))
        } else {
            Seq::empty()
        },
    decreases faces.len() - from,
{
    if from < faces.len() {
        faces_around_a_lone_face_have_none(faces, geos, k, from + 1);
    }
}

/// A group in which one face only has three vertices or more has the
/// triangles of that face, and no others.
pub proof fn lone_valid_face_gives_the_triangles(faces: Seq<Seq<Vertex>>, geos: Projection, k: int)
    requires
        0 <= k < faces.len(),
        faces[k].len() >= 3,
        forall|i: int| 0 <= i < faces.len() && i != k ==> (#[trigger] faces[i]).len() < 3,
    ensures
        GroupState::can_start(faces),
        group_triangles(faces, geos) == face_triangles(faces[k], geos(faces[k])),
{
    faces_around_a_lone_face_have_none(faces, geos, k, 0);
    group_starts_with_a_valid_face(faces);
}

/// One call of a group triangulator, answered from `geo`, hands the
/// triangles to come on, and leaves a state that answers lead to.
pub proof fn group_hands_on(s: GroupState, geos: Projection, geo: Geometry, answer: bool)
    requires
        s.wf(),
        group_tracks(s, geo, answer),
    ensures
        ({
            let (then, step) = s.next(answer);
            let anew = geos(then.polygon());
            &&& hands_on(
                group_due(s, geos, geo),
                step,
                group_due(then, geos, geo),
                group_due(then, geos, anew),
            )
            &&& match step {
                Step::Done => true,
                Step::Project => forall|a: bool| group_tracks(then, anew, a),
                Step::Ask(q) => group_tracks(then, geo, geo(q)),
                Step::Emit(tri) => forall|a: bool| group_tracks(then, geo, a),
            }
        }),
{
    if s.index < s.faces.len() {
        let rest = faces_triangles(s.faces, geos, s.index + 1);
        face_hands_on(s.inner, geos, geo, answer);
        let (inner, step) = s.inner.next(answer);
        if step is Done {
            next_face_is_first(s.faces, s.index + 1);
            passed_over_faces_have_none(s.faces, geos, s.index + 1);
            let j = next_face(s.faces, s.index + 1);
            if j < s.faces.len() {
                let fresh = FaceState::fresh(s.faces[j]);
                assert forall|a: bool| tracks(fresh, geo, a) by {
                    tracks_at_rest(fresh, geo, a);
                }
                face_hands_on(fresh, geos, geo, answer);
            }
        } else {
            match step {
                Step::Emit(tri) => {
                    assert((seq![tri] + face_due(inner, geos, geo)) + rest == seq![tri] + (
                    face_due(inner, geos, geo) + rest));
                },
                _ => {},
            }
        }
    }
}

/// From a state that answers lead to, the triangulator hands out the
/// triangles that are still to come, and no others.
pub proof fn group_drive_yields_due(s: GroupState, geos: Projection, geo: Geometry, answer: bool)
    requires
        s.wf(),
        group_tracks(s, geo, answer),
    ensures
        s.drive(geos, geo, answer) == group_due(s, geos, geo),
    decreases
        s.faces.len() - s.index,
        s.inner.polygon.len(),
        s.inner.stage_rank(),
        s.inner.within(),
{
    s.next_makes_progress(answer);
    group_hands_on(s, geos, geo, answer);
    let (then, step) = s.next(answer);
    match step {
        Step::Done => {},
        Step::Project => group_drive_yields_due(then, geos, geos(then.polygon()), answer),
        Step::Ask(q) => group_drive_yields_due(then, geos, geo, geo(q)),
        Step::Emit(tri) => group_drive_yields_due(then, geos, geo, answer),
    }
}

/// All the triangles of the group are still to come from its fresh state.
pub proof fn fresh_group_is_due(
    faces: Seq<Seq<Vertex>>,
    geos: Projection,
    geo: Geometry,
    answer: bool,
)
    requires
        faces_bounded(faces),
        GroupState::can_start(faces),
    ensures
        GroupState::fresh(faces).wf(),
        group_tracks(GroupState::fresh(faces), geo, answer),
        group_due(GroupState::fresh(faces), geos, geo) == group_triangles(faces, geos),
{
    next_face_is_first(faces, 0);
    passed_over_faces_have_none(faces, geos, 0);
    tracks_at_rest(GroupState::fresh(faces).inner, geo, answer);
}

/// A group triangulator whose questions are answered from the geometry of
/// the face that they are about hands out the triangles of the faces of the
/// group, face after face, and then ends: a face of fewer than three vertices
/// takes nothing from the faces around it. What the triangulator is given
/// before its first question makes no difference.
pub proof fn group_triangulator_yields_triangles(
    faces: Seq<Seq<Vertex>>,
    geos: Projection,
    geo: Geometry,
    answer: bool,
)
    requires
        faces_bounded(faces),
        GroupState::can_start(faces),
    ensures
        GroupState::fresh(faces).drive(geos, geo, answer) == group_triangles(faces, geos),
{
    fresh_group_is_due(faces, geos, geo, answer);
    group_drive_yields_due(GroupState::fresh(faces), geos, geo, answer);
}

} // verus!
