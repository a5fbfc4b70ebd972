//! The triangulator of a scene: its objects, one after another.

use super::object::{
    fresh_object_is_due, groups_bounded, next_group_is_first, object_due, object_hands_on,
    object_tracks, object_triangles, passed_over_groups_have_none, ObjectState,
    ObjectTriangulator,
};
use super::model::{Geometry, Projection};
use super::query::Step;
use super::tracking::hands_on;
use super::Error;
use crate::obj::{Vertex, OBJ};
use crate::triangulate::Tri;
use vstd::prelude::*;

verus! {

/// The first object from `from` on that has a face to start with, or the
/// number of objects if there is none.
pub open spec fn next_object(objects: Seq<Seq<Seq<Seq<Vertex>>>>, from: int) -> int
    decreases objects.len() - from,
{
    if from < 0 || from >= objects.len() {
        objects.len() as int
    } else if ObjectState::can_start(objects[from]) {
        from
    } else {
        next_object(objects, from + 1)
    }
}

/// [`next_object`] looks no further back than `from`, passes over objects
/// without a face to start with only, and stops at an object that has one.
pub proof fn next_object_is_first(objects: Seq<Seq<Seq<Seq<Vertex>>>>, from: int)
    requires
        0 <= from <= objects.len(),
    ensures
        from <= next_object(objects, from) <= objects.len(),
        forall|i: int|
            from <= i < next_object(objects, from) ==> !ObjectState::can_start(#[trigger] objects[i]),
        next_object(objects, from) < objects.len() ==> ObjectState::can_start(
            objects[next_object(objects, from)],
        ),
    decreases objects.len() - from,
{
    if from < objects.len() && !ObjectState::can_start(objects[from]) {
        next_object_is_first(objects, from + 1);
    }
}

/// The triangles of the objects from `from` on, object after object.
pub open spec fn objects_triangles(
    objects: Seq<Seq<Seq<Seq<Vertex>>>>,
    geos: Projection,
    from: int,
) -> Seq<Tri>
    decreases objects.len() - from,
{
    if from < 0 || from >= objects.len() {
        Seq::empty()
    } else {
        object_triangles(objects[from], geos) + objects_triangles(objects, geos, from + 1)
    }
}

/// The triangles of a scene.
pub open spec fn scene_triangles(objects: Seq<Seq<Seq<Seq<Vertex>>>>, geos: Projection) -> Seq<Tri> {
    objects_triangles(objects, geos, 0)
}

/// Whether every object has numbers of groups, of faces and of vertices that
/// a machine can count.
pub open spec fn objects_bounded(objects: Seq<Seq<Seq<Seq<Vertex>>>>) -> bool {
    &&& objects.len() <= usize::MAX
    &&& forall|i: int| 0 <= i < objects.len() ==> groups_bounded(#[trigger] objects[i])
}

/// The state of a scene triangulator, as contracts see it.
pub struct SceneState {
    /// The vertex loops of the scene, object by object.
    pub objects: Seq<Seq<Seq<Seq<Vertex>>>>,
    /// The object that is being triangulated, or the number of objects at
    /// the end.
    pub index: int,
    /// The state of the triangulator of that object.
    pub inner: ObjectState,
}

impl SceneState {
    /// Whether the scene has a face to start with.
    pub open spec fn can_start(objects: Seq<Seq<Seq<Seq<Vertex>>>>) -> bool {
        next_object(objects, 0) < objects.len()
    }

    /// The state in which the triangulator of a scene starts: at its first
    /// object that has a face to start with.
    pub open spec fn fresh(objects: Seq<Seq<Seq<Seq<Vertex>>>>) -> SceneState {
        SceneState {
            objects,
            index: next_object(objects, 0),
            inner: ObjectState::fresh(objects[next_object(objects, 0)]),
        }
    }

    /// Whether the fields fit each other.
    pub open spec fn wf(self) -> bool {
        &&& objects_bounded(self.objects)
        &&& 0 <= self.index <= self.objects.len()
        &&& self.inner.wf()
    }

    /// The vertices of the current face that are not cut off yet.
    pub open spec fn polygon(self) -> Seq<Vertex> {
        self.inner.polygon()
    }

    /// Turns to the next object that has a face to start with, and takes the
    /// first step on it; without such an object the scene is done.
    pub open spec fn refill(self, answer: bool) -> (SceneState, Step) {
        let j = next_object(self.objects, self.index + 1);
        if j >= self.objects.len() {
            (SceneState { index: self.objects.len() as int, ..self }, Step::Done)
        } else {
            let (then, step) = ObjectState::fresh(self.objects[j]).next(answer);
            (SceneState { index: j, inner: then, ..self }, step)
        }
    }

    /// The state after the next call and what that call returns: the step of
    /// the current object, or, when that object is done, the first step of
    /// the object that follows.
    pub open spec fn next(self, answer: bool) -> (SceneState, Step) {
        if self.index >= self.objects.len() {
            (self, Step::Done)
        } else {
            let (then, step) = self.inner.next(answer);
            if step is Done {
                SceneState { inner: then, ..self }.refill(answer)
            } else {
                (SceneState { inner: then, ..self }, step)
            }
        }
    }

    /// The triangles that come out when every question is answered from the
    /// geometry of the face that it is about, from this state to the end.
    /// `geo` is the geometry of the face that was announced last, and `answer`
    /// is what the next call is given.
    pub open spec fn drive(self, geos: Projection, geo: Geometry, answer: bool) -> Seq<Tri>
        decreases
            self.objects.len() - self.index,
            self.inner.groups.len() - self.inner.index,
            self.inner.inner.faces.len() - self.inner.inner.index,
            self.inner.inner.inner.polygon.len(),
            self.inner.inner.inner.stage_rank(),
            self.inner.inner.inner.within(),
        when self.wf()
    {
        proof {
            self.next_makes_progress(answer);
        }
        let (then, step) = self.next(answer);
        match step {
            Step::Done => Seq::empty(),
            Step::Project => then.drive(geos, geos(then.polygon()), answer),
            Step::Ask(q) => then.drive(geos, geo, geo(q)),
            Step::Emit(tri) => seq![tri] + then.drive(geos, geo, answer),
        }
    }

    /// A call leaves the state well formed, and unless it returns
    /// [`Step::Done`] the state has come closer to the end.
    pub proof fn next_makes_progress(self, answer: bool)
        requires
            self.wf(),
        ensures
            self.next(answer).0.wf(),
            !(self.next(answer).1 is Done) ==> decreases_to!(
                self.objects.len() - self.index,
                self.inner.groups.len() - self.inner.index,
                self.inner.inner.faces.len() - self.inner.inner.index,
                self.inner.inner.inner.polygon.len(),
                self.inner.inner.inner.stage_rank(),
                self.inner.inner.inner.within()
                => self.next(answer).0.objects.len() - self.next(answer).0.index,
                self.next(answer).0.inner.groups.len() - self.next(answer).0.inner.index,
                self.next(answer).0.inner.inner.faces.len() - self.next(answer).0.inner.inner.index,
                self.next(answer).0.inner.inner.inner.polygon.len(),
                self.next(answer).0.inner.inner.inner.stage_rank(),
                self.next(answer).0.inner.inner.inner.within()),
    {
        if self.index < self.objects.len() {
            self.inner.next_makes_progress(answer);
            if self.inner.next(answer).1 is Done {
                next_object_is_first(self.objects, self.index + 1);
                let j = next_object(self.objects, self.index + 1);
                if j < self.objects.len() {
                    ObjectState::fresh_goes_on(self.objects[j], answer);
                    ObjectState::fresh(self.objects[j]).next_makes_progress(answer);
                }
            }
        }
    }

    /// The first call on a fresh state does not end the scene.
    pub proof fn fresh_goes_on(objects: Seq<Seq<Seq<Seq<Vertex>>>>, answer: bool)
        requires
            objects_bounded(objects),
            Self::can_start(objects),
        ensures
            Self::fresh(objects).wf(),
            !(Self::fresh(objects).next(answer).1 is Done),
    {
        next_object_is_first(objects, 0);
        ObjectState::fresh_goes_on(objects[next_object(objects, 0)], answer);
    }
}

/// Triangulates the objects of an [`OBJ`], one after another. Objects without
/// a face of three vertices or more are passed over.
///
/// It asks as a [`FaceTriangulator`](super::FaceTriangulator) does, about one
/// face at a time.
#[derive(Debug)]
pub struct ObjTriangulator<'obj> {
    obj: &'obj OBJ,
    object_index: usize,
    triangulator: ObjectTriangulator<'obj>,
}

impl<'obj> View for ObjTriangulator<'obj> {
    type V = SceneState;

    closed spec fn view(&self) -> SceneState {
        SceneState {
            objects: self.obj.loops(),
            index: self.object_index as int,
            inner: self.triangulator@,
        }
    }
}

impl<'obj> ObjTriangulator<'obj> {
    /// Whether the triangulator is in a state that its own calls lead to.
    pub open spec fn wf(&self) -> bool {
        self@.wf()
    }

    /// Constructs the triangulator of `obj`. A scene without a face of three
    /// vertices or more has none.
    pub fn from_obj(obj: &'obj OBJ) -> (r: Result<Self, Error>)
        ensures
            !SceneState::can_start(obj.loops()) ==> r == Err::<Self, Error>(
                Error::NoValidObjectsFound,
            ),
            SceneState::can_start(obj.loops()) ==> r is Ok && r->Ok_0.wf() && r->Ok_0@
                == SceneState::fresh(obj.loops()),
    {
        let n: usize = obj.objects.len();
        let mut object_index: usize = 0;
        proof {
            obj.loops_bounded();
        }
        while object_index < n
            invariant
                n == obj.objects@.len(),
                object_index <= n,
                objects_bounded(obj.loops()),
                next_object(obj.loops(), object_index as int) == next_object(obj.loops(), 0),
            decreases n - object_index,
        {
            match ObjectTriangulator::new(&obj.objects[object_index]) {
                Ok(triangulator) => {
                    return Ok(Self { obj, object_index, triangulator });
                },
                Err(_) => {},
            }
            object_index += 1;
        }
        Err(Error::NoValidObjectsFound)
    }

    /// The vertices of the current face that are not cut off yet. After
    /// [`Step::Project`] this is the whole loop of the face.
    pub fn polygon(&self) -> (polygon: &Vec<Vertex>)
        ensures
            polygon@ == self@.polygon(),
    {
        self.triangulator.polygon()
    }

    /// Takes the answer to the question that the last call asked, and goes on
    /// to the next question, the next triangle, or the end.
    pub fn next(&mut self, answer: bool) -> (step: Step)
        requires
            old(self).wf(),
        ensures
            final(self).wf(),
            (final(self)@, step) == old(self)@.next(answer),
    {
        let n: usize = self.obj.objects.len();
        if self.object_index >= n {
            return Step::Done;
        }
        let step = self.triangulator.next(answer);
        match step {
            Step::Done => {},
            _ => {
                return step;
            },
        }
        let ghost before = self@;
        let mut j: usize = self.object_index + 1;
        while j < n
            invariant
                n == self.obj.objects@.len(),
                self.object_index < j <= n,
                self@ == before,
                self.wf(),
                old(self)@.next(answer) == before.refill(answer),
                next_object(before.objects, j as int) == next_object(before.objects, before.index + 1),
            decreases n - j,
        {
            match ObjectTriangulator::new(&self.obj.objects[j]) {
                Ok(triangulator) => {
                    proof {
                        ObjectState::fresh_goes_on(before.objects[j as int], answer);
                    }
                    self.triangulator = triangulator;
                    self.object_index = j;
                    return self.triangulator.next(answer);
                },
                Err(_) => {},
            }
            j += 1;
        }
        self.object_index = n;
        Step::Done
    }
}

/// Whether the state is one that answers from the faces' geometries lead to,
/// where `geo` is the geometry of the face that was announced last and
/// `answer` is what it answers to the question that is open.
pub open spec fn scene_tracks(s: SceneState, geo: Geometry, answer: bool) -> bool {
    s.index < s.objects.len() ==> object_tracks(s.inner, geo, answer)
}

/// The triangles that are still to come from the state.
pub open spec fn scene_due(s: SceneState, geos: Projection, geo: Geometry) -> Seq<Tri> {
    if s.index < s.objects.len() {
        object_due(s.inner, geos, geo) + objects_triangles(s.objects, geos, s.index + 1)
    } else {
        Seq::empty()
    }
}

/// The objects that [`next_object`] passes over have no triangles.
pub proof fn passed_over_objects_have_none(
    objects: Seq<Seq<Seq<Seq<Vertex>>>>,
    geos: Projection,
    from: int,
)
    requires
        0 <= from <= objects.len(),
    ensures
        objects_triangles(objects, geos, from) == objects_triangles(
            objects,
            geos,
            next_object(objects, from),
        ),
    decreases objects.len() - from,
{
    if from < objects.len() && !ObjectState::can_start(objects[from]) {
        passed_over_objects_have_none(objects, geos, from + 1);
        next_group_is_first(objects[from], 0);
        passed_over_groups_have_none(objects[from], geos, 0);
    }
}

/// One call of a scene triangulator, answered from `geo`, hands the
/// triangles to come on, and leaves a state that answers lead to.
pub proof fn scene_hands_on(s: SceneState, geos: Projection, geo: Geometry, answer: bool)
    requires
        s.wf(),
        scene_tracks(s, geo, answer),
    ensures
        ({
            let (then, step) = s.next(answer);
            let anew = geos(then.polygon());
            &&& hands_on(
                scene_due(s, geos, geo),
                step,
                scene_due(then, geos, geo),
                scene_due(then, geos, anew),
            )
            &&& match step {
                Step::Done => true,
                Step::Project => forall|a: bool| scene_tracks(then, anew, a),
                Step::Ask(q) => scene_tracks(then, geo, geo(q)),
                Step::Emit(tri) => forall|a: bool| scene_tracks(then, geo, a),
            }
        }),
{
    if s.index < s.objects.len() {
        let rest = objects_triangles(s.objects, geos, s.index + 1);
        object_hands_on(s.inner, geos, geo, answer);
        let (inner, step) = s.inner.next(answer);
        if step is Done {
            next_object_is_first(s.objects, s.index + 1);
            passed_over_objects_have_none(s.objects, geos, s.index + 1);
            let j = next_object(s.objects, s.index + 1);
            if j < s.objects.len() {
                let fresh = ObjectState::fresh(s.objects[j]);
                let later = objects_triangles(s.objects, geos, j + 1);
                fresh_object_is_due(s.objects[j], geos, geo, answer);
                object_hands_on(fresh, geos, geo, answer);
                ObjectState::fresh_goes_on(s.objects[j], answer);
                let (then, first) = fresh.next(answer);
                match first {
                    Step::Emit(tri) => {
                        assert((seq![tri] + object_due(then, geos, geo)) + later == seq![tri] + (
                        object_due(then, geos, geo) + later));
                    },
                    _ => {},
                }
            }
        } else {
            match step {
                Step::Emit(tri) => {
                    assert((seq![tri] + object_due(inner, geos, geo)) + rest == seq![tri] + (
                    object_due(inner, geos, geo) + rest));
                },
                _ => {},
            }
        }
    }
}

/// From a state that answers lead to, the triangulator hands out the
/// triangles that are still to come, and no others.
pub proof fn scene_drive_yields_due(s: SceneState, geos: Projection, geo: Geometry, answer: bool)
    requires
        s.wf(),
        scene_tracks(s, geo, answer),
    ensures
        s.drive(geos, geo, answer) == scene_due(s, geos, geo),
    decreases
        s.objects.len() - s.index,
        s.inner.groups.len() - s.inner.index,
        s.inner.inner.faces.len() - s.inner.inner.index,
        s.inner.inner.inner.polygon.len(),
        s.inner.inner.inner.stage_rank(),
        s.inner.inner.inner.within(),
{
    s.next_makes_progress(answer);
    scene_hands_on(s, geos, geo, answer);
    let (then, step) = s.next(answer);
    match step {
        Step::Done => {},
        Step::Project => scene_drive_yields_due(then, geos, geos(then.polygon()), answer),
        Step::Ask(q) => scene_drive_yields_due(then, geos, geo, geo(q)),
        Step::Emit(tri) => scene_drive_yields_due(then, geos, geo, answer),
    }
}

/// All the triangles of the scene are still to come from its fresh state.
pub proof fn fresh_scene_is_due(
    objects: Seq<Seq<Seq<Seq<Vertex>>>>,
    geos: Projection,
    geo: Geometry,
    answer: bool,
)
    requires
        objects_bounded(objects),
        SceneState::can_start(objects),
    ensures
        SceneState::fresh(objects).wf(),
        scene_tracks(SceneState::fresh(objects), geo, answer),
        scene_due(SceneState::fresh(objects), geos, geo) == scene_triangles(objects, geos),
{
    next_object_is_first(objects, 0);
    passed_over_objects_have_none(objects, geos, 0);
    fresh_object_is_due(objects[next_object(objects, 0)], geos, geo, answer);
}

/// A scene triangulator whose questions are answered from the geometry of
/// the face that they are about hands out the triangles of the objects of the
/// scene, object after object, and then ends. What the triangulator is given
/// before its first question makes no difference.
pub proof fn scene_triangulator_yields_triangles(
    objects: Seq<Seq<Seq<Seq<Vertex>>>>,
    geos: Projection,
    geo: Geometry,
    answer: bool,
)
    requires
        objects_bounded(objects),
        SceneState::can_start(objects),
    ensures
        SceneState::fresh(objects).drive(geos, geo, answer) == scene_triangles(objects, geos),
{
    fresh_scene_is_due(objects, geos, geo, answer);
    scene_drive_yields_due(SceneState::fresh(objects), geos, geo, answer);
}

} // verus!
