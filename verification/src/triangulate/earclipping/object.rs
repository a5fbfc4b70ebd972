//! The triangulator of an object: its groups, one after another.

use super::group::{
    faces_bounded, fresh_group_is_due, group_due, group_hands_on, group_tracks, group_triangles,
    next_face_is_first, passed_over_faces_have_none, GroupState, GroupTriangulator,
};
use super::model::{Geometry, Projection};
use super::query::Step;
use super::tracking::hands_on;
use super::Error;
use crate::obj::{Group, Object, Vertex};
use crate::triangulate::Tri;
use vstd::prelude::*;

verus! {

/// The first group from `from` on that has a face to start with, or the
/// number of groups if there is none.
pub open spec fn next_group(groups: Seq<Seq<Seq<Vertex>>>, from: int) -> int
    decreases groups.len() - from,
{
    if from < 0 || from >= groups.len() {
        groups.len() as int
    } else if GroupState::can_start(groups[from]) {
        from
    } else {
        next_group(groups, from + 1)
    }
}

/// [`next_group`] looks no further back than `from`, passes over groups
/// without a face to start with only, and stops at a group that has one.
pub proof fn next_group_is_first(groups: Seq<Seq<Seq<Vertex>>>, from: int)
    requires
        0 <= from <= groups.len(),
    ensures
        from <= next_group(groups, from) <= groups.len(),
        forall|i: int|
            from <= i < next_group(groups, from) ==> !GroupState::can_start(#[trigger] groups[i]),
        next_group(groups, from) < groups.len() ==> GroupState::can_start(
            groups[next_group(groups, from)],
        ),
    decreases groups.len() - from,
{
    if from < groups.len() && !GroupState::can_start(groups[from]) {
        next_group_is_first(groups, from + 1);
    }
}

/// The triangles of the groups from `from` on, group after group.
pub open spec fn groups_triangles(
    groups: Seq<Seq<Seq<Vertex>>>,
    geos: Projection,
    from: int,
) -> Seq<Tri>
    decreases groups.len() - from,
{
    if from < 0 || from >= groups.len() {
        Seq::empty()
    } else {
        group_triangles(groups[from], geos) + groups_triangles(groups, geos, from + 1)
    }
}

/// The triangles of an object.
pub open spec fn object_triangles(groups: Seq<Seq<Seq<Vertex>>>, geos: Projection) -> Seq<Tri> {
    groups_triangles(groups, geos, 0)
}

/// Whether every group has numbers of faces and of vertices that a machine
/// can count.
pub open spec fn groups_bounded(groups: Seq<Seq<Seq<Vertex>>>) -> bool {
    &&& groups.len() <= usize::MAX
    &&& forall|i: int| 0 <= i < groups.len() ==> faces_bounded(#[trigger] groups[i])
}

/// The state of an object triangulator, as contracts see it.
pub struct ObjectState {
    /// The vertex loops of the object, group by group.
    pub groups: Seq<Seq<Seq<Vertex>>>,
    /// The group that is being triangulated, or the number of groups at the
    /// end.
    pub index: int,
    /// The state of the triangulator of that group.
    pub inner: GroupState,
}

impl ObjectState {
    /// Whether the object has a face to start with.
    pub open spec fn can_start(groups: Seq<Seq<Seq<Vertex>>>) -> bool {
        next_group(groups, 0) < groups.len()
    }

    /// The state in which the triangulator of an object starts: at its first
    /// group that has a face to start with.
    pub open spec fn fresh(groups: Seq<Seq<Seq<Vertex>>>) -> ObjectState {
        ObjectState {
            groups,
            index: next_group(groups, 0),
            inner: GroupState::fresh(groups[next_group(groups, 0)]),
        }
    }

    /// Whether the fields fit each other.
    pub open spec fn wf(self) -> bool {
        &&& groups_bounded(self.groups)
        &&& 0 <= self.index <= self.groups.len()
        &&& self.inner.wf()
    }

    /// The vertices of the current face that are not cut off yet.
    pub open spec fn polygon(self) -> Seq<Vertex> {
        self.inner.polygon()
    }

    /// Turns to the next group that has a face to start with, and takes the
    /// first step on it; without such a group the object is done.
    pub open spec fn refill(self, answer: bool) -> (ObjectState, Step) {
        let j = next_group(self.groups, self.index + 1);
        if j >= self.groups.len() {
            (ObjectState { index: self.groups.len() as int, ..self }, Step::Done)
        } else {
            let (then, step) = GroupState::fresh(self.groups[j]).next(answer);
            (ObjectState { index: j, inner: then, ..self }, step)
        }
    }

    /// The state after the next call and what that call returns: the step of
    /// the current group, or, when that group is done, the first step of the
    /// group that follows.
    pub open spec fn next(self, answer: bool) -> (ObjectState, Step) {
        if self.index >= self.groups.len() {
            (self, Step::Done)
        } else {
            let (then, step) = self.inner.next(answer);
            if step is Done {
                ObjectState { inner: then, ..self }.refill(answer)
            } else {
                (ObjectState { inner: then, ..self }, step)
            }
        }
    }

    /// The triangles that come out when every question is answered from the
    /// geometry of the face that it is about, from this state to the end.
    /// `geo` is the geometry of the face that was announced last, and `answer`
    /// is what the next call is given.
    pub open spec fn drive(self, geos: Projection, geo: Geometry, answer: bool) -> Seq<Tri>
        decreases
            self.groups.len() - self.index,
            self.inner.faces.len() - self.inner.index,
            self.inner.inner.polygon.len(),
            self.inner.inner.stage_rank(),
            self.inner.inner.within(),
        when self.wf()
    {
        proof {
            self.next_makes_progress(answer);
        }
        let (then, step) = self.next(answer);
        match step {
            Step::Done => Seq::empty(),
            Step::Project => then.drive(geos, geos(then.polygon()), answer),
            Step::Ask(q) => then.drive(geos, geo, geo(q)),
            Step::Emit(tri) => seq![tri] + then.drive(geos, geo, answer),
        }
    }

    /// A call leaves the state well formed, and unless it returns
    /// [`Step::Done`] the state has come closer to the end.
    pub proof fn next_makes_progress(self, answer: bool)
        requires
            self.wf(),
        ensures
            self.next(answer).0.wf(),
            !(self.next(answer).1 is Done) ==> decreases_to!(
                self.groups.len() - self.index,
                self.inner.faces.len() - self.inner.index,
                self.inner.inner.polygon.len(),
                self.inner.inner.stage_rank(),
                self.inner.inner.within()
                => self.next(answer).0.groups.len() - self.next(answer).0.index,
                self.next(answer).0.inner.faces.len() - self.next(answer).0.inner.index,
                self.next(answer).0.inner.inner.polygon.len(),
                self.next(answer).0.inner.inner.stage_rank(),
                self.next(answer).0.inner.inner.within()),
    {
        if self.index < self.groups.len() {
            self.inner.next_makes_progress(answer);
            if self.inner.next(answer).1 is Done {
                next_group_is_first(self.groups, self.index + 1);
                let j = next_group(self.groups, self.index + 1);
                if j < self.groups.len() {
                    GroupState::fresh_goes_on(self.groups[j], answer);
                    GroupState::fresh(self.groups[j]).next_makes_progress(answer);
                }
            }
        }
    }

    /// The first call on a fresh state does not end the object.
    pub proof fn fresh_goes_on(groups: Seq<Seq<Seq<Vertex>>>, answer: bool)
        requires
            groups_bounded(groups),
            Self::can_start(groups),
        ensures
            Self::fresh(groups).wf(),
            !(Self::fresh(groups).next(answer).1 is Done),
    {
        next_group_is_first(groups, 0);
        GroupState::fresh_goes_on(groups[next_group(groups, 0)], answer);
    }
}

/// Triangulates the groups of an [`Object`], one after another. Groups
/// without a face of three vertices or more are passed over.
///
/// It asks as a [`FaceTriangulator`](super::FaceTriangulator) does, about one
/// face at a time.
#[derive(Debug)]
pub struct ObjectTriangulator<'obj> {
    object: &'obj Object,
    group_index: usize,
    triangulator: GroupTriangulator<'obj>,
}

impl<'obj> View for ObjectTriangulator<'obj> {
    type V = ObjectState;

    closed spec fn view(&self) -> ObjectState {
        ObjectState {
            groups: self.object.loops(),
            index: self.group_index as int,
            inner: self.triangulator@,
        }
    }
}

impl<'obj> ObjectTriangulator<'obj> {
    /// Whether the triangulator is in a state that its own calls lead to.
    pub open spec fn wf(&self) -> bool {
        self@.wf()
    }

    /// Constructs the triangulator of `object`. An object without a face of
    /// three vertices or more has none.
    pub fn new(object: &'obj Object) -> (r: Result<Self, Error>)
        ensures
            !ObjectState::can_start(object.loops()) ==> r == Err::<Self, Error>(
                Error::NoValidGroupsFound,
            ),
            ObjectState::can_start(object.loops()) ==> r is Ok && r->Ok_0.wf() && r->Ok_0@
                == ObjectState::fresh(object.loops()),
    {
        let n: usize = object.groups.len();
        let mut group_index: usize = 0;
        proof {
            object.loops_bounded();
        }
        while group_index < n
            invariant
                n == object.groups@.len(),
                group_index <= n,
                groups_bounded(object.loops()),
                next_group(object.loops(), group_index as int) == next_group(object.loops(), 0),
            decreases n - group_index,
        {
            match GroupTriangulator::new(&object.groups[group_index]) {
                Ok(triangulator) => {
                    return Ok(Self { object, group_index, triangulator });
                },
                Err(_) => {},
            }
            group_index += 1;
        }
        Err(Error::NoValidGroupsFound)
    }

    /// The vertices of the current face that are not cut off yet. After
    /// [`Step::Project`] this is the whole loop of the face.
    pub fn polygon(&self) -> (polygon: &Vec<Vertex>)
        ensures
            polygon@ == self@.polygon(),
    {
        self.triangulator.polygon()
    }

    /// Takes the answer to the question that the last call asked, and goes on
    /// to the next question, the next triangle, or the end.
    pub fn next(&mut self, answer: bool) -> (step: Step)
        requires
            old(self).wf(),
        ensures
            final(self).wf(),
            (final(self)@, step) == old(self)@.next(answer),
    {
        let n: usize = self.object.groups.len();
        if self.group_index >= n {
            return Step::Done;
        }
        let step = self.triangulator.next(answer);
        match step {
            Step::Done => {},
            _ => {
                return step;
            },
        }
        let ghost before = self@;
        let mut j: usize = self.group_index + 1;
        while j < n
            invariant
                n == self.object.groups@.len(),
                self.group_index < j <= n,
                self@ == before,
                self.wf(),
                old(self)@.next(answer) == before.refill(answer),
                next_group(before.groups, j as int) == next_group(before.groups, before.index + 1),
            decreases n - j,
        {
            match GroupTriangulator::new(&self.object.groups[j]) {
                Ok(triangulator) => {
                    proof {
                        GroupState::fresh_goes_on(before.groups[j as int], answer);
                    }
                    self.triangulator = triangulator;
                    self.group_index = j;
                    return self.triangulator.next(answer);
                },
                Err(_) => {},
            }
            j += 1;
        }
        self.group_index = n;
        Step::Done
    }
}

/// Whether the state is one that answers from the faces' geometries lead to,
/// where `geo` is the geometry of the face that was announced last and
/// `answer` is what it answers to the question that is open.
pub open spec fn object_tracks(s: ObjectState, geo: Geometry, answer: bool) -> bool {
    s.index < s.groups.len() ==> group_tracks(s.inner, geo, answer)
}

/// The triangles that are still to come from the state.
pub open spec fn object_due(s: ObjectState, geos: Projection, geo: Geometry) -> Seq<Tri> {
    if s.index < s.groups.len() {
        group_due(s.inner, geos, geo) + groups_triangles(s.groups, geos, s.index + 1)
    } else {
        Seq::empty()
    }
}

/// The groups that [`next_group`] passes over have no triangles.
pub proof fn passed_over_groups_have_none(
    groups: Seq<Seq<Seq<Vertex>>>,
    geos: Projection,
    from: int,
)
    requires
        0 <= from <= groups.len(),
    ensures
        groups_triangles(groups, geos, from) == groups_triangles(
            groups,
            geos,
            next_group(groups, from),
        ),
    decreases groups.len() - from,
{
    if from < groups.len() && !GroupState::can_start(groups[from]) {
        passed_over_groups_have_none(groups, geos, from + 1);
        next_face_is_first(groups[from], 0);
        passed_over_faces_have_none(groups[from], geos, 0);
    }
}

/// One call of an object triangulator, answered from `geo`, hands the
/// triangles to come on, and leaves a state that answers lead to.
pub proof fn object_hands_on(s: ObjectState, geos: Projection, geo: Geometry, answer: bool)
    requires
        s.wf(),
        object_tracks(s, geo, answer),
    ensures
        ({
            let (then, step) = s.next(answer);
            let anew = geos(then.polygon());
            &&& hands_on(
                object_due(s, geos, geo),
                step,
                object_due(then, geos, geo),
                object_due(then, geos, anew),
            )
            &&& match step {
                Step::Done => true,
                Step::Project => forall|a: bool| object_tracks(then, anew, a),
                Step::Ask(q) => object_tracks(then, geo, geo(q)),
                Step::Emit(tri) => forall|a: bool| object_tracks(then, geo, a),
            }
        }),
{
    if s.index < s.groups.len() {
        let rest = groups_triangles(s.groups, geos, s.index + 1);
        group_hands_on(s.inner, geos, geo, answer);
        let (inner, step) = s.inner.next(answer);
        if step is Done {
            next_group_is_first(s.groups, s.index + 1);
            passed_over_groups_have_none(s.groups, geos, s.index + 1);
            let j = next_group(s.groups, s.index + 1);
            if j < s.groups.len() {
                let fresh = GroupState::fresh(s.groups[j]);
                let later = groups_triangles(s.groups, geos, j + 1);
                fresh_group_is_due(s.groups[j], geos, geo, answer);
                group_hands_on(fresh, geos, geo, answer);
                GroupState::fresh_goes_on(s.groups[j], answer);
                let (then, first) = fresh.next(answer);
                match first {
                    Step::Emit(tri) => {
                        assert((seq![tri] + group_due(then, geos, geo)) + later == seq![tri] + (
                        group_due(then, geos, geo) + later));
                    },
                    _ => {},
                }
            }
        } else {
            match step {
                Step::Emit(tri) => {
                    assert((seq![tri] + group_due(inner, geos, geo)) + rest == seq![tri] + (
                    group_due(inner, geos, geo) + rest));
                },
                _ => {},
            }
        }
    }
}

/// From a state that answers lead to, the triangulator hands out the
/// triangles that are still to come, and no others.
pub proof fn object_drive_yields_due(s: ObjectState, geos: Projection, geo: Geometry, answer: bool)
    requires
        s.wf(),
        object_tracks(s, geo, answer),
    ensures
        s.drive(geos, geo, answer) == object_due(s, geos, geo),
    decreases
        s.groups.len() - s.index,
        s.inner.faces.len() - s.inner.index,
        s.inner.inner.polygon.len(),
        s.inner.inner.stage_rank(),
        s.inner.inner.within(),
{
    s.next_makes_progress(answer);
    object_hands_on(s, geos, geo, answer);
    let (then, step) = s.next(answer);
    match step {
        Step::Done => {},
        Step::Project => object_drive_yields_due(then, geos, geos(then.polygon()), answer),
        Step::Ask(q) => object_drive_yields_due(then, geos, geo, geo(q)),
        Step::Emit(tri) => object_drive_yields_due(then, geos, geo, answer),
    }
}

/// All the triangles of the object are still to come from its fresh state.
pub proof fn fresh_object_is_due(
    groups: Seq<Seq<Seq<Vertex>>>,
    geos: Projection,
    geo: Geometry,
    answer: bool,
)
    requires
        groups_bounded(groups),
        ObjectState::can_start(groups),
    ensures
        ObjectState::fresh(groups).wf(),
        object_tracks(ObjectState::fresh(groups), geo, answer),
        object_due(ObjectState::fresh(groups), geos, geo) == object_triangles(groups, geos),
{
    next_group_is_first(groups, 0);
    passed_over_groups_have_none(groups, geos, 0);
    fresh_group_is_due(groups[next_group(groups, 0)], geos, geo, answer);
}

/// An object triangulator whose questions are answered from the geometry of
/// the face that they are about hands out the triangles of the groups of the
/// object, group after group, and then ends. What the triangulator is given
/// before its first question makes no difference.
pub proof fn object_triangulator_yields_triangles(
    groups: Seq<Seq<Seq<Vertex>>>,
    geos: Projection,
    geo: Geometry,
    answer: bool,
)
    requires
        groups_bounded(groups),
        ObjectState::can_start(groups),
    ensures
        ObjectState::fresh(groups).drive(geos, geo, answer) == object_triangles(groups, geos),
{
    fresh_object_is_due(groups, geos, geo, answer);
    object_drive_yields_due(ObjectState::fresh(groups), geos, geo, answer);
}

} // verus!
