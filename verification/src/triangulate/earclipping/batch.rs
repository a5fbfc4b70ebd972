//! The triangulation of one polygon as a whole.

use super::face::{FaceState, FaceTriangulator, Stage};
use super::model::{face_complete, face_triangles, Geometry};
use super::query::Step;
use super::tracking::{fate, fresh_tracks, next_carries_on, tracks};
use super::Error;
use crate::obj::Vertex;
use crate::triangulate::{Tri, Triangulation};
use vstd::prelude::*;

verus! {

/// The state of a [`BatchTriangulator`], as contracts see it.
pub struct BatchState {
    /// The state of the clipping.
    pub clipper: FaceState,
    /// The triangles that were cut off so far.
    pub triangles: Seq<Tri>,
}

impl BatchState {
    /// The state in which the triangulation of a polygon starts.
    pub open spec fn fresh(polygon: Seq<Vertex>) -> BatchState {
        BatchState { clipper: FaceState::fresh(polygon), triangles: Seq::empty() }
    }

    /// Whether the fields fit each other.
    pub open spec fn wf(self) -> bool {
        self.clipper.wf()
    }

    /// The state after the next call and what that call returns: the clipping
    /// takes its step, and a triangle that it hands out is kept.
    pub open spec fn next(self, answer: bool) -> (BatchState, Step) {
        let (then, step) = self.clipper.next(answer);
        (
            BatchState {
                clipper: then,
                triangles: match step {
                    Step::Emit(tri) => self.triangles.push(tri),
                    _ => self.triangles,
                },
            },
            step,
        )
    }

    /// Whether the triangulation has ended.
    pub open spec fn ended(self) -> bool {
        self.clipper.ended()
    }

    /// What the triangulation comes to, once it has ended: every triangle, or
    /// the failure of a search.
    pub open spec fn outcome(self) -> Result<Seq<Tri>, Error> {
        if self.clipper.stage is Failed {
            Err(Error::NoEarFound)
        } else {
            Ok(self.triangles)
        }
    }

    /// What the triangulation comes to when every question is answered from
    /// `geo`, from this state to the end. `answer` is what the next call is
    /// given.
    pub open spec fn drive(self, geo: Geometry, answer: bool) -> Result<Seq<Tri>, Error>
        decreases self.clipper.polygon.len(), self.clipper.stage_rank(), self.clipper.within(),
        when self.wf()
    {
        proof {
            self.clipper.next_makes_progress(answer);
        }
        let (then, step) = self.next(answer);
        match step {
            Step::Done => then.outcome(),
            Step::Ask(q) => then.drive(geo, geo(q)),
            _ => then.drive(geo, answer),
        }
    }
}

/// The triangulation of a polygon under `geo`: all its triangles, or the
/// reason why there are none.
pub open spec fn triangulation(polygon: Seq<Vertex>, geo: Geometry) -> Result<Seq<Tri>, Error> {
    if polygon.len() < 3 {
        Err(Error::TooFewVertices)
    } else if face_complete(polygon, geo) {
        Ok(face_triangles(polygon, geo))
    } else {
        Err(Error::NoEarFound)
    }
}

/// Triangulates one polygon and keeps the triangles until the end.
///
/// It asks as a [`FaceTriangulator`] does. When [`next`] has returned
/// [`Step::Done`] the triangulation has ended, and [`finish`] gives it.
///
/// [`next`]: BatchTriangulator::next
/// [`finish`]: BatchTriangulator::finish
#[derive(Debug)]
pub struct BatchTriangulator {
    clipper: FaceTriangulator,
    triangles: Vec<Tri>,
}

impl View for BatchTriangulator {
    type V = BatchState;

    closed spec fn view(&self) -> BatchState {
        BatchState { clipper: self.clipper@, triangles: self.triangles@ }
    }
}

/// Starts the triangulation of the given polygon. A polygon of fewer than
/// three vertices has none.
pub fn triangulate(polygon: Vec<Vertex>) -> (r: Result<BatchTriangulator, Error>)
    ensures
        polygon@.len() < 3 ==> r == Err::<BatchTriangulator, Error>(Error::TooFewVertices),
        polygon@.len() >= 3 ==> r is Ok && r->Ok_0.wf() && r->Ok_0@ == BatchState::fresh(polygon@),
{
    let n: usize = polygon.len();
    match FaceTriangulator::from_polygon(polygon) {
        Ok(clipper) => Ok(BatchTriangulator { clipper, triangles: Vec::with_capacity(n - 2) }),
        Err(e) => Err(e),
    }
}

impl BatchTriangulator {
    /// Whether the triangulator is in a state that its own calls lead to.
    pub open spec fn wf(&self) -> bool {
        self@.wf()
    }

    /// The vertices that are not cut off yet. After [`Step::Project`] this is
    /// the whole polygon.
    pub fn polygon(&self) -> (polygon: &Vec<Vertex>)
        ensures
            polygon@ == self@.clipper.polygon,
    {
        self.clipper.polygon()
    }

    /// Takes the answer to the question that the last call asked, and goes on
    /// to the next question, the next triangle, or the end.
    pub fn next(&mut self, answer: bool) -> (step: Step)
        requires
            old(self).wf(),
        ensures
            final(self).wf(),
            (final(self)@, step) == old(self)@.next(answer),
            step is Done ==> final(self)@.ended(),
    {
        proof {
            self.clipper@.done_is_the_end(answer);
        }
        let step = self.clipper.next(answer);
        match step {
            Step::Emit(tri) => self.triangles.push(tri),
            _ => {},
        }
        step
    }

    /// Whether the triangulation has ended: [`next`](Self::next) has
    /// returned [`Step::Done`], or would.
    pub fn has_ended(&self) -> (ended: bool)
        ensures
            ended == self@.ended(),
    {
        self.clipper.has_ended()
    }

    /// The triangulation, once it has ended: the triangles in the order in
    /// which they were cut off, or [`Error::NoEarFound`] if a search found no
    /// ear.
    pub fn finish(self) -> (r: Result<Triangulation, Error>)
        requires
            self@.ended(),
        ensures
            match self@.outcome() {
                Ok(triangles) => r is Ok && r->Ok_0@ == triangles,
                Err(e) => r == Err::<Triangulation, Error>(e),
            },
    {
        if self.clipper.has_failed() {
            Err(Error::NoEarFound)
        } else {
            Ok(self.triangles)
        }
    }
}

/// From a state that answers from `geo` lead to, the triangulation comes to
/// the triangles so far and those to come, or to the failure that is to come.
proof fn drive_yields_outcome(s: BatchState, geo: Geometry, answer: bool)
    requires
        s.wf(),
        tracks(s.clipper, geo, answer),
    ensures
        s.drive(geo, answer) == if fate(s.clipper, geo).1 {
            Ok::<Seq<Tri>, Error>(s.triangles + fate(s.clipper, geo).0)
        } else {
            Err::<Seq<Tri>, Error>(Error::NoEarFound)
        },
    decreases s.clipper.polygon.len(), s.clipper.stage_rank(), s.clipper.within(),
{
    s.clipper.next_makes_progress(answer);
    next_carries_on(s.clipper, geo, answer);
    let (then, step) = s.next(answer);
    match step {
        Step::Done => {},
        Step::Project => drive_yields_outcome(then, geo, answer),
        Step::Ask(q) => drive_yields_outcome(then, geo, geo(q)),
        Step::Emit(tri) => {
            drive_yields_outcome(then, geo, answer);
            assert(s.triangles.push(tri) + fate(then.clipper, geo).0 == s.triangles + (seq![tri]
                + fate(then.clipper, geo).0));
        },
    }
}

/// A triangulation that succeeds has two triangles fewer than the polygon has
/// vertices.
pub proof fn triangulation_counts(polygon: Seq<Vertex>, geo: Geometry)
    ensures
        triangulation(polygon, geo) matches Ok(triangles) ==> triangles.len() == polygon.len() - 2,
{
    if polygon.len() >= 3 {
        super::laws::face_counts(polygon, geo);
    }
}

/// A batch triangulator whose questions are answered from `geo` comes to the
/// triangulation of the polygon under `geo`. What it is given with the first
/// call makes no difference.
pub proof fn batch_triangulator_yields_triangulation(
    polygon: Seq<Vertex>,
    geo: Geometry,
    answer: bool,
)
    requires
        3 <= polygon.len() <= usize::MAX,
    ensures
        BatchState::fresh(polygon).drive(geo, answer) == triangulation(polygon, geo),
{
    fresh_tracks(polygon, geo, answer);
    drive_yields_outcome(BatchState::fresh(polygon), geo, answer);
}

} // verus!
