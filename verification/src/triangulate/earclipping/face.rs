//! The triangulator of a single face.

use super::model::Geometry;
use super::query::{after, before, corner, corner_at, Query, Step};
use super::Error;
use crate::obj::{Face, Vertex};
use crate::triangulate::Tri;
use vstd::prelude::*;

verus! {

/// Where a face triangulator stands between two calls.
#[derive(Debug, Clone, Copy, PartialEq, Eq)]
pub enum Stage {
    /// Nothing has been asked about the face yet.
    Fresh,
    /// The face was announced; the search for its extreme vertex is next.
    Projecting,
    /// Asked whether the vertex at `probe` precedes the one at `best`, the
    /// extreme vertex among those before `probe`.
    Extreme { probe: usize, best: usize },
    /// Asked how the corner at the extreme vertex winds.
    Orient,
    /// Between two triangles.
    Ready,
    /// Asked how the corner at `ear` winds.
    Turn { ear: usize },
    /// Asked whether the reflex vertex recorded at `slot` lies within the
    /// corner at `ear`.
    Reflex { ear: usize, slot: usize },
    /// Asked whether the vertex at `other` falls on corner number `corner` of
    /// the triangle at `ear`.
    Corner { ear: usize, other: usize, corner: usize },
    /// Asked whether the vertex at `other` lies within the corner at `ear`.
    Inside { ear: usize, other: usize },
    /// A search found no ear.
    Failed,
}

/// Whether every recorded index lies before `e`.
pub open spec fn all_below(indices: Seq<usize>, e: int) -> bool {
    forall|i: int| 0 <= i < indices.len() ==> (#[trigger] indices[i]) < e
}

/// The state of a face triangulator, as contracts see it.
pub struct FaceState {
    /// The vertices that are not cut off yet, in loop order.
    pub polygon: Seq<Vertex>,
    /// Whether the face runs counter-clockwise, once that is known.
    pub winding: bool,
    /// The candidates of the current search that wind against the face.
    pub reflex: Seq<usize>,
    pub stage: Stage,
}

impl FaceState {
    /// The state in which the triangulator of a face starts.
    pub open spec fn fresh(polygon: Seq<Vertex>) -> FaceState {
        FaceState { polygon, winding: false, reflex: Seq::empty(), stage: Stage::Fresh }
    }

    /// Whether the fields fit each other.
    pub open spec fn wf(self) -> bool {
        let n = self.polygon.len();
        n <= usize::MAX && match self.stage {
            Stage::Fresh | Stage::Ready => true,
            Stage::Failed => n == 0,
            Stage::Projecting | Stage::Orient => n >= 4,
            Stage::Extreme { probe, best } => n >= 4 && 1 <= probe < n && best < probe,
            Stage::Turn { ear } => self.searching(ear as int),
            Stage::Reflex { ear, slot } => self.searching(ear as int) && slot < self.reflex.len(),
            Stage::Corner { ear, other, corner } => self.searching(ear as int) && ear < other < n
                && corner < 3,
            Stage::Inside { ear, other } => self.searching(ear as int) && ear < other < n,
        }
    }

    /// Whether a search can stand at candidate `e`.
    pub open spec fn searching(self, e: int) -> bool {
        &&& self.polygon.len() >= 4
        &&& 0 <= e < self.polygon.len() - 1
        &&& self.reflex.len() <= e
        &&& all_below(self.reflex, e)
    }

    /// A bound on the calls that the current search can still take at its
    /// candidate, given the stage: it falls with every question.
    pub open spec fn stage_rank(self) -> int {
        let n = self.polygon.len() as int;
        match self.stage {
            Stage::Fresh => 2 * n + 2,
            Stage::Projecting => 2 * n + 1,
            Stage::Extreme { probe, best } => 2 * n + 1 - probe,
            Stage::Orient => n + 1,
            Stage::Ready => n + 1,
            Stage::Turn { ear } => n - ear,
            Stage::Reflex { ear, slot } => n - ear,
            Stage::Corner { ear, other, corner } => n - ear,
            Stage::Inside { ear, other } => n - ear,
            Stage::Failed => 0,
        }
    }

    /// How far the search is from the end of its work on one candidate.
    pub open spec fn within(self) -> int {
        let n = self.polygon.len() as int;
        match self.stage {
            Stage::Turn { ear } => 4 * n + self.reflex.len() + 1,
            Stage::Reflex { ear, slot } => 4 * n + self.reflex.len() - slot,
            Stage::Corner { ear, other, corner } => 4 * (n - other) - corner,
            Stage::Inside { ear, other } => 4 * (n - other) - 3,
            _ => 0,
        }
    }

    /// Whether there is nothing more to come: a search has failed, or fewer
    /// than three vertices are left between two triangles.
    pub open spec fn ended(self) -> bool {
        self.stage is Failed || (self.stage is Ready && self.polygon.len() < 3)
    }

    /// How many more triangles there can be.
    pub open spec fn remaining(self) -> nat {
        if self.polygon.len() < 3 {
            0
        } else {
            (self.polygon.len() - 2) as nat
        }
    }

    /// Hands out a face of three vertices as it stands: nothing is asked
    /// about it. With fewer vertices there is nothing to hand out.
    pub open spec fn whole(self) -> (FaceState, Step) {
        if self.polygon.len() == 3 {
            (
                FaceState { polygon: self.polygon.remove(1), stage: Stage::Ready, ..self },
                Step::Emit(corner(self.polygon, 1)),
            )
        } else {
            (FaceState { stage: Stage::Ready, ..self }, Step::Done)
        }
    }

    /// Turns to the next triangle. Up to two vertices give none. Three
    /// vertices that are left of a longer loop are the last triangle, and
    /// nothing is asked about it: it is the corner at the first of them. Of
    /// more vertices the candidates for an ear are tried from the first.
    pub open spec fn search(self) -> (FaceState, Step) {
        if self.polygon.len() < 3 {
            (FaceState { stage: Stage::Ready, ..self }, Step::Done)
        } else if self.polygon.len() == 3 {
            (
                FaceState { polygon: self.polygon.remove(0), stage: Stage::Ready, ..self },
                Step::Emit(corner(self.polygon, 0)),
            )
        } else {
            FaceState { reflex: Seq::empty(), ..self }.candidate(0)
        }
    }

    /// Turns to candidate `e`. The last vertex of the loop is no candidate:
    /// when `e` reaches it the search has failed, and the polygon is given up.
    pub open spec fn candidate(self, e: int) -> (FaceState, Step) {
        if e >= self.polygon.len() - 1 {
            (FaceState { polygon: Seq::empty(), stage: Stage::Failed, ..self }, Step::Done)
        } else {
            (
                FaceState { stage: Stage::Turn { ear: e as usize }, ..self },
                Step::Ask(Query::Winding { tri: corner(self.polygon, e) }),
            )
        }
    }

    /// The first slot from `from` on whose reflex vertex is no neighbour of
    /// `e`, or the number of slots if there is none.
    pub open spec fn unrelated_slot(self, e: int, from: int) -> int
        decreases self.reflex.len() - from,
    {
        let n = self.polygon.len() as int;
        if from < 0 || from >= self.reflex.len() {
            self.reflex.len() as int
        } else if self.reflex[from] != before(e, n) && self.reflex[from] != after(e, n) {
            from
        } else {
            self.unrelated_slot(e, from + 1)
        }
    }

    /// Holds the recorded reflex vertices against the corner at `e`, from slot
    /// `from` on; the neighbours of `e` are passed over. With none left the
    /// vertices after `e` follow.
    pub open spec fn probe_reflex(self, e: int, from: int) -> (FaceState, Step) {
        let slot = self.unrelated_slot(e, from);
        if slot < self.reflex.len() {
            (
                FaceState { stage: Stage::Reflex { ear: e as usize, slot: slot as usize }, ..self },
                Step::Ask(
                    Query::Contains {
                        tri: corner(self.polygon, e),
                        p: self.polygon[self.reflex[slot] as int],
                    },
                ),
            )
        } else {
            self.probe_rest(e, e + 1)
        }
    }

    /// Holds the vertices from `other` on against the corner at `e`. With none
    /// left the corner is an ear: it is cut off.
    pub open spec fn probe_rest(self, e: int, other: int) -> (FaceState, Step) {
        if other >= self.polygon.len() {
            (
                FaceState { polygon: self.polygon.remove(e), stage: Stage::Ready, ..self },
                Step::Emit(corner(self.polygon, e)),
            )
        } else {
            (
                FaceState {
                    stage: Stage::Corner { ear: e as usize, other: other as usize, corner: 0 },
                    ..self
                },
                Step::Ask(
                    Query::Coincides { p: corner(self.polygon, e)[0], q: self.polygon[other] },
                ),
            )
        }
    }

    /// The state after the next call and what that call returns, where
    /// `answer` answers the question that the call before it asked.
    pub open spec fn next(self, answer: bool) -> (FaceState, Step) {
        let n = self.polygon.len();
        match self.stage {
            Stage::Fresh => if n <= 3 {
                self.whole()
            } else {
                (FaceState { stage: Stage::Projecting, ..self }, Step::Project)
            },
            Stage::Projecting => (
                FaceState { stage: Stage::Extreme { probe: 1, best: 0 }, ..self },
                Step::Ask(Query::Precedes { p: self.polygon[1], q: self.polygon[0] }),
            ),
            Stage::Extreme { probe, best } => {
                let best = if answer {
                    probe
                } else {
                    best
                };
                if probe + 1 < n {
                    (
                        FaceState {
                            stage: Stage::Extreme { probe: (probe + 1) as usize, best },
                            ..self
                        },
                        Step::Ask(
                            Query::Precedes {
                                p: self.polygon[probe + 1],
                                q: self.polygon[best as int],
                            },
                        ),
                    )
                } else {
                    (
                        FaceState { stage: Stage::Orient, ..self },
                        Step::Ask(Query::Winding { tri: corner(self.polygon, best as int) }),
                    )
                }
            },
            Stage::Orient => FaceState { winding: answer, ..self }.search(),
            Stage::Ready => self.search(),
            Stage::Turn { ear } => if answer != self.winding {
                FaceState { reflex: self.reflex.push(ear), ..self }.candidate(ear + 1)
            } else {
                self.probe_reflex(ear as int, 0)
            },
            Stage::Reflex { ear, slot } => if answer {
                self.candidate(ear + 1)
            } else {
                self.probe_reflex(ear as int, slot + 1)
            },
            Stage::Corner { ear, other, corner: c } => if answer {
                self.probe_rest(ear as int, other + 1)
            } else if c < 2 {
                (
                    FaceState {
                        stage: Stage::Corner { ear, other, corner: (c + 1) as usize },
                        ..self
                    },
                    Step::Ask(
                        Query::Coincides {
                            p: corner(self.polygon, ear as int)[c + 1],
                            q: self.polygon[other as int],
                        },
                    ),
                )
            } else {
                (
                    FaceState { stage: Stage::Inside { ear, other }, ..self },
                    Step::Ask(
                        Query::Contains {
                            tri: corner(self.polygon, ear as int),
                            p: self.polygon[other as int],
                        },
                    ),
                )
            },
            Stage::Inside { ear, other } => if answer {
                self.candidate(ear + 1)
            } else {
                self.probe_rest(ear as int, other + 1)
            },
            Stage::Failed => (self, Step::Done),
        }
    }

    /// The triangles that come out when every question is answered from
    /// `geo`, from this state to the end. `answer` is what the next call is
    /// given.
    pub open spec fn drive(self, geo: Geometry, answer: bool) -> Seq<Tri>
        decreases self.polygon.len(), self.stage_rank(), self.within(),
        when self.wf()
    {
        proof {
            self.next_makes_progress(answer);
        }
        let (then, step) = self.next(answer);
        match step {
            Step::Done => Seq::empty(),
            Step::Project => then.drive(geo, answer),
            Step::Ask(q) => then.drive(geo, geo(q)),
            Step::Emit(tri) => seq![tri] + then.drive(geo, answer),
        }
    }

    /// [`unrelated_slot`](Self::unrelated_slot) looks no further back than
    /// `from`, passes over neighbours of `e` only, and stops at a slot that
    /// holds none.
    pub proof fn unrelated_slot_is_first(self, e: int, from: int)
        requires
            0 <= from <= self.reflex.len(),
        ensures
            from <= self.unrelated_slot(e, from) <= self.reflex.len(),
            forall|i: int|
                from <= i < self.unrelated_slot(e, from) ==> {
                    ||| #[trigger] self.reflex[i] == before(e, self.polygon.len() as int)
                    ||| self.reflex[i] == after(e, self.polygon.len() as int)
                },
            self.unrelated_slot(e, from) < self.reflex.len() ==> {
                &&& self.reflex[self.unrelated_slot(e, from)] != before(
                    e,
                    self.polygon.len() as int,
                )
                &&& self.reflex[self.unrelated_slot(e, from)] != after(
                    e,
                    self.polygon.len() as int,
                )
            },
        decreases self.reflex.len() - from,
    {
        let n = self.polygon.len() as int;
        if from < self.reflex.len() && (self.reflex[from] == before(e, n) || self.reflex[from]
            == after(e, n)) {
            self.unrelated_slot_is_first(e, from + 1);
        }
    }

    /// A call that returns [`Step::Done`] leaves a state that has ended, and a
    /// state that has ended stays as it is and returns [`Step::Done`].
    pub proof fn done_is_the_end(self, answer: bool)
        requires
            self.wf(),
        ensures
            self.next(answer).1 is Done ==> self.next(answer).0.ended(),
            self.ended() ==> self.next(answer).1 is Done && self.next(answer).0.ended(),
    {
        match self.stage {
            Stage::Turn { ear } => {
                self.unrelated_slot_is_first(ear as int, 0);
            },
            Stage::Reflex { ear, slot } => {
                self.unrelated_slot_is_first(ear as int, slot + 1);
            },
            _ => {},
        }
    }

    /// A call leaves the state well formed, and unless it returns
    /// [`Step::Done`] the state has come closer to the end: no triangulator
    /// goes on for ever.
    pub proof fn next_makes_progress(self, answer: bool)
        requires
            self.wf(),
        ensures
            self.next(answer).0.wf(),
            !(self.next(answer).1 is Done) ==> decreases_to!(
                self.polygon.len(), self.stage_rank(), self.within()
                => self.next(answer).0.polygon.len(), self.next(answer).0.stage_rank(), self.next(answer).0.within()),
    {
        match self.stage {
            Stage::Turn { ear } => {
                if answer == self.winding {
                    self.unrelated_slot_is_first(ear as int, 0);
                }
            },
            Stage::Reflex { ear, slot } => {
                if !answer {
                    self.unrelated_slot_is_first(ear as int, slot + 1);
                }
            },
            _ => {},
        }
    }
}

/// Triangulates one face, ear by ear.
///
/// The triangulator computes no geometry. Each call of [`next`] hands back
/// one [`Step`]: a question about the face, a triangle, or the end. The caller
/// answers a question with the call that follows it.
///
/// [`next`]: FaceTriangulator::next
#[derive(Debug)]
pub struct FaceTriangulator {
    polygon: Vec<Vertex>,
    polygon_winding: bool,
    reflex_indices: Vec<usize>,
    stage: Stage,
}

impl View for FaceTriangulator {
    type V = FaceState;

    closed spec fn view(&self) -> FaceState {
        FaceState {
            polygon: self.polygon@,
            winding: self.polygon_winding,
            reflex: self.reflex_indices@,
            stage: self.stage,
        }
    }
}

impl FaceTriangulator {
    /// Whether the triangulator is in a state that its own calls lead to.
    pub open spec fn wf(&self) -> bool {
        self@.wf()
    }

    /// Constructs the triangulator of `face`. A face with fewer than three
    /// vertices has none.
    pub fn new(face: &Face) -> (r: Result<Self, Error>)
        ensures
            face.vertices().len() < 3 ==> r == Err::<Self, Error>(Error::TooFewVertices),
            face.vertices().len() >= 3 ==> r is Ok && r->Ok_0.wf() && r->Ok_0@ == FaceState::fresh(
                face.vertices(),
            ),
    {
        Self::from_polygon(face.to_polygon())
    }

    /// Constructs the triangulator of a vertex loop. A loop of fewer than
    /// three vertices has none.
    pub fn from_polygon(polygon: Vec<Vertex>) -> (r: Result<Self, Error>)
        ensures
            polygon@.len() < 3 ==> r == Err::<Self, Error>(Error::TooFewVertices),
            polygon@.len() >= 3 ==> r is Ok && r->Ok_0.wf() && r->Ok_0@ == FaceState::fresh(
                polygon@,
            ),
    {
        if polygon.len() < 3 {
            return Err(Error::TooFewVertices);
        }
        Ok(
            FaceTriangulator {
                polygon,
                polygon_winding: false,
                reflex_indices: Vec::new(),
                stage: Stage::Fresh,
            },
        )
    }

    /// The vertices that are not cut off yet. After [`Step::Project`] this is
    /// the whole loop of the face.
    pub fn polygon(&self) -> (polygon: &Vec<Vertex>)
        ensures
            polygon@ == self@.polygon,
    {
        &self.polygon
    }

    /// Whether there is nothing more to come.
    pub fn has_ended(&self) -> (ended: bool)
        ensures
            ended == self@.ended(),
    {
        match self.stage {
            Stage::Failed => true,
            Stage::Ready => self.polygon.len() < 3,
            _ => false,
        }
    }

    /// Whether a search has found no ear.
    pub fn has_failed(&self) -> (failed: bool)
        ensures
            failed == (self@.stage is Failed),
    {
        match self.stage {
            Stage::Failed => true,
            _ => false,
        }
    }

    /// The number of triangles that are still to come, if no search fails.
    pub fn size_hint(&self) -> (hint: (usize, Option<usize>))
        ensures
            hint.0 == self@.remaining(),
            hint.1 == Some(hint.0),
    {
        let n: usize = self.polygon.len();
        let count: usize = if n < 2 { 0 } else { n - 2 };
        (count, Some(count))
    }

    fn whole(&mut self) -> (step: Step)
        ensures
            final(self).wf(),
            (final(self)@, step) == old(self)@.whole(),
    {
        if self.polygon.len() == 3 {
            let tri = corner_at(&self.polygon, 1);
            self.polygon.remove(1);
            self.stage = Stage::Ready;
            Step::Emit(tri)
        } else {
            self.stage = Stage::Ready;
            Step::Done
        }
    }

    fn search(&mut self) -> (step: Step)
        ensures
            final(self).wf(),
            (final(self)@, step) == old(self)@.search(),
    {
        let n: usize = self.polygon.len();
        if n < 3 {
            self.stage = Stage::Ready;
            Step::Done
        } else if n == 3 {
            let tri = corner_at(&self.polygon, 0);
            self.polygon.remove(0);
            self.stage = Stage::Ready;
            Step::Emit(tri)
        } else {
            self.reflex_indices.clear();
            self.candidate(0)
        }
    }

    fn candidate(&mut self, e: usize) -> (step: Step)
        requires
            old(self)@.polygon.len() >= 4,
            e <= old(self)@.polygon.len() - 1,
            old(self)@.reflex.len() <= e,
            all_below(old(self)@.reflex, e as int),
        ensures
            final(self).wf(),
            (final(self)@, step) == old(self)@.candidate(e as int),
    {
        if e >= self.polygon.len() - 1 {
            self.polygon.clear();
            self.stage = Stage::Failed;
            Step::Done
        } else {
            self.stage = Stage::Turn { ear: e };
            Step::Ask(Query::Winding { tri: corner_at(&self.polygon, e) })
        }
    }

    fn probe_reflex(&mut self, e: usize, from: usize) -> (step: Step)
        requires
            old(self)@.searching(e as int),
            from <= old(self)@.reflex.len(),
        ensures
            final(self).wf(),
            (final(self)@, step) == old(self)@.probe_reflex(e as int, from as int),
    {
        let max_index: usize = self.polygon.len() - 1;
        let prev: usize = if e > 0 { e - 1 } else { max_index };
        let next: usize = if e < max_index { e + 1 } else { 0 };
        let mut slot: usize = from;
        while slot < self.reflex_indices.len() && (self.reflex_indices[slot] == prev
            || self.reflex_indices[slot] == next)
            invariant
                self@ == old(self)@,
                self@.searching(e as int),
                from <= slot <= self@.reflex.len(),
                prev == before(e as int, self@.polygon.len() as int),
                next == after(e as int, self@.polygon.len() as int),
                self@.unrelated_slot(e as int, slot as int) == self@.unrelated_slot(
                    e as int,
                    from as int,
                ),
            decreases self@.reflex.len() - slot,
        {
            slot += 1;
        }
        if slot < self.reflex_indices.len() {
            let tri = corner_at(&self.polygon, e);
            let p: Vertex = self.polygon[self.reflex_indices[slot]];
            self.stage = Stage::Reflex { ear: e, slot };
            Step::Ask(Query::Contains { tri, p })
        } else {
            self.probe_rest(e, e + 1)
        }
    }

    fn probe_rest(&mut self, e: usize, other: usize) -> (step: Step)
        requires
            old(self)@.searching(e as int),
            e < other <= old(self)@.polygon.len(),
        ensures
            final(self).wf(),
            (final(self)@, step) == old(self)@.probe_rest(e as int, other as int),
    {
        let tri = corner_at(&self.polygon, e);
        if other >= self.polygon.len() {
            self.polygon.remove(e);
            self.stage = Stage::Ready;
            Step::Emit(tri)
        } else {
            self.stage = Stage::Corner { ear: e, other, corner: 0 };
            Step::Ask(Query::Coincides { p: tri[0], q: self.polygon[other] })
        }
    }

    /// Takes the answer to the question that the last call asked, and goes on
    /// to the next question, the next triangle, or the end.
    pub fn next(&mut self, answer: bool) -> (step: Step)
        requires
            old(self).wf(),
        ensures
            final(self).wf(),
            (final(self)@, step) == old(self)@.next(answer),
    {
        let n: usize = self.polygon.len();
        match self.stage {
            Stage::Fresh => {
                if n <= 3 {
                    self.whole()
                } else {
                    self.stage = Stage::Projecting;
                    Step::Project
                }
            },
            Stage::Projecting => {
                self.stage = Stage::Extreme { probe: 1, best: 0 };
                Step::Ask(Query::Precedes { p: self.polygon[1], q: self.polygon[0] })
            },
            Stage::Extreme { probe, best } => {
                let best: usize = if answer { probe } else { best };
                if probe + 1 < n {
                    self.stage = Stage::Extreme { probe: probe + 1, best };
                    Step::Ask(Query::Precedes { p: self.polygon[probe + 1], q: self.polygon[best] })
                } else {
                    self.stage = Stage::Orient;
                    Step::Ask(Query::Winding { tri: corner_at(&self.polygon, best) })
                }
            },
            Stage::Orient => {
                self.polygon_winding = answer;
                self.search()
            },
            Stage::Ready => self.search(),
            Stage::Turn { ear } => {
                if answer != self.polygon_winding {
                    self.reflex_indices.push(ear);
                    self.candidate(ear + 1)
                } else {
                    self.probe_reflex(ear, 0)
                }
            },
            Stage::Reflex { ear, slot } => {
                if answer {
                    self.candidate(ear + 1)
                } else {
                    self.probe_reflex(ear, slot + 1)
                }
            },
            Stage::Corner { ear, other, corner: c } => {
                if answer {
                    self.probe_rest(ear, other + 1)
                } else if c < 2 {
                    let tri = corner_at(&self.polygon, ear);
                    self.stage = Stage::Corner { ear, other, corner: c + 1 };
                    Step::Ask(Query::Coincides { p: tri[c + 1], q: self.polygon[other] })
                } else {
                    self.stage = Stage::Inside { ear, other };
                    Step::Ask(
                        Query::Contains {
                            tri: corner_at(&self.polygon, ear),
                            p: self.polygon[other],
                        },
                    )
                }
            },
            Stage::Inside { ear, other } => {
                if answer {
                    self.candidate(ear + 1)
                } else {
                    self.probe_rest(ear, other + 1)
                }
            },
            Stage::Failed => Step::Done,
        }
    }
}

} // verus!
