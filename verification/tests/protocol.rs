use mol::obj::{Face, Group, Vertex};
use mol::triangulate::earclipping::{
    triangulate, Error, FaceTriangulator, GroupTriangulator, Query, Step,
};

const A: Vertex = [1, 0, 0];
const B: Vertex = [2, 0, 0];
const C: Vertex = [3, 0, 0];
const D: Vertex = [4, 0, 0];
const E: Vertex = [5, 0, 0];

fn precedes(p: Vertex, q: Vertex) -> Step {
    Step::Ask(Query::Precedes { p, q })
}

fn winding(a: Vertex, b: Vertex, c: Vertex) -> Step {
    Step::Ask(Query::Winding { tri: [a, b, c] })
}

fn coincides(p: Vertex, q: Vertex) -> Step {
    Step::Ask(Query::Coincides { p, q })
}

fn contains(a: Vertex, b: Vertex, c: Vertex, p: Vertex) -> Step {
    Step::Ask(Query::Contains { tri: [a, b, c], p })
}

#[test]
fn quad_is_asked_about_in_order() {
    let mut t = FaceTriangulator::from_polygon(vec![A, B, C, D]).unwrap();
    assert_eq!(t.size_hint(), (2, Some(2)));
    assert_eq!(t.next(true), Step::Project);
    assert_eq!(t.polygon(), &vec![A, B, C, D]);
    // the extreme vertex
    assert_eq!(t.next(true), precedes(B, A));
    assert_eq!(t.next(false), precedes(C, A));
    assert_eq!(t.next(true), precedes(D, C));
    // the winding of the face, at the extreme vertex
    assert_eq!(t.next(false), winding(B, C, D));
    // the first candidate winds against the face
    assert_eq!(t.next(true), winding(D, A, B));
    // the second winds with it; the reflex vertex before it is its neighbour
    assert_eq!(t.next(false), winding(A, B, C));
    assert_eq!(t.next(true), coincides(A, C));
    assert_eq!(t.next(false), coincides(B, C));
    assert_eq!(t.next(false), coincides(C, C));
    assert_eq!(t.next(true), coincides(A, D));
    assert_eq!(t.next(false), coincides(B, D));
    assert_eq!(t.next(false), coincides(C, D));
    assert_eq!(t.next(false), contains(A, B, C, D));
    assert_eq!(t.next(false), Step::Emit([A, B, C]));
    assert_eq!(t.polygon(), &vec![A, C, D]);
    assert_eq!(t.size_hint(), (1, Some(1)));
    assert!(!t.has_ended());
    // the three that are left are the corner at the first of them
    assert_eq!(t.next(false), Step::Emit([D, A, C]));
    assert_eq!(t.polygon(), &vec![C, D]);
    assert!(t.has_ended());
    assert_eq!(t.size_hint(), (0, Some(0)));
    assert_eq!(t.next(false), Step::Done);
    assert_eq!(t.next(true), Step::Done);
    assert!(!t.has_failed());
}

#[test]
fn reflex_vertices_are_held_against_later_candidates() {
    let mut t = FaceTriangulator::from_polygon(vec![A, B, C, D, E]).unwrap();
    assert_eq!(t.next(false), Step::Project);
    assert_eq!(t.next(false), precedes(B, A));
    assert_eq!(t.next(false), precedes(C, A));
    assert_eq!(t.next(false), precedes(D, A));
    assert_eq!(t.next(false), precedes(E, A));
    assert_eq!(t.next(false), winding(E, A, B));
    // the face winds counter-clockwise; candidates 0 and 1 do not
    assert_eq!(t.next(true), winding(E, A, B));
    assert_eq!(t.next(false), winding(A, B, C));
    assert_eq!(t.next(false), winding(B, C, D));
    // candidate 2 does: reflex vertex 0 is held against it, its neighbour 1 is not
    assert_eq!(t.next(true), contains(B, C, D, A));
    // vertex 0 lies within: on to candidate 3
    assert_eq!(t.next(true), winding(C, D, E));
    assert_eq!(t.next(true), contains(C, D, E, A));
    assert_eq!(t.next(false), contains(C, D, E, B));
    assert_eq!(t.next(false), coincides(C, E));
    assert_eq!(t.next(false), coincides(D, E));
    assert_eq!(t.next(false), coincides(E, E));
    assert_eq!(t.next(true), Step::Emit([C, D, E]));
    assert_eq!(t.polygon(), &vec![A, B, C, E]);
}

#[test]
fn vertex_within_a_candidate_turns_it_down() {
    let mut t = FaceTriangulator::from_polygon(vec![A, B, C, D]).unwrap();
    assert_eq!(t.next(false), Step::Project);
    assert_eq!(t.next(false), precedes(B, A));
    assert_eq!(t.next(false), precedes(C, A));
    assert_eq!(t.next(false), precedes(D, A));
    assert_eq!(t.next(false), winding(D, A, B));
    assert_eq!(t.next(false), winding(D, A, B));
    assert_eq!(t.next(false), coincides(D, B));
    assert_eq!(t.next(true), coincides(D, C));
    assert_eq!(t.next(false), coincides(A, C));
    assert_eq!(t.next(false), coincides(B, C));
    assert_eq!(t.next(false), contains(D, A, B, C));
    assert_eq!(t.next(true), winding(A, B, C));
}

#[test]
fn search_without_an_ear_ends_the_face() {
    let mut t = FaceTriangulator::from_polygon(vec![A, B, C, D]).unwrap();
    assert_eq!(t.next(false), Step::Project);
    assert_eq!(t.next(false), precedes(B, A));
    assert_eq!(t.next(false), precedes(C, A));
    assert_eq!(t.next(false), precedes(D, A));
    assert_eq!(t.next(false), winding(D, A, B));
    assert_eq!(t.next(true), winding(D, A, B));
    assert_eq!(t.next(false), winding(A, B, C));
    assert_eq!(t.next(false), winding(B, C, D));
    // the last vertex is no candidate
    assert_eq!(t.next(false), Step::Done);
    assert!(t.has_failed());
    assert!(t.has_ended());
    assert_eq!(t.polygon(), &Vec::<Vertex>::new());
    assert_eq!(t.size_hint(), (0, Some(0)));
    assert_eq!(t.next(false), Step::Done);
}

fn drive_batch(polygon: Vec<Vertex>, reply: impl Fn(&Query) -> bool) -> Result<Vec<[Vertex; 3]>, Error> {
    let mut batch = triangulate(polygon)?;
    assert!(!batch.has_ended());
    let mut last = false;
    loop {
        match batch.next(last) {
            Step::Ask(query) => last = reply(&query),
            Step::Done => {
                assert!(batch.has_ended());
                return batch.finish();
            }
            _ => {}
        }
    }
}

#[test]
fn batch_without_an_ear_fails() {
    // The last vertex is the extreme one, and no candidate winds as its corner does.
    let always_reflex = |query: &Query| match query {
        Query::Precedes { p, .. } => *p == D,
        Query::Winding { tri } => tri[1] == D,
        _ => false,
    };
    assert_eq!(
        drive_batch(vec![A, B, C, D, E], |q| match q {
            Query::Winding { .. } => false,
            _ => true,
        }),
        Ok(vec![[E, A, B], [E, B, C], [E, C, D]])
    );
    assert_eq!(drive_batch(vec![A, B, C, D], always_reflex), Err(Error::NoEarFound));
    assert_eq!(drive_batch(vec![A, B], always_reflex), Err(Error::TooFewVertices));
    assert_eq!(drive_batch(vec![A, B, C], always_reflex), Ok(vec![[A, B, C]]));
}

#[test]
fn batch_keeps_what_was_cut_off_before_a_failure_to_itself() {
    // The first search finds an ear, the second does not.
    let mut asked = std::cell::Cell::new(0);
    let reply = |query: &Query| match query {
        Query::Winding { .. } => {
            asked.set(asked.get() + 1);
            asked.get() <= 2
        }
        _ => false,
    };
    assert_eq!(drive_batch(vec![A, B, C, D, E], reply), Err(Error::NoEarFound));
    assert!(asked.get_mut() > &mut 2);
}

#[test]
fn group_goes_on_after_a_face_that_failed() {
    let group = Group {
        name: "g".into(),
        faces: vec![
            Face::Quad([A, B, C, D]),
            Face::NGon(vec![A]),
            Face::Tri([C, D, E]),
        ],
        material: None,
    };
    let mut t = GroupTriangulator::new(&group).unwrap();
    assert_eq!(t.next(false), Step::Project);
    assert_eq!(t.polygon(), &vec![A, B, C, D]);
    assert_eq!(t.next(false), precedes(B, A));
    assert_eq!(t.next(false), precedes(C, A));
    assert_eq!(t.next(false), precedes(D, A));
    assert_eq!(t.next(false), winding(D, A, B));
    assert_eq!(t.next(true), winding(D, A, B));
    assert_eq!(t.next(false), winding(A, B, C));
    assert_eq!(t.next(false), winding(B, C, D));
    // the quad has no ear: the triangle follows, and nothing is asked about it
    assert_eq!(t.next(false), Step::Emit([C, D, E]));
    assert_eq!(t.next(false), Step::Done);
    assert_eq!(t.next(false), Step::Done);
}
