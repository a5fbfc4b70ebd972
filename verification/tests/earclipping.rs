use mol::obj::{Face, Group, Object, Vertex, OBJ};
use mol::triangulate::earclipping::{
    triangulate, Error, FaceTriangulator, GroupTriangulator, ObjTriangulator, ObjectTriangulator,
    Query, Step,
};
use mol::triangulate::Tri;

type Point3 = [f32; 3];
type Point2 = [f32; 2];
type Matrix3 = [f32; 9];

fn approx_eq(a: f32, b: f32) -> bool {
    (a - b).abs() < f32::EPSILON
}

fn pos(obj: &OBJ, vertex: Vertex) -> Point3 {
    let bits = obj.positions[vertex[0] - 1];
    [
        f32::from_bits(bits[0]),
        f32::from_bits(bits[1]),
        f32::from_bits(bits[2]),
    ]
}

fn fit_plane_normal(obj: &OBJ, vertices: &[Vertex]) -> Point3 {
    let mut normal = [0.0f32; 3];
    let mut prev = pos(obj, vertices[vertices.len() - 1]);
    for vertex in vertices {
        let curr = pos(obj, *vertex);
        normal[0] += (prev[2] + curr[2]) * (prev[1] - curr[1]);
        normal[1] += (prev[0] + curr[0]) * (prev[2] - curr[2]);
        normal[2] += (prev[1] + curr[1]) * (prev[0] - curr[0]);
        prev = curr;
    }
    let mag = normal[0] * normal[0] + normal[1] * normal[1] + normal[2] * normal[2];
    if mag != 0.0 {
        let mag = mag.sqrt();
        normal[0] /= mag;
        normal[1] /= mag;
        normal[2] /= mag;
    }
    normal
}

fn unit_align(u1: Point3, u2: Point3) -> Matrix3 {
    let x = u1[1] * u2[2] - u1[2] * u2[1];
    let y = u1[2] * u2[0] - u1[0] * u2[2];
    let z = u1[0] * u2[1] - u1[1] * u2[0];
    let c = u1[0] * u2[0] + u1[1] * u2[1] + u1[2] * u2[2];
    if approx_eq(c, -1.0) {
        return [1.0, 0.0, 0.0, 0.0, -1.0, 0.0, 0.0, 0.0, -1.0];
    }
    let k = 1.0 / (1.0 + c);
    [
        (x * x * k) + c,
        (y * x * k) - z,
        (z * x * k) + y,
        (x * y * k) + z,
        (y * y * k) + c,
        (z * y * k) - x,
        (x * z * k) - y,
        (y * z * k) + x,
        (z * z * k) + c,
    ]
}

fn apply(tf: &Matrix3, p: Point3) -> Point3 {
    [
        p[0] * tf[0] + p[1] * tf[1] + p[2] * tf[2],
        p[0] * tf[3] + p[1] * tf[4] + p[2] * tf[5],
        p[0] * tf[6] + p[1] * tf[7] + p[2] * tf[8],
    ]
}

fn flatten(obj: &OBJ, polygon: &[Vertex]) -> Matrix3 {
    unit_align(fit_plane_normal(obj, polygon), [0.0, 1.0, 0.0])
}

fn point(obj: &OBJ, vertex: Vertex, tf: &Matrix3) -> Point2 {
    let p = apply(tf, pos(obj, vertex));
    [p[0], p[2]]
}

fn winding(a: Point2, b: Point2, c: Point2) -> bool {
    (b[0] - a[0]) * (c[1] - a[1]) - (c[0] - a[0]) * (b[1] - a[1]) > 0.0
}

fn det(s: Point2, t: Point2, u: Point2, c: Point2) -> f32 {
    (t[1] - u[1]) * (s[0] - c[0]) + (u[0] - t[0]) * (s[1] - c[1])
}

fn contains(a: Point2, b: Point2, c: Point2, p: Point2) -> bool {
    let d = det(a, b, c, c);
    if approx_eq(d, 0.0) {
        return true;
    }
    let inv = 1.0 / d;
    let l1 = inv * det(p, b, c, c);
    if l1 < 0.0 {
        return false;
    }
    let l2 = inv * det(p, c, a, c);
    if l2 < 0.0 {
        return false;
    }
    l1 + l2 < 1.0
}

fn answer(obj: &OBJ, tf: &Matrix3, query: &Query) -> bool {
    match query {
        Query::Precedes { p, q } => {
            let p = point(obj, *p, tf);
            let q = point(obj, *q, tf);
            p[0] < q[0] || (approx_eq(p[0], q[0]) && p[1] < q[1])
        }
        Query::Winding { tri } => winding(
            point(obj, tri[0], tf),
            point(obj, tri[1], tf),
            point(obj, tri[2], tf),
        ),
        Query::Coincides { p, q } => point(obj, *p, tf) == point(obj, *q, tf),
        Query::Contains { tri, p } => contains(
            point(obj, tri[0], tf),
            point(obj, tri[1], tf),
            point(obj, tri[2], tf),
            point(obj, *p, tf),
        ),
    }
}

const IDENTITY: Matrix3 = [1.0, 0.0, 0.0, 0.0, 1.0, 0.0, 0.0, 0.0, 1.0];

fn run_face(obj: &OBJ, face: &Face) -> Result<Vec<Tri>, Error> {
    let mut triangulator = FaceTriangulator::new(face)?;
    let mut tf = IDENTITY;
    let mut reply = false;
    let mut triangles = Vec::new();
    loop {
        match triangulator.next(reply) {
            Step::Project => tf = flatten(obj, triangulator.polygon()),
            Step::Ask(query) => reply = answer(obj, &tf, &query),
            Step::Emit(tri) => triangles.push(tri),
            Step::Done => return Ok(triangles),
        }
    }
}

fn run_batch(obj: &OBJ, polygon: Vec<Vertex>) -> Result<Vec<Tri>, Error> {
    let mut batch = triangulate(polygon)?;
    let mut tf = IDENTITY;
    let mut reply = false;
    loop {
        match batch.next(reply) {
            Step::Project => tf = flatten(obj, batch.polygon()),
            Step::Ask(query) => reply = answer(obj, &tf, &query),
            Step::Emit(_) => {}
            Step::Done => return batch.finish(),
        }
    }
}

fn run_group(obj: &OBJ, group: &Group) -> Result<Vec<Tri>, Error> {
    let mut triangulator = GroupTriangulator::new(group)?;
    let mut tf = IDENTITY;
    let mut reply = false;
    let mut triangles = Vec::new();
    loop {
        match triangulator.next(reply) {
            Step::Project => tf = flatten(obj, triangulator.polygon()),
            Step::Ask(query) => reply = answer(obj, &tf, &query),
            Step::Emit(tri) => triangles.push(tri),
            Step::Done => return Ok(triangles),
        }
    }
}

fn run_object(obj: &OBJ, object: &Object) -> Result<Vec<Tri>, Error> {
    let mut triangulator = ObjectTriangulator::new(object)?;
    let mut tf = IDENTITY;
    let mut reply = false;
    let mut triangles = Vec::new();
    loop {
        match triangulator.next(reply) {
            Step::Project => tf = flatten(obj, triangulator.polygon()),
            Step::Ask(query) => reply = answer(obj, &tf, &query),
            Step::Emit(tri) => triangles.push(tri),
            Step::Done => return Ok(triangles),
        }
    }
}

fn run_scene(obj: &OBJ) -> Result<Vec<Tri>, Error> {
    let mut triangulator = ObjTriangulator::from_obj(obj)?;
    let mut tf = IDENTITY;
    let mut reply = false;
    let mut triangles = Vec::new();
    loop {
        match triangulator.next(reply) {
            Step::Project => tf = flatten(obj, triangulator.polygon()),
            Step::Ask(query) => reply = answer(obj, &tf, &query),
            Step::Emit(tri) => triangles.push(tri),
            Step::Done => return Ok(triangles),
        }
    }
}

fn scene_of(positions: &[Point3]) -> OBJ {
    let mut obj = OBJ::new();
    for p in positions {
        obj.positions
            .push([p[0].to_bits(), p[1].to_bits(), p[2].to_bits()]);
    }
    obj
}

fn loop_of(n: usize) -> Vec<Vertex> {
    (1..=n).map(|i| [i, 0, 0]).collect()
}

fn area2(obj: &OBJ, tf: &Matrix3, a: Vertex, b: Vertex, c: Vertex) -> f32 {
    let a = point(obj, a, tf);
    let b = point(obj, b, tf);
    let c = point(obj, c, tf);
    (b[0] - a[0]) * (c[1] - a[1]) - (c[0] - a[0]) * (b[1] - a[1])
}

fn polygon_area2(obj: &OBJ, tf: &Matrix3, polygon: &[Vertex]) -> f32 {
    let mut sum = 0.0;
    for i in 0..polygon.len() {
        let p = point(obj, polygon[i], tf);
        let q = point(obj, polygon[(i + 1) % polygon.len()], tf);
        sum += p[0] * q[1] - q[0] * p[1];
    }
    sum
}

fn xz_plane_angle_x(radians: f32) -> OBJ {
    let (s, c) = radians.sin_cos();
    let corners: [Point3; 4] = [
        [-1.0, 0.0, 1.0],
        [1.0, 0.0, 1.0],
        [-1.0, 0.0, -1.0],
        [1.0, 0.0, -1.0],
    ];
    let mut obj = OBJ::new();
    for [x, y, z] in corners {
        obj.positions.push([
            x.to_bits(),
            (y * c - z * s).to_bits(),
            (y * s + z * c).to_bits(),
        ]);
    }
    obj.objects.push(Object {
        name: "Plane".into(),
        groups: vec![Group {
            name: "default".into(),
            faces: vec![Face::Quad([[1, 1, 1], [2, 2, 1], [4, 3, 1], [3, 4, 1]])],
            material: None,
        }],
    });
    obj
}

#[test]
fn unit_square_gives_two_triangles() {
    let obj = xz_plane_angle_x(0.0);
    let face = &obj.objects[0].groups[0].faces[0];
    let triangles = run_face(&obj, face).unwrap();
    assert_eq!(
        triangles,
        vec![
            [[3, 4, 1], [1, 1, 1], [2, 2, 1]],
            [[3, 4, 1], [2, 2, 1], [4, 3, 1]],
        ]
    );
    assert_eq!(
        run_batch(&obj, vec![[1, 1, 1], [2, 2, 1], [4, 3, 1], [3, 4, 1]]),
        Ok(triangles.clone())
    );
    let tf = flatten(&obj, &[[1, 1, 1], [2, 2, 1], [4, 3, 1], [3, 4, 1]]);
    let whole = polygon_area2(&obj, &tf, &[[1, 1, 1], [2, 2, 1], [4, 3, 1], [3, 4, 1]]);
    let parts: f32 = triangles
        .iter()
        .map(|t| area2(&obj, &tf, t[0], t[1], t[2]))
        .sum();
    assert!((whole.abs() - 8.0).abs() < 0.001);
    assert!((whole - parts).abs() < 0.001);
    let first = area2(&obj, &tf, triangles[0][0], triangles[0][1], triangles[0][2]);
    let second = area2(&obj, &tf, triangles[1][0], triangles[1][1], triangles[1][2]);
    assert!(first < 0.0 && second < 0.0 && whole < 0.0);
}

#[test]
fn unit_square_gives_two_triangles_at_every_tilt() {
    for degrees in 0..360 {
        let obj = xz_plane_angle_x((degrees as f32).to_radians());
        let triangles = run_scene(&obj).unwrap();
        assert_eq!(triangles.len(), 2, "at {} degrees", degrees);
    }
}

#[test]
fn batch_and_lazy_agree_on_the_square() {
    let obj = xz_plane_angle_x(0.3);
    let face = &obj.objects[0].groups[0].faces[0];
    let lazy = run_face(&obj, face).unwrap();
    let batch = run_batch(&obj, vec![[1, 1, 1], [2, 2, 1], [4, 3, 1], [3, 4, 1]]).unwrap();
    assert_eq!(lazy, batch);
    assert_eq!(batch.len(), 2);
}

#[test]
fn triangle_is_handed_out_unchanged() {
    let obj = scene_of(&[[0.0, 0.0, 0.0], [1.0, 0.0, 0.0], [0.0, 0.0, 1.0]]);
    let face = Face::Tri([[1, 1, 1], [2, 2, 1], [3, 3, 1]]);
    assert_eq!(
        run_face(&obj, &face).unwrap(),
        vec![[[1, 1, 1], [2, 2, 1], [3, 3, 1]]]
    );
    assert_eq!(
        run_batch(&obj, vec![[1, 1, 1], [2, 2, 1], [3, 3, 1]]).unwrap(),
        vec![[[1, 1, 1], [2, 2, 1], [3, 3, 1]]]
    );
}

#[test]
fn convex_polygons_give_n_minus_two_triangles_of_the_same_area() {
    for n in 3..40usize {
        let mut positions = Vec::new();
        for i in 0..n {
            let angle = (i as f32) * std::f32::consts::TAU / (n as f32);
            positions.push([2.0 * angle.cos(), 0.5, 2.0 * angle.sin()]);
        }
        let obj = scene_of(&positions);
        let polygon = loop_of(n);
        let triangles = run_batch(&obj, polygon.clone()).unwrap();
        assert_eq!(triangles.len(), n - 2, "with {} vertices", n);
        let tf = flatten(&obj, &polygon);
        let whole = polygon_area2(&obj, &tf, &polygon);
        let parts: f32 = triangles
            .iter()
            .map(|t| area2(&obj, &tf, t[0], t[1], t[2]))
            .sum();
        assert!((whole - parts).abs() < 0.001, "with {} vertices", n);
    }
}

#[test]
fn reflex_polygon_keeps_its_area_and_winding() {
    // An arrow head: the vertex at the notch is reflex.
    let obj = scene_of(&[
        [0.0, 0.0, 0.0],
        [4.0, 0.0, 0.0],
        [4.0, 0.0, 4.0],
        [2.0, 0.0, 1.0],
        [0.0, 0.0, 4.0],
    ]);
    let polygon = loop_of(5);
    let triangles = run_batch(&obj, polygon.clone()).unwrap();
    assert_eq!(triangles.len(), 3);
    let tf = flatten(&obj, &polygon);
    let whole = polygon_area2(&obj, &tf, &polygon);
    assert!((whole.abs() - 20.0).abs() < 0.001);
    let mut parts = 0.0;
    for t in &triangles {
        let part = area2(&obj, &tf, t[0], t[1], t[2]);
        assert_eq!(part > 0.0, whole > 0.0);
        parts += part;
    }
    assert!((whole - parts).abs() < 0.001);
    let lazy = run_face(&obj, &Face::NGon(polygon)).unwrap();
    assert_eq!(lazy, triangles);
}

#[test]
fn dart_with_a_reflex_first_candidate() {
    // The notch of the dart is its first vertex.
    let obj = scene_of(&[
        [0.0, 0.0, 0.0],
        [-2.0, 0.0, -1.0],
        [0.0, 0.0, 3.0],
        [2.0, 0.0, -1.0],
    ]);
    let triangles = run_batch(&obj, loop_of(4)).unwrap();
    assert_eq!(
        triangles,
        vec![
            [[1, 0, 0], [2, 0, 0], [3, 0, 0]],
            [[4, 0, 0], [1, 0, 0], [3, 0, 0]],
        ]
    );
    let tf = flatten(&obj, &loop_of(4));
    let first = area2(&obj, &tf, triangles[0][0], triangles[0][1], triangles[0][2]);
    let second = area2(&obj, &tf, triangles[1][0], triangles[1][1], triangles[1][2]);
    assert!((first.abs() - 6.0).abs() < 0.001 && (second.abs() - 6.0).abs() < 0.001);
    assert_eq!(first > 0.0, second > 0.0);
    assert_eq!(run_face(&obj, &Face::Quad([[1, 0, 0], [2, 0, 0], [3, 0, 0], [4, 0, 0]])), Ok(triangles));
}

#[test]
fn too_few_vertices() {
    let obj = scene_of(&[[0.0, 0.0, 0.0], [1.0, 0.0, 0.0]]);
    for n in 0..3usize {
        let face = Face::NGon(loop_of(n));
        assert_eq!(run_face(&obj, &face), Err(Error::TooFewVertices));
        assert_eq!(run_batch(&obj, loop_of(n)), Err(Error::TooFewVertices));
    }
}

fn degenerate() -> Face {
    Face::NGon(vec![[1, 0, 0], [2, 0, 0]])
}

fn square() -> Face {
    Face::Quad([[1, 1, 1], [2, 2, 1], [4, 3, 1], [3, 4, 1]])
}

fn group_of(faces: Vec<Face>) -> Group {
    Group {
        name: "default".into(),
        faces,
        material: None,
    }
}

#[test]
fn group_of_degenerate_faces_has_no_valid_face() {
    let obj = xz_plane_angle_x(0.0);
    let group = group_of(vec![degenerate(), Face::NGon(vec![]), degenerate()]);
    assert_eq!(run_group(&obj, &group), Err(Error::NoValidFacesFound));
    assert_eq!(run_group(&obj, &group_of(vec![])), Err(Error::NoValidFacesFound));
}

#[test]
fn group_with_one_quad_among_degenerate_faces_gives_its_two_triangles() {
    let obj = xz_plane_angle_x(0.0);
    let alone = run_face(&obj, &square()).unwrap();
    assert_eq!(alone.len(), 2);
    let group = group_of(vec![degenerate(), square(), degenerate()]);
    assert_eq!(run_group(&obj, &group), Ok(alone.clone()));
    let group = group_of(vec![square(), degenerate()]);
    assert_eq!(run_group(&obj, &group), Ok(alone.clone()));
    let group = group_of(vec![degenerate(), degenerate(), square()]);
    assert_eq!(run_group(&obj, &group), Ok(alone));
}

#[test]
fn degenerate_faces_around_a_quad_are_passed_over() {
    let obj = xz_plane_angle_x(0.0);
    let group = group_of(vec![
        Face::NGon(vec![[1, 1, 1], [2, 2, 1]]),
        square(),
        Face::NGon(vec![]),
    ]);
    assert_eq!(
        run_group(&obj, &group),
        Ok(vec![
            [[3, 4, 1], [1, 1, 1], [2, 2, 1]],
            [[3, 4, 1], [2, 2, 1], [4, 3, 1]],
        ])
    );
}

#[test]
fn faces_follow_each_other_through_groups_and_objects() {
    let mut obj = xz_plane_angle_x(0.0);
    let tri = || Face::Tri([[1, 0, 0], [2, 0, 0], [3, 0, 0]]);
    let one = run_face(&obj, &square()).unwrap();
    let three = vec![[[1, 0, 0], [2, 0, 0], [3, 0, 0]]];

    let object = Object {
        name: "a".into(),
        groups: vec![
            group_of(vec![degenerate()]),
            group_of(vec![tri(), degenerate(), square()]),
            group_of(vec![]),
            group_of(vec![square()]),
        ],
    };
    let mut expected = three.clone();
    expected.extend(one.clone());
    expected.extend(one.clone());
    assert_eq!(run_object(&obj, &object), Ok(expected.clone()));

    obj.objects.clear();
    obj.objects.push(Object {
        name: "empty".into(),
        groups: vec![group_of(vec![degenerate()])],
    });
    obj.objects.push(object);
    obj.objects.push(Object {
        name: "last".into(),
        groups: vec![group_of(vec![tri()])],
    });
    expected.extend(three);
    assert_eq!(run_scene(&obj), Ok(expected));
}

#[test]
fn object_without_a_valid_group() {
    let obj = xz_plane_angle_x(0.0);
    let object = Object {
        name: "a".into(),
        groups: vec![group_of(vec![degenerate()]), group_of(vec![])],
    };
    assert_eq!(run_object(&obj, &object), Err(Error::NoValidGroupsFound));
    let object = Object {
        name: "b".into(),
        groups: vec![],
    };
    assert_eq!(run_object(&obj, &object), Err(Error::NoValidGroupsFound));
}

#[test]
fn scene_without_a_valid_object() {
    let mut obj = OBJ::new();
    assert_eq!(run_scene(&obj), Err(Error::NoValidObjectsFound));
    obj.objects.push(Object {
        name: "a".into(),
        groups: vec![group_of(vec![degenerate()])],
    });
    assert_eq!(run_scene(&obj), Err(Error::NoValidObjectsFound));
}
