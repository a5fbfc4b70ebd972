use mol::obj::parse::{parse_face, parse_line, Line};
use mol::obj::{check_vertex, Error, Face, Group, Object, OBJ};
use std::str::FromStr;

fn bits3(x: f32, y: f32, z: f32) -> [u32; 3] {
    [x.to_bits(), y.to_bits(), z.to_bits()]
}

fn floats3(bits: [u32; 3]) -> (f32, f32, f32) {
    (
        f32::from_bits(bits[0]),
        f32::from_bits(bits[1]),
        f32::from_bits(bits[2]),
    )
}

fn floats2(bits: [u32; 2]) -> (f32, f32) {
    (f32::from_bits(bits[0]), f32::from_bits(bits[1]))
}

fn numbers(words: &[String]) -> Option<Vec<u32>> {
    words
        .iter()
        .map(|word| f32::from_str(word).ok().map(f32::to_bits))
        .collect()
}

fn load(text: &str) -> Result<OBJ, Error> {
    let mut ret = OBJ::default();
    for line in text.lines() {
        let parsed = parse_line(
            line,
            ret.positions.len(),
            ret.uvs.len(),
            ret.normals.len(),
        )?;
        match parsed {
            Line::Vertex(words) => {
                let n = numbers(&words).ok_or(Error::ParseVertex)?;
                ret.positions.push([n[0], n[1], n[2]]);
            }
            Line::Texcoord(words) => {
                let n = numbers(&words).ok_or(Error::ParseTexcoord)?;
                ret.uvs.push([n[0], n[1]]);
            }
            Line::Normal(words) => {
                let n = numbers(&words).ok_or(Error::ParseNormal)?;
                ret.normals.push([n[0], n[1], n[2]]);
            }
            other => ret.add(other),
        }
    }
    Ok(ret)
}

fn flat(obj: &OBJ) -> Vec<((f32, f32, f32), (f32, f32), (f32, f32, f32))> {
    assert!(obj.is_well_formed());
    let mut iter = obj.flat_iter();
    let mut all = Vec::new();
    while let Some((v, u, n)) = iter.next() {
        all.push((floats3(v), floats2(u), floats3(n)));
    }
    all
}

const CUBE: &str = "\
# a cube
mtllib cube.mtl
o Cube
v 1.000000 1.000000 -1.000000
v 1.000000 -1.000000 -1.000000
v 1.000000 1.000000 1.000000
v 1.000000 -1.000000 1.000000
v -1.000000 1.000000 -1.000000
v -1.000000 -1.000000 -1.000000
v -1.000000 1.000000 1.000000
v -1.000000 -1.000000 1.000000
vt 0.625000 0.500000
vt 0.875000 0.500000
vt 0.875000 0.750000
vt 0.625000 0.750000
vn 0.0000 1.0000 0.0000
vn 0.0000 0.0000 1.0000
usemtl Material
s off
f 1/1/1 5/2/1 7/3/1 3/4/1
f 4/1/2 3/2/2 7/3/2 8/4/2
";

const CUBE_VN: &str = "\
o Cube
v 1.000000 1.000000 -1.000000
v 1.000000 -1.000000 -1.000000
v 1.000000 1.000000 1.000000
v 1.000000 -1.000000 1.000000
v -1.000000 1.000000 -1.000000
v -1.000000 -1.000000 -1.000000
v -1.000000 1.000000 1.000000
v -1.000000 -1.000000 1.000000
vn 0.0000 1.0000 0.0000
vn 0.0000 0.0000 1.0000
vn -1.0000 0.0000 0.0000
vn 0.0000 -1.0000 0.0000
vn 1.0000 0.0000 0.0000
vn 0.0000 0.0000 -1.0000
s off
f 1//1 5//1 7//1 3//1
f 4//2 3//2 7//2 8//2
f 8//3 7//3 5//3 6//3
f 6//4 2//4 4//4 8//4
f 2//5 1//5 3//5 4//5
f 6//6 5//6 1//6 2//6
";

#[test]
fn load_basic() {
    let model = match load(CUBE) {
        Ok(model) => model,
        Err(err) => panic!("OBJ error: {:?}", err),
    };
    assert_eq!(model.objects.len(), 1);
    assert_eq!(model.objects[0].name, "Cube");
    assert_eq!(model.objects[0].groups.len(), 1);
    assert_eq!(model.objects[0].groups[0].name, "default");
    assert_eq!(model.objects[0].groups[0].faces.len(), 2);
    let all = flat(&model);
    assert_eq!(all.len(), 8);
    for (v, u, n) in &all {
        println!("{:?} {:?} {:?}", v, u, n);
    }
    assert_eq!(all[1], ((-1.0, 1.0, -1.0), (0.875, 0.5), (0.0, 1.0, 0.0)));
    assert_eq!(all[4], ((1.0, -1.0, 1.0), (0.625, 0.5), (0.0, 0.0, 1.0)));
}

#[test]
fn load_cube_vn() {
    let model = match load(CUBE_VN) {
        Ok(model) => model,
        Err(err) => panic!("OBJ error: {:?}", err),
    };
    let expected = [
        ((1.0, 1.0, -1.0), (0.0, 0.0), (0.0, 1.0, 0.0)),
        ((-1.0, 1.0, -1.0), (0.0, 0.0), (0.0, 1.0, 0.0)),
        ((-1.0, 1.0, 1.0), (0.0, 0.0), (0.0, 1.0, 0.0)),
        ((1.0, 1.0, 1.0), (0.0, 0.0), (0.0, 1.0, 0.0)),
        ((1.0, -1.0, 1.0), (0.0, 0.0), (0.0, 0.0, 1.0)),
        ((1.0, 1.0, 1.0), (0.0, 0.0), (0.0, 0.0, 1.0)),
        ((-1.0, 1.0, 1.0), (0.0, 0.0), (0.0, 0.0, 1.0)),
        ((-1.0, -1.0, 1.0), (0.0, 0.0), (0.0, 0.0, 1.0)),
        ((-1.0, -1.0, 1.0), (0.0, 0.0), (-1.0, 0.0, 0.0)),
        ((-1.0, 1.0, 1.0), (0.0, 0.0), (-1.0, 0.0, 0.0)),
        ((-1.0, 1.0, -1.0), (0.0, 0.0), (-1.0, 0.0, 0.0)),
        ((-1.0, -1.0, -1.0), (0.0, 0.0), (-1.0, 0.0, 0.0)),
        ((-1.0, -1.0, -1.0), (0.0, 0.0), (0.0, -1.0, 0.0)),
        ((1.0, -1.0, -1.0), (0.0, 0.0), (0.0, -1.0, 0.0)),
        ((1.0, -1.0, 1.0), (0.0, 0.0), (0.0, -1.0, 0.0)),
        ((-1.0, -1.0, 1.0), (0.0, 0.0), (0.0, -1.0, 0.0)),
        ((1.0, -1.0, -1.0), (0.0, 0.0), (1.0, 0.0, 0.0)),
        ((1.0, 1.0, -1.0), (0.0, 0.0), (1.0, 0.0, 0.0)),
        ((1.0, 1.0, 1.0), (0.0, 0.0), (1.0, 0.0, 0.0)),
        ((1.0, -1.0, 1.0), (0.0, 0.0), (1.0, 0.0, 0.0)),
        ((-1.0, -1.0, -1.0), (0.0, 0.0), (0.0, 0.0, -1.0)),
        ((-1.0, 1.0, -1.0), (0.0, 0.0), (0.0, 0.0, -1.0)),
        ((1.0, 1.0, -1.0), (0.0, 0.0), (0.0, 0.0, -1.0)),
        ((1.0, -1.0, -1.0), (0.0, 0.0), (0.0, 0.0, -1.0)),
    ];
    let all = flat(&model);
    assert_eq!(all.len(), expected.len());
    all.iter()
        .zip(expected.iter())
        .enumerate()
        .for_each(|(i, (a, e))| assert_eq!(a, e, "(output index {})", i));
}

#[test]
fn new_group_and_object_are_empty() {
    let group = Group::new("wheel");
    assert_eq!(group.name, "wheel");
    assert!(group.faces.is_empty());
    assert_eq!(group.material, None);
    let object = Object::new("car");
    assert_eq!(object.name, "car");
    assert!(object.groups.is_empty());
    let obj = OBJ::new();
    assert!(obj.positions.is_empty() && obj.objects.is_empty());
    let obj = OBJ::with_capacity(16);
    assert!(obj.positions.is_empty() && obj.normals.is_empty() && obj.uvs.is_empty());
    assert!(obj.objects.is_empty() && obj.materials.is_empty());
}

#[test]
fn last_group_and_last_object_make_a_default() {
    let mut object = Object::new("car");
    assert_eq!(object.last_group().name, "default");
    assert_eq!(object.groups.len(), 1);
    object.groups.push(Group::new("wheel"));
    object.last_group().material = Some(3);
    assert_eq!(object.groups.len(), 2);
    assert_eq!(object.groups[0].material, None);
    assert_eq!(object.groups[1].material, Some(3));
    assert_eq!(object.name, "car");

    let mut obj = OBJ::new();
    assert_eq!(obj.last_object().name, "default");
    assert_eq!(obj.objects.len(), 1);
    obj.objects.push(Object::new("car"));
    obj.last_object().last_group();
    assert_eq!(obj.objects.len(), 2);
    assert_eq!(obj.objects[0].groups.len(), 0);
    assert_eq!(obj.objects[1].groups.len(), 1);
}

#[test]
fn get_vertex_goes_by_the_variant() {
    let tri = Face::Tri([[1, 0, 0], [2, 0, 0], [3, 0, 0]]);
    let quad = Face::Quad([[1, 0, 0], [2, 0, 0], [3, 0, 0], [4, 0, 0]]);
    let ngon = Face::NGon(vec![[7, 8, 9]]);
    assert_eq!(tri.get_vertex(2), Some(&[3, 0, 0]));
    assert_eq!(tri.get_vertex(3), None);
    assert_eq!(quad.get_vertex(3), Some(&[4, 0, 0]));
    assert_eq!(quad.get_vertex(4), None);
    assert_eq!(ngon.get_vertex(0), Some(&[7, 8, 9]));
    assert_eq!(ngon.get_vertex(1), None);
    assert_eq!((tri.len(), quad.len(), ngon.len()), (3, 4, 1));
    assert_eq!(quad.to_polygon(), vec![[1, 0, 0], [2, 0, 0], [3, 0, 0], [4, 0, 0]]);
}

#[test]
fn references_are_checked_against_the_arrays() {
    assert!(check_vertex(&[1, 0, 0], 1, 0, 0));
    assert!(check_vertex(&[3, 2, 1], 3, 2, 1));
    assert!(!check_vertex(&[0, 0, 0], 3, 2, 1));
    assert!(!check_vertex(&[4, 0, 0], 3, 2, 1));
    assert!(!check_vertex(&[1, 3, 0], 3, 2, 1));
    assert!(!check_vertex(&[1, 0, 2], 3, 2, 1));

    let mut obj = load(CUBE_VN).unwrap();
    assert!(obj.is_well_formed());
    assert_eq!(floats3(obj.pos([5, 0, 0])), (-1.0, 1.0, -1.0));
    assert_eq!(
        obj.lookup(&[5, 0, 3]),
        (bits3(-1.0, 1.0, -1.0), [0, 0], bits3(-1.0, 0.0, 0.0))
    );
    obj.normals.pop();
    assert!(!obj.is_well_formed());
    obj.normals.push([0, 0, 0]);
    assert!(obj.is_well_formed());
    obj.last_object()
        .last_group()
        .faces
        .push(Face::Tri([[1, 0, 0], [2, 0, 0], [9, 0, 0]]));
    assert!(!obj.is_well_formed());
}

#[test]
fn flat_iter_passes_over_what_is_empty() {
    let mut obj = OBJ::new();
    obj.positions.push(bits3(1.0, 2.0, 3.0));
    obj.positions.push(bits3(4.0, 5.0, 6.0));
    obj.uvs.push([0.5f32.to_bits(), 0.25f32.to_bits()]);
    obj.objects.push(Object::new("empty"));
    let mut object = Object::new("full");
    object.groups.push(Group::new("none"));
    let mut group = Group::new("some");
    group.faces.push(Face::NGon(vec![]));
    group.faces.push(Face::NGon(vec![[2, 1, 0], [1, 0, 0]]));
    object.groups.push(group);
    obj.objects.push(object);
    obj.objects.push(Object::new("empty too"));
    assert_eq!(
        flat(&obj),
        vec![
            ((4.0, 5.0, 6.0), (0.5, 0.25), (0.0, 0.0, 0.0)),
            ((1.0, 2.0, 3.0), (0.0, 0.0), (0.0, 0.0, 0.0)),
        ]
    );
    let mut iter = obj.flat_iter();
    assert!(iter.next().is_some());
    assert!(iter.next().is_some());
    assert!(iter.next().is_none());
    assert!(iter.next().is_none());
}

fn vertices(face: &Face) -> Vec<[usize; 3]> {
    face.to_polygon()
}

#[test]
fn faces_are_read_by_their_number_of_vertices() {
    let tri = parse_face(8, 0, 0, "1 2 3").unwrap();
    assert!(matches!(tri, Face::Tri(_)));
    assert_eq!(vertices(&tri), vec![[1, 0, 0], [2, 0, 0], [3, 0, 0]]);
    let quad = parse_face(8, 4, 1, "  1/1/1 2/2/1\t4/3/1   3/4/1 ").unwrap();
    assert!(matches!(quad, Face::Quad(_)));
    assert_eq!(
        vertices(&quad),
        vec![[1, 1, 1], [2, 2, 1], [4, 3, 1], [3, 4, 1]]
    );
    let ngon = parse_face(8, 0, 0, "1 2 3 4 5").unwrap();
    assert!(matches!(ngon, Face::NGon(_)));
    assert_eq!(ngon.len(), 5);
    // white space of any kind separates the words
    let wide = parse_face(8, 0, 0, "1\u{00a0}2\u{3000}3\u{2003}4").unwrap();
    assert_eq!(wide.len(), 4);
}

#[test]
fn vertex_fields_may_be_left_out() {
    let face = parse_face(8, 8, 8, "1//2 3/ 4/5 6/7/8/9").unwrap();
    assert_eq!(
        vertices(&face),
        vec![[1, 0, 2], [3, 0, 0], [4, 5, 0], [6, 7, 8]]
    );
    assert!(matches!(parse_face(8, 8, 8, "1// 2 3"), Err(Error::ParseFace)));
    assert!(matches!(parse_face(8, 8, 8, "/1 2 3"), Err(Error::ParseFace)));
    assert!(matches!(parse_face(8, 8, 8, "1/x 2 3"), Err(Error::ParseFace)));
    assert!(matches!(parse_face(8, 8, 8, "1/2/ 2 3"), Err(Error::ParseFace)));
}

#[test]
fn negative_indices_count_back_from_the_end() {
    let face = parse_face(8, 4, 2, "-1/-1/-1 -8/-4/-2 +3/+2/+1").unwrap();
    assert_eq!(vertices(&face), vec![[8, 4, 2], [1, 1, 1], [3, 2, 1]]);
    let face = parse_face(3, 0, 0, "-4 -5 1").unwrap();
    assert_eq!(
        vertices(&face),
        vec![[0, 0, 0], [usize::MAX, 0, 0], [1, 0, 0]]
    );
}

#[test]
fn integers_are_those_of_32_bits() {
    let face = parse_face(0, 0, 0, "2147483647 0000000000000000000012 -0").unwrap();
    assert_eq!(
        vertices(&face),
        vec![[2147483647, 0, 0], [12, 0, 0], [0, 0, 0]]
    );
    let face = parse_face(2147483647, 0, 0, "-2147483648 -2147483647 -1").unwrap();
    assert_eq!(
        vertices(&face),
        vec![[0, 0, 0], [1, 0, 0], [2147483647, 0, 0]]
    );
    for bad in [
        "2147483648 1 2",
        "-2147483649 1 2",
        "99999999999999999999999 1 2",
        "1 2 +",
        "1 2 -",
        "1 2 --3",
        "1 2 3.0",
        "1 2 0x3",
        "1 2 ٣",
    ] {
        assert!(matches!(parse_face(9, 0, 0, bad), Err(Error::ParseFace)), "{}", bad);
    }
}

#[test]
fn faces_of_fewer_than_three_vertices_are_refused() {
    for bad in ["", "   ", "1", "1 2", "1/1/1 2/2/2"] {
        assert!(matches!(parse_face(9, 9, 9, bad), Err(Error::ParseFace)), "{}", bad);
    }
}

#[test]
fn lines_say_what_their_first_word_says() {
    assert!(matches!(parse_line("o  Cube extra", 0, 0, 0), Ok(Line::Object(name)) if name == "Cube"));
    assert!(matches!(parse_line("g wheel", 0, 0, 0), Ok(Line::Group(name)) if name == "wheel"));
    assert!(matches!(parse_line(" v 1 2.5 -3 4", 0, 0, 0), Ok(Line::Vertex(w)) if w == ["1", "2.5", "-3"]));
    assert!(matches!(parse_line("vt 0.5 x", 0, 0, 0), Ok(Line::Texcoord(w)) if w == ["0.5", "x"]));
    assert!(matches!(parse_line("vn 0 1 0", 0, 0, 0), Ok(Line::Normal(w)) if w == ["0", "1", "0"]));
    assert!(matches!(parse_line("f 1 2 3", 3, 0, 0), Ok(Line::Face(Face::Tri(_)))));
    for other in ["", "   ", "# v 1 2 3", "usemtl x", "vp 1 2", "ff 1 2 3", "O Cube", "vtx 1 2"] {
        assert!(matches!(parse_line(other, 0, 0, 0), Ok(Line::Other)), "{}", other);
    }
}

#[test]
fn each_kind_of_line_has_its_error() {
    assert!(matches!(parse_line("o", 0, 0, 0), Err(Error::ParseObject)));
    assert!(matches!(parse_line("g  ", 0, 0, 0), Err(Error::ParseGroup)));
    assert!(matches!(parse_line("v 1 2", 0, 0, 0), Err(Error::ParseVertex)));
    assert!(matches!(parse_line("vt 1", 0, 0, 0), Err(Error::ParseTexcoord)));
    assert!(matches!(parse_line("vn", 0, 0, 0), Err(Error::ParseNormal)));
    assert!(matches!(parse_line("f 1 2", 0, 0, 0), Err(Error::ParseFace)));
    assert!(matches!(load("v 1 2 three"), Err(Error::ParseVertex)));
    assert!(matches!(load("vt 1 two"), Err(Error::ParseTexcoord)));
    assert!(matches!(load("vn 1 2 three"), Err(Error::ParseNormal)));
}

#[test]
fn face_without_object_or_group_goes_to_the_defaults() {
    let obj = load("v 0 0 0\nv 1 0 0\nv 0 1 0\nf -3 2 -1").unwrap();
    assert_eq!(
        obj.positions,
        vec![bits3(0.0, 0.0, 0.0), bits3(1.0, 0.0, 0.0), bits3(0.0, 1.0, 0.0)]
    );
    assert_eq!(obj.objects.len(), 1);
    assert_eq!(obj.objects[0].name, "default");
    assert_eq!(obj.objects[0].groups.len(), 1);
    assert_eq!(obj.objects[0].groups[0].name, "default");
    assert_eq!(obj.objects[0].groups[0].faces.len(), 1);
    assert!(matches!(
        obj.objects[0].groups[0].faces[0],
        Face::Tri([[1, 0, 0], [2, 0, 0], [3, 0, 0]])
    ));
    assert!(obj.is_well_formed());
}

#[test]
fn faces_are_kept_as_they_are_given() {
    let mut obj = OBJ::new();
    obj.add(Line::Face(Face::NGon(vec![[1, 0, 0], [2, 0, 0], [3, 0, 0]])));
    obj.add(Line::Face(Face::Quad([[1, 0, 0], [2, 0, 0], [3, 0, 0], [4, 0, 0]])));
    obj.add(Line::Other);
    obj.add(Line::Vertex(vec!["1".into(), "2".into(), "3".into()]));
    let faces = &obj.objects[0].groups[0].faces;
    assert_eq!(faces.len(), 2);
    assert!(matches!(&faces[0], Face::NGon(v) if v.len() == 3));
    assert!(matches!(&faces[1], Face::Quad(_)));
    assert!(obj.positions.is_empty());
}

#[test]
fn lines_build_the_scene() {
    let obj = load("f 1 2 3\ng a\nf 1 2 3 4\no b\ng c\ng d\nf 3 2 1\nf 1 2 3 4 5\no e\nv 0 0 0").unwrap();
    assert_eq!(obj.positions.len(), 1);
    let names: Vec<(&str, Vec<(&str, usize)>)> = obj
        .objects
        .iter()
        .map(|o| {
            (
                o.name.as_str(),
                o.groups
                    .iter()
                    .map(|g| (g.name.as_str(), g.faces.len()))
                    .collect(),
            )
        })
        .collect();
    assert_eq!(
        names,
        vec![
            ("default", vec![("default", 1), ("a", 1)]),
            ("b", vec![("c", 0), ("d", 2)]),
            ("e", vec![]),
        ]
    );
    assert!(!obj.is_well_formed());
}
