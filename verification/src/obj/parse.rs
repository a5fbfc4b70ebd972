//! Reading the lines of a scene file.

use super::text::{
    ends_follow, field_end, find_field_end, find_word_end, find_word_start, int32, parse_int,
    to_chars, word_end, word_start,
};
use super::{
    face_of, Error, Face, FaceModel, Group, GroupModel, Object, ObjectModel, Vertex, OBJ,
};
use vstd::prelude::*;
use vstd::string::StrSliceExecFns;

verus! {

/// The index that a face names by `index`, among `count` coordinates: a
/// negative index counts back from the last coordinate. What comes out below
/// zero wraps around.
pub open spec fn resolved(index: i32, count: nat) -> usize {
    let r = if index < 0 {
        count + index + 1
    } else {
        index as int
    };
    if r >= 0 {
        r as usize
    } else {
        (usize::MAX + 1 + r) as usize
    }
}

/// Computes the index that a face names by `index`.
fn calc_index(index: i32, count: usize) -> (at: usize)
    requires
        count <= i32::MAX,
    ensures
        at == resolved(index, count as nat),
{
    if index < 0 {
        let r: i64 = count as i64 + index as i64 + 1;
        if r >= 0 {
            r as usize
        } else {
            usize::MAX - ((-(r + 1)) as usize)
        }
    } else {
        index as usize
    }
}

/// The vertex that the word from `from` to `to` writes: up to three integers
/// with slashes between them, for the position, the texture coordinate and
/// the normal. The texture coordinate may be left out or empty, and the
/// normal may be left out: each is then 0.
pub open spec fn vertex_at(
    s: Seq<char>,
    from: int,
    to: int,
    positions: nat,
    uvs: nat,
    normals: nat,
) -> Option<Vertex> {
    let a = field_end(s, from, to);
    let b = field_end(s, a + 1, to);
    let c = field_end(s, b + 1, to);
    let pos = int32(s.subrange(from, a));
    let coord = if a >= to || b == a + 1 {
        Some(0i32)
    } else {
        int32(s.subrange(a + 1, b))
    };
    let normal = if a >= to || b >= to {
        Some(0i32)
    } else {
        int32(s.subrange(b + 1, c))
    };
    match (pos, coord, normal) {
        (Some(x), Some(y), Some(z)) => Some(
            [resolved(x, positions), resolved(y, uvs), resolved(z, normals)],
        ),
        _ => None,
    }
}

/// Reads the vertex that the word from `from` to `to` writes.
fn parse_vertex(
    chars: &Vec<char>,
    from: usize,
    to: usize,
    pos_size: usize,
    uv_size: usize,
    norm_size: usize,
) -> (r: Option<Vertex>)
    requires
        from <= to <= chars@.len(),
        pos_size <= i32::MAX,
        uv_size <= i32::MAX,
        norm_size <= i32::MAX,
    ensures
        r == vertex_at(
            chars@,
            from as int,
            to as int,
            pos_size as nat,
            uv_size as nat,
            norm_size as nat,
        ),
{
    let a: usize = find_field_end(chars, from, to);
    let pos: i32 = match parse_int(chars, from, a) {
        Some(pos) => pos,
        None => {
            return None;
        },
    };
    if a >= to {
        return Some([calc_index(pos, pos_size), calc_index(0, uv_size), calc_index(0, norm_size)]);
    }
    let b: usize = find_field_end(chars, a + 1, to);
    let coord: i32 = if b == a + 1 {
        0
    } else {
        match parse_int(chars, a + 1, b) {
            Some(coord) => coord,
            None => {
                return None;
            },
        }
    };
    let normal: i32 = if b >= to {
        0
    } else {
        let c: usize = find_field_end(chars, b + 1, to);
        match parse_int(chars, b + 1, c) {
            Some(normal) => normal,
            None => {
                return None;
            },
        }
    };
    Some([calc_index(pos, pos_size), calc_index(coord, uv_size), calc_index(normal, norm_size)])
}

/// The vertices that the words from `from` on write, if each word writes one.
pub open spec fn vertices_at(
    s: Seq<char>,
    from: int,
    positions: nat,
    uvs: nat,
    normals: nat,
) -> Option<Seq<Vertex>>
    decreases s.len() - from,
{
    let a = word_start(s, from);
    let b = word_end(s, a);
    if from < 0 || a >= s.len() {
        Some(Seq::empty())
    } else {
        proof {
            ends_follow(s, from, from);
            ends_follow(s, a, a);
        }
        match (vertex_at(s, a, b, positions, uvs, normals), vertices_at(s, b, positions, uvs, normals)) {
            (Some(vertex), Some(rest)) => Some(seq![vertex] + rest),
            _ => None,
        }
    }
}

/// The face that the words from `from` on write: a loop of three vertices or
/// more, of the kind that goes with their number.
pub open spec fn face_at(s: Seq<char>, from: int, positions: nat, uvs: nat, normals: nat) -> Option<
    FaceModel,
> {
    match vertices_at(s, from, positions, uvs, normals) {
        Some(vertices) => if vertices.len() >= 3 {
            Some(face_of(vertices))
        } else {
            None
        },
        None => None,
    }
}

/// Reads the face that the words of `chars` from `from` on write.
pub fn parse_face_at(
    chars: &Vec<char>,
    from: usize,
    pos_size: usize,
    uv_size: usize,
    norm_size: usize,
) -> (r: Result<Face, Error>)
    requires
        from <= chars@.len(),
        pos_size <= i32::MAX,
        uv_size <= i32::MAX,
        norm_size <= i32::MAX,
    ensures
        match face_at(chars@, from as int, pos_size as nat, uv_size as nat, norm_size as nat) {
            Some(face) => r is Ok && r->Ok_0@ == face,
            None => r is Err && r->Err_0 is ParseFace,
        },
{
    let ghost s = chars@;
    let ghost positions = pos_size as nat;
    let ghost uvs = uv_size as nat;
    let ghost normals = norm_size as nat;
    let mut indices: Vec<Vertex> = Vec::new();
    let mut at: usize = from;
    loop
        invariant_except_break
            vertices_at(s, from as int, positions, uvs, normals) == match vertices_at(
                s,
                at as int,
                positions,
                uvs,
                normals,
            ) {
                Some(rest) => Some(indices@ + rest),
                None => None,
            },
        invariant
            s == chars@,
            positions == pos_size as nat,
            uvs == uv_size as nat,
            normals == norm_size as nat,
            pos_size <= i32::MAX,
            uv_size <= i32::MAX,
            norm_size <= i32::MAX,
            from <= at <= s.len(),
        ensures
            vertices_at(s, from as int, positions, uvs, normals) == Some(indices@),
        decreases s.len() - at,
    {
        let a: usize = find_word_start(chars, at);
        if a >= chars.len() {
            break;
        }
        let b: usize = find_word_end(chars, a);
        proof {
            ends_follow(s, a as int, a as int);
        }
        match parse_vertex(chars, a, b, pos_size, uv_size, norm_size) {
            Some(vertex) => {
                indices.push(vertex);
            },
            None => {
                return Err(Error::ParseFace);
            },
        }
        at = b;
    }
    let n: usize = indices.len();
    if n <= 2 {
        Err(Error::ParseFace)
    } else if n == 3 {
        let face = Face::Tri([indices[0], indices[1], indices[2]]);
        assert(face.vertices() =~= indices@);
        Ok(face)
    } else if n == 4 {
        let face = Face::Quad([indices[0], indices[1], indices[2], indices[3]]);
        assert(face.vertices() =~= indices@);
        Ok(face)
    } else {
        Ok(Face::NGon(indices))
    }
}

/// Reads the face that the given words write, where the scene has so many
/// positions, texture coordinates and normals. The words give one vertex
/// each, and white space stands between them.
pub fn parse_face(pos_size: usize, uv_size: usize, norm_size: usize, words: &str) -> (r: Result<
    Face,
    Error,
>)
    requires
        pos_size <= i32::MAX,
        uv_size <= i32::MAX,
        norm_size <= i32::MAX,
    ensures
        match face_at(words@, 0, pos_size as nat, uv_size as nat, norm_size as nat) {
            Some(face) => r is Ok && r->Ok_0@ == face,
            None => r is Err && r->Err_0 is ParseFace,
        },
{
    let chars = to_chars(words);
    parse_face_at(&chars, 0, pos_size, uv_size, norm_size)
}

/// The next `count` words from `from` on, if there are so many.
pub open spec fn words_at(s: Seq<char>, from: int, count: nat) -> Option<Seq<Seq<char>>>
    decreases count,
{
    let a = word_start(s, from);
    let b = word_end(s, a);
    if count == 0 {
        Some(Seq::empty())
    } else if from < 0 || a >= s.len() {
        None
    } else {
        match words_at(s, b, (count - 1) as nat) {
            Some(rest) => Some(seq![s.subrange(a, b)] + rest),
            None => None,
        }
    }
}

/// The words that [`words_at`] gives are as many as were asked for.
pub proof fn words_at_counts(s: Seq<char>, from: int, count: nat)
    ensures
        words_at(s, from, count) is Some ==> words_at(s, from, count)->0.len() == count,
    decreases count,
{
    if count > 0 {
        words_at_counts(s, word_end(s, word_start(s, from)), (count - 1) as nat);
    }
}

/// What a line of a scene file says, as contracts see it.
pub enum Statement {
    /// A new object begins, with this name.
    Object(Seq<char>),
    /// A new group begins, with this name.
    Group(Seq<char>),
    /// A position, in three words.
    Vertex(Seq<Seq<char>>),
    /// A texture coordinate, in two words.
    Texcoord(Seq<Seq<char>>),
    /// A normal, in three words.
    Normal(Seq<Seq<char>>),
    /// A face.
    Face(FaceModel),
    /// Nothing that the scene keeps.
    Other,
}

/// What a line of a scene file says. The numbers of a position, a texture
/// coordinate or a normal are handed on as they are written.
#[derive(Debug)]
pub enum Line {
    /// A new object begins, with this name.
    Object(String),
    /// A new group begins, with this name.
    Group(String),
    /// A position, in three words.
    Vertex(Vec<String>),
    /// A texture coordinate, in two words.
    Texcoord(Vec<String>),
    /// A normal, in three words.
    Normal(Vec<String>),
    /// A face.
    Face(Face),
    /// Nothing that the scene keeps.
    Other,
}

/// The words of the strings.
pub open spec fn texts(words: Seq<String>) -> Seq<Seq<char>> {
    words.map_values(|word: String| word@)
}

impl View for Line {
    type V = Statement;

    open spec fn view(&self) -> Statement {
        match self {
            Line::Object(name) => Statement::Object(name@),
            Line::Group(name) => Statement::Group(name@),
            Line::Vertex(words) => Statement::Vertex(texts(words@)),
            Line::Texcoord(words) => Statement::Texcoord(texts(words@)),
            Line::Normal(words) => Statement::Normal(texts(words@)),
            Line::Face(face) => Statement::Face(face@),
            Line::Other => Statement::Other,
        }
    }
}

/// What the line says, where the scene has so many positions, texture
/// coordinates and normals. The first word decides: `o` and `g` take a name,
/// `v`, `vt` and `vn` take three, two and three numbers, and `f` takes the
/// vertices of a face. Any other line says nothing.
pub open spec fn statement(s: Seq<char>, positions: nat, uvs: nat, normals: nat) -> Result<
    Statement,
    Error,
> {
    let a = word_start(s, 0);
    let b = word_end(s, a);
    let head = s.subrange(a, b);
    if a >= s.len() {
        Ok(Statement::Other)
    } else if head == seq!['o'] {
        match words_at(s, b, 1) {
            Some(words) => Ok(Statement::Object(words[0])),
            None => Err(Error::ParseObject),
        }
    } else if head == seq!['g'] {
        match words_at(s, b, 1) {
            Some(words) => Ok(Statement::Group(words[0])),
            None => Err(Error::ParseGroup),
        }
    } else if head == seq!['v'] {
        match words_at(s, b, 3) {
            Some(words) => Ok(Statement::Vertex(words)),
            None => Err(Error::ParseVertex),
        }
    } else if head == seq!['v', 't'] {
        match words_at(s, b, 2) {
            Some(words) => Ok(Statement::Texcoord(words)),
            None => Err(Error::ParseTexcoord),
        }
    } else if head == seq!['v', 'n'] {
        match words_at(s, b, 3) {
            Some(words) => Ok(Statement::Normal(words)),
            None => Err(Error::ParseNormal),
        }
    } else if head == seq!['f'] {
        match face_at(s, b, positions, uvs, normals) {
            Some(face) => Ok(Statement::Face(face)),
            None => Err(Error::ParseFace),
        }
    } else {
        Ok(Statement::Other)
    }
}

/// Takes the next word of the line from `from` on.
fn take_word(line: &str, chars: &Vec<char>, from: usize) -> (r: Option<String>)
    requires
        chars@ == line@,
        from <= chars@.len(),
    ensures
        match words_at(line@, from as int, 1) {
            Some(words) => r is Some && r->0@ == words[0],
            None => r is None,
        },
{
    let a: usize = find_word_start(chars, from);
    if a >= chars.len() {
        return None;
    }
    let b: usize = find_word_end(chars, a);
    assert(words_at(line@, b as int, 0) == Some(Seq::<Seq<char>>::empty()));
    Some(line.substring_char(a, b).to_owned())
}

/// Takes the next `count` words of the line from `from` on.
fn take_words(line: &str, chars: &Vec<char>, from: usize, count: usize) -> (r: Option<Vec<String>>)
    requires
        chars@ == line@,
        from <= chars@.len(),
    ensures
        match words_at(line@, from as int, count as nat) {
            Some(words) => r is Some && texts(r->0@) == words,
            None => r is None,
        },
{
    let ghost s = line@;
    let mut words: Vec<String> = Vec::with_capacity(count);
    let mut at: usize = from;
    let mut taken: usize = 0;
    while taken < count
        invariant
            s == line@,
            chars@ == s,
            from <= at <= s.len(),
            taken <= count,
            words_at(s, from as int, count as nat) == match words_at(
                s,
                at as int,
                (count - taken) as nat,
            ) {
                Some(rest) => Some(texts(words@) + rest),
                None => None,
            },
        decreases count - taken,
    {
        let a: usize = find_word_start(chars, at);
        if a >= chars.len() {
            return None;
        }
        let b: usize = find_word_end(chars, a);
        let word: String = line.substring_char(a, b).to_owned();
        words.push(word);
        at = b;
        taken += 1;
    }
    Some(words)
}

/// Reads what the line says, where the scene has so many positions, texture
/// coordinates and normals.
pub fn parse_line(line: &str, pos_size: usize, uv_size: usize, norm_size: usize) -> (r: Result<
    Line,
    Error,
>)
    requires
        pos_size <= i32::MAX,
        uv_size <= i32::MAX,
        norm_size <= i32::MAX,
    ensures
        match statement(line@, pos_size as nat, uv_size as nat, norm_size as nat) {
            Ok(said) => r is Ok && r->Ok_0@ == said,
            Err(e) => r is Err && r->Err_0 == e,
        },
{
    let chars = to_chars(line);
    let a: usize = find_word_start(&chars, 0);
    if a >= chars.len() {
        return Ok(Line::Other);
    }
    let b: usize = find_word_end(&chars, a);
    let ghost head = line@.subrange(a as int, b as int);
    proof {
        ends_follow(line@, 0, 0);
        ends_follow(line@, a as int, a as int);
    }
    let one: bool = b - a == 1;
    let two: bool = b - a == 2;
    if one && chars[a] == 'o' {
        assert(head == seq!['o']);
        match take_word(line, &chars, b) {
            Some(name) => Ok(Line::Object(name)),
            None => Err(Error::ParseObject),
        }
    } else if one && chars[a] == 'g' {
        assert(head == seq!['g']);
        assert(head[0] == 'g');
        match take_word(line, &chars, b) {
            Some(name) => Ok(Line::Group(name)),
            None => Err(Error::ParseGroup),
        }
    } else if one && chars[a] == 'v' {
        assert(head == seq!['v']);
        assert(head[0] == 'v');
        match take_words(line, &chars, b, 3) {
            Some(words) => Ok(Line::Vertex(words)),
            None => Err(Error::ParseVertex),
        }
    } else if two && chars[a] == 'v' && chars[a + 1] == 't' {
        assert(head == seq!['v', 't']);
        assert(head[0] == 'v' && head[1] == 't');
        match take_words(line, &chars, b, 2) {
            Some(words) => Ok(Line::Texcoord(words)),
            None => Err(Error::ParseTexcoord),
        }
    } else if two && chars[a] == 'v' && chars[a + 1] == 'n' {
        assert(head == seq!['v', 'n']);
        assert(head[0] == 'v' && head[1] == 'n');
        match take_words(line, &chars, b, 3) {
            Some(words) => Ok(Line::Normal(words)),
            None => Err(Error::ParseNormal),
        }
    } else if one && chars[a] == 'f' {
        assert(head == seq!['f']);
        assert(head[0] == 'f');
        match parse_face_at(&chars, b, pos_size, uv_size, norm_size) {
            Ok(face) => Ok(Line::Face(face)),
            Err(_) => Err(Error::ParseFace),
        }
    } else {
        assert(head.len() == b - a);
        assert(head[0] == chars@[a as int]);
        assert(head.len() >= 2 ==> head[1] == chars@[a + 1]);
        assert(seq!['o'].len() == 1 && seq!['o'][0] == 'o');
        assert(seq!['g'].len() == 1 && seq!['g'][0] == 'g');
        assert(seq!['v'].len() == 1 && seq!['v'][0] == 'v');
        assert(seq!['f'].len() == 1 && seq!['f'][0] == 'f');
        assert(seq!['v', 't'].len() == 2 && seq!['v', 't'][0] == 'v' && seq!['v', 't'][1] == 't');
        assert(seq!['v', 'n'].len() == 2 && seq!['v', 'n'][0] == 'v' && seq!['v', 'n'][1] == 'n');
        Ok(Line::Other)
    }
}

/// The objects, with an empty one named `default` where there is none.
pub open spec fn with_object(objects: Seq<ObjectModel>) -> Seq<ObjectModel> {
    if objects.len() == 0 {
        seq![ObjectModel { name: "default"@, groups: Seq::empty() }]
    } else {
        objects
    }
}

/// The groups, with an empty one named `default` where there is none.
pub open spec fn with_group(groups: Seq<GroupModel>) -> Seq<GroupModel> {
    if groups.len() == 0 {
        seq![GroupModel { name: "default"@, faces: Seq::empty(), material: None }]
    } else {
        groups
    }
}

/// The objects of a scene after a line has said `said`. A new object comes
/// last, a new group comes last in the last object, and a face comes last in
/// the last group of the last object; where that object or that group is
/// missing it is made first. A line that says anything else leaves the
/// objects as they are.
pub open spec fn after(objects: Seq<ObjectModel>, said: Statement) -> Seq<ObjectModel> {
    match said {
        Statement::Object(name) => objects.push(ObjectModel { name, groups: Seq::empty() }),
        Statement::Group(name) => {
            let objects = with_object(objects);
            let last = objects.last();
            let group = GroupModel { name, faces: Seq::empty(), material: None };
            objects.update(
                objects.len() - 1,
                ObjectModel { groups: last.groups.push(group), ..last },
            )
        },
        Statement::Face(face) => {
            let objects = with_object(objects);
            let last = objects.last();
            let groups = with_group(last.groups);
            let group = groups.last();
            objects.update(
                objects.len() - 1,
                ObjectModel {
                    groups: groups.update(
                        groups.len() - 1,
                        GroupModel { faces: group.faces.push(face), ..group },
                    ),
                    ..last
                },
            )
        },
        _ => objects,
    }
}

impl OBJ {
    /// Takes what a line has said into the scene. The numbers of a position,
    /// a texture coordinate or a normal are not taken: they are for the caller
    /// to read.
    pub fn add(&mut self, line: Line)
        ensures
            final(self).objects_model() == after(old(self).objects_model(), line@),
            line matches Line::Face(face) ==> final(self).objects@.last().groups@.last().faces@.last()
                == face,
            final(self).positions == old(self).positions,
            final(self).normals == old(self).normals,
            final(self).uvs == old(self).uvs,
            final(self).materials == old(self).materials,
    {
        let ghost objects = old(self).objects_model();
        match line {
            Line::Object(name) => {
                let object = Object { name, groups: Vec::new() };
                let ghost model = object@;
                assert(model.groups =~= Seq::<GroupModel>::empty());
                self.objects.push(object);
            },
            Line::Group(name) => {
                let group = Group { name, faces: Vec::new(), material: None };
                let ghost model = group@;
                assert(model.faces =~= Seq::<FaceModel>::empty());
                let object = self.last_object();
                let ghost before = object@;
                assert(objects.len() == 0 ==> before.groups =~= Seq::<GroupModel>::empty());
                object.groups.push(group);
                assert(object@.groups =~= before.groups.push(model));
            },
            Line::Face(face) => {
                let ghost given = face;
                let object = self.last_object();
                let ghost above = object@;
                let group = object.last_group();
                let ghost before = group@;
                assert(above.groups.len() == 0 ==> before.faces =~= Seq::<FaceModel>::empty());
                group.faces.push(face);
                assert(group@.faces =~= before.faces.push(given@));
                assert(object@.groups =~= with_group(above.groups).update(
                    with_group(above.groups).len() - 1,
                    group@,
                ));
            },
            _ => {},
        }
    }
}

} // verus!
