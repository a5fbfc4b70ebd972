//! The mesh model: a scene of objects, groups and faces over shared
//! coordinate arrays.

use vstd::prelude::*;

pub mod flat;
pub mod parse;
pub mod text;

pub use flat::FlatIterator;

verus! {

/// One corner of a face: the indices of its position, its texture coordinate
/// and its normal, in that order. Indices count from 1; for the texture
/// coordinate and the normal, 0 means that the corner has none.
pub type Vertex = [usize; 3];

/// Three coordinates, each kept as the bit pattern of an IEEE 754
/// single-precision number.
pub type Bits3 = [u32; 3];

/// Two coordinates, each kept as the bit pattern of an IEEE 754
/// single-precision number.
pub type Bits2 = [u32; 2];

/// Makes `std::io::Error` known as a type, so that [`Error::IO`] can carry
/// one. Nothing is claimed of what such an error holds.
#[verifier::external_type_specification]
#[verifier::external_body]
pub struct ExIoError(std::io::Error);

/// Whether the vertex refers to coordinates that are there, among so many
/// positions, texture coordinates and normals. A position is always referred
/// to; a texture coordinate and a normal may be absent.
pub open spec fn refers_within(vertex: Vertex, positions: nat, uvs: nat, normals: nat) -> bool {
    &&& 1 <= vertex[0] <= positions
    &&& vertex[1] <= uvs
    &&& vertex[2] <= normals
}

/// Tests whether the vertex refers to coordinates that are there.
pub fn check_vertex(vertex: &Vertex, positions: usize, uvs: usize, normals: usize) -> (ok: bool)
    ensures
        ok == refers_within(*vertex, positions as nat, uvs as nat, normals as nat),
{
    1 <= vertex[0] && vertex[0] <= positions && vertex[1] <= uvs && vertex[2] <= normals
}

/// Errors that may occur while a scene is read.
#[derive(Debug)]
pub enum Error {
    IO(std::io::Error),
    ParseObject,
    ParseGroup,
    ParseFace,
    ParseVertex,
    ParseNormal,
    ParseTexcoord,
}

/// A single face of an [`Object`]: a closed loop of vertices.
#[derive(Debug)]
pub enum Face {
    /// A triangle.
    Tri([Vertex; 3]),
    /// A quadrilateral.
    Quad([Vertex; 4]),
    /// A polygon with any other number of vertices.
    NGon(Vec<Vertex>),
}

/// The three kinds of face.
pub enum Shape {
    Tri,
    Quad,
    NGon,
}

/// The kind of a face of so many vertices: a triangle has three, a
/// quadrilateral four, and any other face is a polygon.
pub open spec fn shape_of(vertices: nat) -> Shape {
    if vertices == 3 {
        Shape::Tri
    } else if vertices == 4 {
        Shape::Quad
    } else {
        Shape::NGon
    }
}

/// A face, as contracts see it.
pub struct FaceModel {
    pub shape: Shape,
    /// The vertex loop.
    pub vertices: Seq<Vertex>,
}

/// The face that a vertex loop makes.
pub open spec fn face_of(vertices: Seq<Vertex>) -> FaceModel {
    FaceModel { shape: shape_of(vertices.len()), vertices }
}

impl View for Face {
    type V = FaceModel;

    open spec fn view(&self) -> FaceModel {
        FaceModel { shape: self.shape(), vertices: self.vertices() }
    }
}

impl Face {
    /// The kind of the face.
    pub open spec fn shape(&self) -> Shape {
        match self {
            Face::Tri(_) => Shape::Tri,
            Face::Quad(_) => Shape::Quad,
            Face::NGon(_) => Shape::NGon,
        }
    }

    /// The vertex loop of the face, whatever its variant.
    pub open spec fn vertices(&self) -> Seq<Vertex> {
        match self {
            Face::Tri(v) => v@,
            Face::Quad(v) => v@,
            Face::NGon(v) => v@,
        }
    }

    /// A face has no more vertices than a machine can count.
    pub proof fn vertices_bounded(&self)
        ensures
            self.vertices().len() <= usize::MAX,
    {
        match self {
            Face::Tri(v) => {},
            Face::Quad(v) => {},
            Face::NGon(v) => {
                vstd::std_specs::vec::axiom_spec_len(v);
            },
        }
    }

    /// The number of vertices of the face.
    pub fn len(&self) -> (n: usize)
        ensures
            n == self.vertices().len(),
    {
        match self {
            Face::Tri(_) => 3,
            Face::Quad(_) => 4,
            Face::NGon(v) => v.len(),
        }
    }

    /// The vertex at `index` in the loop, if the face has that many.
    pub fn get_vertex(&self, index: usize) -> (r: Option<&Vertex>)
        ensures
            index < self.vertices().len() ==> r == Some(&self.vertices()[index as int]),
            index >= self.vertices().len() ==> r is None,
    {
        match self {
            Face::Tri(v) => if index < 3 { Some(&v[index]) } else { None },
            Face::Quad(v) => if index < 4 { Some(&v[index]) } else { None },
            Face::NGon(v) => if index < v.len() { Some(&v[index]) } else { None },
        }
    }

    /// Whether every vertex of the face refers to coordinates that are there.
    pub open spec fn refers_within(&self, positions: nat, uvs: nat, normals: nat) -> bool {
        forall|k: int|
            0 <= k < self.vertices().len() ==> refers_within(
                #[trigger] self.vertices()[k],
                positions,
                uvs,
                normals,
            )
    }

    /// Tests whether every vertex of the face refers to coordinates that are
    /// there.
    pub fn check(&self, positions: usize, uvs: usize, normals: usize) -> (ok: bool)
        ensures
            ok == self.refers_within(positions as nat, uvs as nat, normals as nat),
    {
        let n: usize = self.len();
        let mut k: usize = 0;
        while k < n
            invariant
                n == self.vertices().len(),
                k <= n,
                forall|i: int|
                    0 <= i < k ==> refers_within(
                        #[trigger] self.vertices()[i],
                        positions as nat,
                        uvs as nat,
                        normals as nat,
                    ),
            decreases n - k,
        {
            match self.get_vertex(k) {
                Some(vertex) => {
                    if !check_vertex(vertex, positions, uvs, normals) {
                        return false;
                    }
                },
                None => {},
            }
            k += 1;
        }
        true
    }

    /// A copy of the vertex loop.
    pub fn to_polygon(&self) -> (polygon: Vec<Vertex>)
        ensures
            polygon@ == self.vertices(),
    {
        let n: usize = self.len();
        let mut polygon: Vec<Vertex> = Vec::with_capacity(n);
        let mut i: usize = 0;
        while i < n
            invariant
                n == self.vertices().len(),
                i <= n,
                polygon@ == self.vertices().take(i as int),
            decreases n - i,
        {
            match self.get_vertex(i) {
                Some(v) => polygon.push(*v),
                None => {},
            }
            i += 1;
        }
        polygon
    }
}

/// A group, as contracts see it.
pub struct GroupModel {
    pub name: Seq<char>,
    pub faces: Seq<FaceModel>,
    pub material: Option<usize>,
}

/// An object, as contracts see it.
pub struct ObjectModel {
    pub name: Seq<char>,
    pub groups: Seq<GroupModel>,
}

/// A group within an [`Object`].
#[derive(Debug)]
pub struct Group {
    /// name of the group
    pub name: String,
    /// the faces of the group
    pub faces: Vec<Face>,
    /// optional material id
    pub material: Option<usize>,
}

impl View for Group {
    type V = GroupModel;

    open spec fn view(&self) -> GroupModel {
        GroupModel {
            name: self.name@,
            faces: self.faces@.map_values(|face: Face| face@),
            material: self.material,
        }
    }
}

impl Group {
    /// The vertex loops of the faces of the group, in order.
    pub open spec fn loops(&self) -> Seq<Seq<Vertex>> {
        self.faces@.map_values(|face: Face| face.vertices())
    }

    /// The faces of a group are no more, and no longer, than a machine can
    /// count.
    pub proof fn loops_bounded(&self)
        ensures
            self.loops().len() <= usize::MAX,
            forall|i: int|
                0 <= i < self.loops().len() ==> (#[trigger] self.loops()[i]).len() <= usize::MAX,
    {
        vstd::std_specs::vec::axiom_spec_len(&self.faces);
        assert forall|i: int| 0 <= i < self.loops().len() implies (#[trigger] self.loops()[i]).len()
            <= usize::MAX by {
            self.faces@[i].vertices_bounded();
        }
    }

    /// Whether every face of the group refers to coordinates that are there.
    pub open spec fn refers_within(&self, positions: nat, uvs: nat, normals: nat) -> bool {
        forall|f: int|
            0 <= f < self.faces@.len() ==> (#[trigger] self.faces@[f]).refers_within(
                positions,
                uvs,
                normals,
            )
    }

    /// Tests whether every face of the group refers to coordinates that are
    /// there.
    pub fn check(&self, positions: usize, uvs: usize, normals: usize) -> (ok: bool)
        ensures
            ok == self.refers_within(positions as nat, uvs as nat, normals as nat),
    {
        let n: usize = self.faces.len();
        let mut f: usize = 0;
        while f < n
            invariant
                n == self.faces@.len(),
                f <= n,
                forall|i: int|
                    0 <= i < f ==> (#[trigger] self.faces@[i]).refers_within(
                        positions as nat,
                        uvs as nat,
                        normals as nat,
                    ),
            decreases n - f,
        {
            if !self.faces[f].check(positions, uvs, normals) {
                return false;
            }
            f += 1;
        }
        true
    }

    /// Constructs an empty group with the given name.
    pub fn new(name: &str) -> (group: Self)
        ensures
            group.name@ == name@,
            group.faces@.len() == 0,
            group.material is None,
    {
        Self { name: name.to_owned(), faces: Vec::new(), material: None }
    }
}

/// An object within a scene.
#[derive(Debug)]
pub struct Object {
    /// name of the object
    pub name: String,
    /// the groups of the object
    pub groups: Vec<Group>,
}

impl View for Object {
    type V = ObjectModel;

    open spec fn view(&self) -> ObjectModel {
        ObjectModel { name: self.name@, groups: self.groups@.map_values(|group: Group| group@) }
    }
}

impl Object {
    /// The vertex loops of the object, group by group.
    pub open spec fn loops(&self) -> Seq<Seq<Seq<Vertex>>> {
        self.groups@.map_values(|group: Group| group.loops())
    }

    /// The groups of an object, their faces and the vertices of those are no
    /// more than a machine can count.
    pub proof fn loops_bounded(&self)
        ensures
            self.loops().len() <= usize::MAX,
            forall|i: int|
                0 <= i < self.loops().len() ==> {
                    &&& (#[trigger] self.loops()[i]).len() <= usize::MAX
                    &&& forall|k: int|
                        0 <= k < self.loops()[i].len() ==> (#[trigger] self.loops()[i][k]).len()
                            <= usize::MAX
                },
    {
        vstd::std_specs::vec::axiom_spec_len(&self.groups);
        assert forall|i: int| 0 <= i < self.loops().len() implies {
            &&& (#[trigger] self.loops()[i]).len() <= usize::MAX
            &&& forall|k: int|
                0 <= k < self.loops()[i].len() ==> (#[trigger] self.loops()[i][k]).len()
                    <= usize::MAX
        } by {
            self.groups@[i].loops_bounded();
        }
    }

    /// Whether every face of the object refers to coordinates that are there.
    pub open spec fn refers_within(&self, positions: nat, uvs: nat, normals: nat) -> bool {
        forall|g: int|
            0 <= g < self.groups@.len() ==> (#[trigger] self.groups@[g]).refers_within(
                positions,
                uvs,
                normals,
            )
    }

    /// Tests whether every face of the object refers to coordinates that are
    /// there.
    pub fn check(&self, positions: usize, uvs: usize, normals: usize) -> (ok: bool)
        ensures
            ok == self.refers_within(positions as nat, uvs as nat, normals as nat),
    {
        let n: usize = self.groups.len();
        let mut g: usize = 0;
        while g < n
            invariant
                n == self.groups@.len(),
                g <= n,
                forall|i: int|
                    0 <= i < g ==> (#[trigger] self.groups@[i]).refers_within(
                        positions as nat,
                        uvs as nat,
                        normals as nat,
                    ),
            decreases n - g,
        {
            if !self.groups[g].check(positions, uvs, normals) {
                return false;
            }
            g += 1;
        }
        true
    }

    /// Constructs an empty object with a given name.
    pub fn new(name: &str) -> (object: Self)
        ensures
            object.name@ == name@,
            object.groups@.len() == 0,
    {
        Self { name: name.to_owned(), groups: Vec::new() }
    }

    /// Returns the last group of the object. An object without groups gets an
    /// empty one first, named `default`.
    pub fn last_group(&mut self) -> (group: &mut Group)
        ensures
            final(self).name == old(self).name,
            old(self).groups@.len() > 0 ==> {
                &&& *group == old(self).groups@.last()
                &&& final(self).groups@ == old(self).groups@.update(
                    old(self).groups@.len() - 1,
                    *final(group),
                )
            },
            old(self).groups@.len() == 0 ==> {
                &&& group.name@ == "default"@
                &&& group.faces@.len() == 0
                &&& group.material is None
                &&& final(self).groups@ == seq![*final(group)]
            },
    {
        if self.groups.len() == 0 {
            self.groups.push(Group::new("default"));
        }
        let last: usize = self.groups.len() - 1;
        &mut self.groups[last]
    }
}

/// A material of a material library.
#[derive(Debug)]
pub struct Material {
    pub name: String,
}

/// The content of a scene: the coordinates that its faces refer to, and its
/// objects.
#[derive(Debug, Default)]
pub struct OBJ {
    /// vertex positions
    pub positions: Vec<Bits3>,
    /// vertex normals
    pub normals: Vec<Bits3>,
    /// texture coordinates
    pub uvs: Vec<Bits2>,
    /// the objects of the scene
    pub objects: Vec<Object>,
    /// the materials of the material libraries that the scene names
    pub materials: Vec<Material>,
}

impl OBJ {
    /// The vertex loops of the scene, object by object.
    pub open spec fn loops(&self) -> Seq<Seq<Seq<Seq<Vertex>>>> {
        self.objects@.map_values(|object: Object| object.loops())
    }

    /// The objects of a scene, and what they hold, are no more than a machine
    /// can count.
    pub proof fn loops_bounded(&self)
        ensures
            self.loops().len() <= usize::MAX,
            forall|i: int|
                0 <= i < self.loops().len() ==> {
                    &&& (#[trigger] self.loops()[i]).len() <= usize::MAX
                    &&& forall|k: int|
                        0 <= k < self.loops()[i].len() ==> {
                            &&& (#[trigger] self.loops()[i][k]).len() <= usize::MAX
                            &&& forall|m: int|
                                0 <= m < self.loops()[i][k].len() ==> (
                                #[trigger] self.loops()[i][k][m]).len() <= usize::MAX
                        }
                },
    {
        vstd::std_specs::vec::axiom_spec_len(&self.objects);
        assert forall|i: int| 0 <= i < self.loops().len() implies {
            &&& (#[trigger] self.loops()[i]).len() <= usize::MAX
            &&& forall|k: int|
                0 <= k < self.loops()[i].len() ==> {
                    &&& (#[trigger] self.loops()[i][k]).len() <= usize::MAX
                    &&& forall|m: int|
                        0 <= m < self.loops()[i][k].len() ==> (#[trigger] self.loops()[i][k][m]).len()
                            <= usize::MAX
                }
        } by {
            self.objects@[i].loops_bounded();
        }
    }

    /// The objects of the scene, as contracts see them.
    pub open spec fn objects_model(&self) -> Seq<ObjectModel> {
        self.objects@.map_values(|object: Object| object@)
    }

    /// Whether every face of the scene refers to coordinates that are there.
    pub open spec fn wf(&self) -> bool {
        forall|o: int|
            0 <= o < self.objects@.len() ==> (#[trigger] self.objects@[o]).refers_within(
                self.positions@.len(),
                self.uvs@.len(),
                self.normals@.len(),
            )
    }

    /// Tests whether every face of the scene refers to coordinates that are
    /// there.
    pub fn is_well_formed(&self) -> (ok: bool)
        ensures
            ok == self.wf(),
    {
        let positions: usize = self.positions.len();
        let uvs: usize = self.uvs.len();
        let normals: usize = self.normals.len();
        let n: usize = self.objects.len();
        let mut o: usize = 0;
        while o < n
            invariant
                n == self.objects@.len(),
                positions == self.positions@.len(),
                uvs == self.uvs@.len(),
                normals == self.normals@.len(),
                o <= n,
                forall|i: int|
                    0 <= i < o ==> (#[trigger] self.objects@[i]).refers_within(
                        positions as nat,
                        uvs as nat,
                        normals as nat,
                    ),
            decreases n - o,
        {
            if !self.objects[o].check(positions, uvs, normals) {
                return false;
            }
            o += 1;
        }
        true
    }

    /// What a vertex refers to: its position, its texture coordinate and its
    /// normal. An absent texture coordinate or normal is all zero bits.
    pub open spec fn resolve(&self, vertex: Vertex) -> (Bits3, Bits2, Bits3) {
        (
            self.positions@[vertex[0] - 1],
            if vertex[1] > 0 {
                self.uvs@[vertex[1] - 1]
            } else {
                [0u32, 0u32]
            },
            if vertex[2] > 0 {
                self.normals@[vertex[2] - 1]
            } else {
                [0u32, 0u32, 0u32]
            },
        )
    }

    /// Returns the position of the given vertex.
    pub fn pos(&self, vertex: Vertex) -> (position: Bits3)
        requires
            1 <= vertex[0] <= self.positions@.len(),
        ensures
            position == self.positions@[vertex[0] - 1],
    {
        self.positions[vertex[0] - 1]
    }

    /// Returns what the given vertex refers to.
    pub fn lookup(&self, vertex: &Vertex) -> (found: (Bits3, Bits2, Bits3))
        requires
            refers_within(*vertex, self.positions@.len(), self.uvs@.len(), self.normals@.len()),
        ensures
            found == self.resolve(*vertex),
    {
        let pos: Bits3 = self.positions[vertex[0] - 1];
        let uv: Bits2 = if vertex[1] > 0 { self.uvs[vertex[1] - 1] } else { [0, 0] };
        let norm: Bits3 = if vertex[2] > 0 { self.normals[vertex[2] - 1] } else { [0, 0, 0] };
        (pos, uv, norm)
    }

    /// Returns the last object of the scene. A scene without objects gets an
    /// empty one first, named `default`.
    pub fn last_object(&mut self) -> (object: &mut Object)
        ensures
            final(self).positions == old(self).positions,
            final(self).normals == old(self).normals,
            final(self).uvs == old(self).uvs,
            final(self).materials == old(self).materials,
            old(self).objects@.len() > 0 ==> {
                &&& *object == old(self).objects@.last()
                &&& final(self).objects@ == old(self).objects@.update(
                    old(self).objects@.len() - 1,
                    *final(object),
                )
            },
            old(self).objects@.len() == 0 ==> {
                &&& object.name@ == "default"@
                &&& object.groups@.len() == 0
                &&& final(self).objects@ == seq![*final(object)]
            },
    {
        if self.objects.len() == 0 {
            self.objects.push(Object::new("default"));
        }
        let last: usize = self.objects.len() - 1;
        &mut self.objects[last]
    }

    /// Constructs an empty scene.
    pub fn new() -> (obj: Self)
        ensures
            obj.positions@.len() == 0,
            obj.normals@.len() == 0,
            obj.uvs@.len() == 0,
            obj.objects@.len() == 0,
            obj.materials@.len() == 0,
    {
        Self {
            positions: Vec::new(),
            normals: Vec::new(),
            uvs: Vec::new(),
            objects: Vec::new(),
            materials: Vec::new(),
        }
    }

    /// Constructs an empty scene with room for `capacity` positions, normals
    /// and texture coordinates.
    pub fn with_capacity(capacity: usize) -> (obj: Self)
        ensures
            obj.positions@.len() == 0,
            obj.normals@.len() == 0,
            obj.uvs@.len() == 0,
            obj.objects@.len() == 0,
            obj.materials@.len() == 0,
    {
        Self {
            positions: Vec::with_capacity(capacity),
            normals: Vec::with_capacity(capacity),
            uvs: Vec::with_capacity(capacity),
            objects: Vec::with_capacity(1),
            materials: Vec::new(),
        }
    }
}

} // verus!
