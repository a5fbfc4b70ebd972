//! Going through the vertices of a scene, one after another.

use super::{Bits2, Bits3, Face, Group, Object, Vertex, OBJ, refers_within};
use vstd::prelude::*;

verus! {

/// The vertices of a scene from a place on, in order: the place is a vertex
/// of a face of a group of an object, each given by its index. An index past
/// the end leads on to the start of what follows.
pub open spec fn vertices_from(
    loops: Seq<Seq<Seq<Seq<Vertex>>>>,
    object: int,
    group: int,
    face: int,
    vertex: int,
) -> Seq<Vertex>
    decreases
        loops.len() - object,
        groups_left(loops, object, group),
        faces_left(loops, object, group, face),
        vertices_left(loops, object, group, face, vertex),
{
    if object < 0 || group < 0 || face < 0 || vertex < 0 || object >= loops.len() {
        Seq::empty()
    } else if group >= loops[object].len() {
        vertices_from(loops, object + 1, 0, 0, 0)
    } else if face >= loops[object][group].len() {
        vertices_from(loops, object, group + 1, 0, 0)
    } else if vertex >= loops[object][group][face].len() {
        vertices_from(loops, object, group, face + 1, 0)
    } else {
        seq![loops[object][group][face][vertex]] + vertices_from(
            loops,
            object,
            group,
            face,
            vertex + 1,
        )
    }
}

/// What is left of a row of rows from `from` on, laid end to end, is the row
/// at `from` and then what is left from the row after it.
proof fn rest_unfolds<A>(rows: Seq<Seq<A>>, from: int)
    requires
        0 <= from <= rows.len(),
    ensures
        from < rows.len() ==> rows.skip(from).flatten() == rows[from] + rows.skip(
            from + 1,
        ).flatten(),
        from == rows.len() ==> rows.skip(from).flatten() == Seq::<A>::empty(),
{
    if from < rows.len() {
        assert(rows.skip(from).drop_first() == rows.skip(from + 1));
    }
}

/// The vertices of the faces of a group from `face` on.
pub open spec fn faces_rest(faces: Seq<Seq<Vertex>>, face: int) -> Seq<Vertex> {
    faces.skip(face).flatten()
}

/// The vertices of the groups of an object from `group` on.
pub open spec fn groups_rest(groups: Seq<Seq<Seq<Vertex>>>, group: int) -> Seq<Vertex> {
    groups.skip(group).flatten().flatten()
}

/// The vertices of the objects of a scene from `object` on.
pub open spec fn objects_rest(loops: Seq<Seq<Seq<Seq<Vertex>>>>, object: int) -> Seq<Vertex> {
    loops.skip(object).flatten().flatten().flatten()
}

/// The vertices of the groups from `group` on are those of the group at
/// `group` and then those of the groups after it.
proof fn groups_rest_unfolds(groups: Seq<Seq<Seq<Vertex>>>, group: int)
    requires
        0 <= group <= groups.len(),
    ensures
        group < groups.len() ==> groups_rest(groups, group) == faces_rest(groups[group], 0)
            + groups_rest(groups, group + 1),
        group == groups.len() ==> groups_rest(groups, group) == Seq::<Vertex>::empty(),
{
    rest_unfolds(groups, group);
    if group < groups.len() {
        vstd::seq_lib::lemma_flatten_concat(groups[group], groups.skip(group + 1).flatten());
        assert(groups[group].skip(0) == groups[group]);
    }
}

/// The vertices of the objects from `object` on are those of the object at
/// `object` and then those of the objects after it.
proof fn objects_rest_unfolds(loops: Seq<Seq<Seq<Seq<Vertex>>>>, object: int)
    requires
        0 <= object <= loops.len(),
    ensures
        object < loops.len() ==> objects_rest(loops, object) == groups_rest(loops[object], 0)
            + objects_rest(loops, object + 1),
        object == loops.len() ==> objects_rest(loops, object) == Seq::<Vertex>::empty(),
{
    rest_unfolds(loops, object);
    if object < loops.len() {
        let first = loops[object];
        let others = loops.skip(object + 1).flatten();
        vstd::seq_lib::lemma_flatten_concat(first, others);
        vstd::seq_lib::lemma_flatten_concat(first.flatten(), others.flatten());
        assert(first.skip(0) == first);
    }
}

/// The vertices from a place on are the rest of the face at that place, then
/// the rest of its group, then the rest of its object, then the rest of the
/// scene.
proof fn vertices_from_is_the_rest(
    loops: Seq<Seq<Seq<Seq<Vertex>>>>,
    object: int,
    group: int,
    face: int,
    vertex: int,
)
    requires
        0 <= object <= loops.len(),
        0 <= group,
        0 <= face,
        0 <= vertex,
        object < loops.len() ==> group <= loops[object].len(),
        object < loops.len() && group < loops[object].len() ==> face
            <= loops[object][group].len(),
        object < loops.len() && group < loops[object].len() && face
            < loops[object][group].len() ==> vertex <= loops[object][group][face].len(),
    ensures
        vertices_from(loops, object, group, face, vertex) == if object >= loops.len() {
            Seq::<Vertex>::empty()
        } else if group >= loops[object].len() {
            objects_rest(loops, object + 1)
        } else if face >= loops[object][group].len() {
            groups_rest(loops[object], group + 1) + objects_rest(loops, object + 1)
        } else {
            loops[object][group][face].skip(vertex) + faces_rest(loops[object][group], face + 1)
                + groups_rest(loops[object], group + 1) + objects_rest(loops, object + 1)
        },
    decreases
        loops.len() - object,
        groups_left(loops, object, group),
        faces_left(loops, object, group, face),
        vertices_left(loops, object, group, face, vertex),
{
    if object < loops.len() {
        let groups = loops[object];
        let after = objects_rest(loops, object + 1);
        if group >= groups.len() {
            vertices_from_is_the_rest(loops, object + 1, 0, 0, 0);
            objects_rest_unfolds(loops, object + 1);
            if object + 1 < loops.len() {
                groups_rest_unfolds(loops[object + 1], 0);
                if 0 < loops[object + 1].len() {
                    rest_unfolds(loops[object + 1][0], 0);
                }
            }
        } else if face >= groups[group].len() {
            vertices_from_is_the_rest(loops, object, group + 1, 0, 0);
            groups_rest_unfolds(groups, group + 1);
            if group + 1 < groups.len() {
                rest_unfolds(groups[group + 1], 0);
            }
        } else if vertex >= groups[group][face].len() {
            vertices_from_is_the_rest(loops, object, group, face + 1, 0);
            rest_unfolds(groups[group], face + 1);
        } else {
            vertices_from_is_the_rest(loops, object, group, face, vertex + 1);
        }
    }
}

/// The vertices of a scene, from its start, are its objects laid end to
/// end, each as its groups laid end to end, each as its faces laid end to
/// end.
pub proof fn vertices_are_the_scene_laid_flat(loops: Seq<Seq<Seq<Seq<Vertex>>>>)
    ensures
        vertices_from(loops, 0, 0, 0, 0) == loops.flatten().flatten().flatten(),
{
    vertices_from_is_the_rest(loops, 0, 0, 0, 0);
    objects_rest_unfolds(loops, 0);
    assert(loops.skip(0) == loops);
    if 0 < loops.len() {
        groups_rest_unfolds(loops[0], 0);
        if 0 < loops[0].len() {
            rest_unfolds(loops[0][0], 0);
        }
    }
}

/// The groups of the object from `group` on, if there is such an object.
pub open spec fn groups_left(loops: Seq<Seq<Seq<Seq<Vertex>>>>, object: int, group: int) -> int {
    if 0 <= object < loops.len() {
        loops[object].len() - group
    } else {
        0
    }
}

/// The faces of the group from `face` on, if there is such a group.
pub open spec fn faces_left(
    loops: Seq<Seq<Seq<Seq<Vertex>>>>,
    object: int,
    group: int,
    face: int,
) -> int {
    if 0 <= object < loops.len() && 0 <= group < loops[object].len() {
        loops[object][group].len() - face
    } else {
        0
    }
}

/// The vertices of the face from `vertex` on, if there is such a face.
pub open spec fn vertices_left(
    loops: Seq<Seq<Seq<Seq<Vertex>>>>,
    object: int,
    group: int,
    face: int,
    vertex: int,
) -> int {
    if 0 <= object < loops.len() && 0 <= group < loops[object].len() && 0 <= face
        < loops[object][group].len() {
        loops[object][group][face].len() - vertex
    } else {
        0
    }
}

/// An iterator over what the vertices of a scene refer to, in the order of
/// its objects, their groups, the faces of those and the vertices of each
/// face.
pub struct FlatIterator<'a> {
    obj: &'a OBJ,
    object: usize,
    group: usize,
    face: usize,
    vertex: usize,
}

impl<'a> View for FlatIterator<'a> {
    type V = Seq<Vertex>;

    /// The vertices that are still to come.
    closed spec fn view(&self) -> Seq<Vertex> {
        vertices_from(
            self.obj.loops(),
            self.object as int,
            self.group as int,
            self.face as int,
            self.vertex as int,
        )
    }
}

impl<'a> FlatIterator<'a> {
    /// The scene that the iterator goes through.
    pub closed spec fn scene(&self) -> &OBJ {
        self.obj
    }

    /// Whether every face of the scene refers to coordinates that are there.
    pub open spec fn wf(&self) -> bool {
        self.scene().wf()
    }

    /// Returns what the next vertex refers to, or `None` after the last.
    pub fn next(&mut self) -> (item: Option<(Bits3, Bits2, Bits3)>)
        requires
            old(self).wf(),
        ensures
            final(self).wf(),
            final(self).scene() == old(self).scene(),
            old(self)@.len() == 0 ==> item is None && final(self)@.len() == 0,
            old(self)@.len() > 0 ==> item == Some(old(self).scene().resolve(old(self)@[0]))
                && final(self)@ == old(self)@.skip(1),
    {
        let obj: &OBJ = self.obj;
        loop
            invariant
                self.obj == obj,
                obj == old(self).obj,
                obj.wf(),
                self@ == old(self)@,
            decreases
                obj.loops().len() - self.object,
                groups_left(obj.loops(), self.object as int, self.group as int),
                faces_left(obj.loops(), self.object as int, self.group as int, self.face as int),
                vertices_left(
                    obj.loops(),
                    self.object as int,
                    self.group as int,
                    self.face as int,
                    self.vertex as int,
                ),
        {
            let ghost here = self@;
            if self.object >= obj.objects.len() {
                return None;
            }
            let object: &Object = &obj.objects[self.object];
            if self.group < object.groups.len() {
                let group: &Group = &object.groups[self.group];
                if self.face < group.faces.len() {
                    let face: &Face = &group.faces[self.face];
                    match face.get_vertex(self.vertex) {
                        Some(vertex) => {
                            proof {
                                face.vertices_bounded();
                            }
                            self.vertex += 1;
                            return Some(obj.lookup(vertex));
                        },
                        None => {
                            self.vertex = 0;
                            self.face += 1;
                        },
                    }
                } else {
                    self.vertex = 0;
                    self.face = 0;
                    self.group += 1;
                }
            } else {
                self.vertex = 0;
                self.face = 0;
                self.group = 0;
                self.object += 1;
            }
        }
    }
}

impl OBJ {
    /// Creates an iterator over what the vertices of the scene refer to,
    /// in the order of its objects, their groups, the faces of those and the
    /// vertices of each face.
    pub fn flat_iter(&self) -> (iter: FlatIterator<'_>)
        requires
            self.wf(),
        ensures
            iter.wf(),
            iter.scene() == self,
            iter@ == self.loops().flatten().flatten().flatten(),
    {
        proof {
            vertices_are_the_scene_laid_flat(self.loops());
        }
        FlatIterator { obj: self, object: 0, group: 0, face: 0, vertex: 0 }
    }
}

} // verus!
