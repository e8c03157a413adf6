//! Many objects in one vertex stream: the meshes of differently shaped
//! objects merged into one mesh, with the index of its object recorded for
//! every vertex.
use vstd::prelude::*;
use crate::error::ChartMalformed;
use crate::geometry::{can_translate, translated, Mesh, Point3};
use crate::track_description::ObjectInstance;

verus! {

/// The most vertices that a merged mesh can have: every vertex needs a 16-bit
/// index.
pub const MAX_VERTICES: usize = 65536;

/// The vertex lists `parts`, one after the other.
pub open spec fn merged_vertices(parts: Seq<Seq<Point3>>) -> Seq<Point3>
    decreases parts.len(),
{
    if parts.len() == 0 {
        Seq::empty()
    } else {
        merged_vertices(parts.drop_last()) + parts.last()
    }
}

/// `indices`, each raised by `offset`.
pub open spec fn rebased(indices: Seq<u16>, offset: int) -> Seq<u16> {
    Seq::new(indices.len(), |k: int| (indices[k] + offset) as u16)
}

/// The index lists `index_parts`, one after the other, each list raised by
/// the number of vertices that stand before the vertices of its own mesh.
pub open spec fn merged_indices(vertex_parts: Seq<Seq<Point3>>, index_parts: Seq<Seq<u16>>) -> Seq<
    u16,
>
    decreases index_parts.len(),
{
    if index_parts.len() == 0 {
        Seq::empty()
    } else {
        merged_indices(vertex_parts.drop_last(), index_parts.drop_last()) + rebased(
            index_parts.last(),
            merged_vertices(vertex_parts.drop_last()).len() as int,
        )
    }
}

/// For every merged vertex, the position in `parts` of the list that it
/// came from.
pub open spec fn merged_object_indices(parts: Seq<Seq<Point3>>) -> Seq<usize>
    decreases parts.len(),
{
    if parts.len() == 0 {
        Seq::empty()
    } else {
        merged_object_indices(parts.drop_last()) + Seq::new(
            parts.last().len(),
            |k: int| (parts.len() - 1) as usize,
        )
    }
}

/// Every vertex of `vertices` moved by `by`.
pub open spec fn translated_all(vertices: Seq<Point3>, by: Point3) -> Seq<Point3> {
    Seq::new(vertices.len(), |k: int| translated(vertices[k], by))
}

/// Objects of different shapes that one draw call draws.
#[derive(Clone, Debug)]
pub struct MergedObjects {
    pub objects: Vec<ObjectInstance>,
    pub mesh: Mesh,
    /// For each vertex of the mesh, the index of its object in `objects`.
    pub objects_indices: Vec<usize>,
}

impl MergedObjects {
    /// Every vertex names its object, the objects' vertices stand in the
    /// order of the objects, and every object has a vertex.
    pub open spec fn wf(&self) -> bool {
        let oi = self.objects_indices@;
        &&& oi.len() == self.mesh.vertices@.len()
        &&& oi.len() <= MAX_VERTICES
        &&& self.objects@.len() <= oi.len()
        &&& self.mesh.wf()
        &&& forall|k: int| 0 <= k < oi.len() ==> (#[trigger] oi[k]) < self.objects@.len()
        &&& forall|j: int, k: int| 0 <= j <= k < oi.len() ==> (#[trigger] oi[j]) <= (#[trigger] oi[k])
        &&& forall|object: int|
            0 <= object < self.objects@.len() ==> #[trigger] object_has_vertex(oi, object)
    }

    /// The merged mesh is that of the meshes with the vertices
    /// `vertex_parts` and the indices `index_parts`.
    pub open spec fn holds(
        &self,
        vertex_parts: Seq<Seq<Point3>>,
        index_parts: Seq<Seq<u16>>,
        objects: Seq<ObjectInstance>,
    ) -> bool {
        &&& self.objects@ == objects
        &&& self.mesh.vertices@ == merged_vertices(vertex_parts)
        &&& self.mesh.indices@ == merged_indices(vertex_parts, index_parts)
        &&& self.objects_indices@ == merged_object_indices(vertex_parts)
    }

    /// No object and no vertex.
    pub fn new() -> (r: Self)
        ensures
            r.wf(),
            r.holds(Seq::empty(), Seq::empty(), Seq::empty()),
            r.objects@.len() == 0,
    {
        let r = Self {
            objects: Vec::new(),
            mesh: Mesh { vertices: Vec::new(), indices: Vec::new() },
            objects_indices: Vec::new(),
        };
        r
    }

    /// Moves every vertex by `translation`. `None` means that a moved vertex
    /// cannot be represented.
    pub fn transform(self, translation: &Point3) -> (r: Option<Self>)
        requires
            self.wf(),
        ensures
            r is Some <==> forall|k: int|
                0 <= k < self.mesh.vertices@.len() ==> can_translate(
                    #[trigger] self.mesh.vertices@[k],
                    *translation,
                ),
            r matches Some(m) ==> {
                &&& m.wf()
                &&& m.objects@ == self.objects@
                &&& m.objects_indices@ == self.objects_indices@
                &&& m.mesh.indices@ == self.mesh.indices@
                &&& m.mesh.vertices@ == translated_all(self.mesh.vertices@, *translation)
            },
    {
        let MergedObjects { objects, mesh, objects_indices } = self;
        match mesh.transform(translation) {
            Some(mesh) => {
                Some(MergedObjects { objects, mesh, objects_indices })
            },
            None => None,
        }
    }

    /// Appends an object with its mesh. The vertices of the mesh follow those
    /// that are there, its indices are raised by their number, and each new
    /// vertex records the index of the new object. Nothing changes where the
    /// vertices would be more than `MAX_VERTICES`.
    pub fn add_object(&mut self, mesh: Mesh, object: ObjectInstance) -> (r: Result<
        (),
        ChartMalformed,
    >)
        requires
            old(self).wf(),
            mesh.wf(),
            mesh.vertices@.len() > 0,
        ensures
            old(self).mesh.vertices@.len() + mesh.vertices@.len() > MAX_VERTICES ==> r == Err::<
                (),
                ChartMalformed,
            >(ChartMalformed::ValueOutOfRange) && *final(self) == *old(self),
            old(self).mesh.vertices@.len() + mesh.vertices@.len() <= MAX_VERTICES ==> {
                &&& r is Ok
                &&& final(self).wf()
                &&& final(self).objects@ == old(self).objects@.push(object)
                &&& final(self).mesh.vertices@ == old(self).mesh.vertices@ + mesh.vertices@
                &&& final(self).mesh.indices@ == old(self).mesh.indices@ + rebased(
                    mesh.indices@,
                    old(self).mesh.vertices@.len() as int,
                )
                &&& final(self).objects_indices@ == old(self).objects_indices@ + Seq::new(
                    mesh.vertices@.len(),
                    |k: int| old(self).objects@.len() as usize,
                )
            },
    {
        let base = self.mesh.vertices.len();
        let count = mesh.vertices.len();
        if count > MAX_VERTICES || base > MAX_VERTICES - count {
            return Err(ChartMalformed::ValueOutOfRange);
        }
        let object_index = self.objects.len();
        let ghost before = *self;
        let mut k: usize = 0;
        while k < count
            invariant
                k <= count,
                count == mesh.vertices@.len(),
                base + count <= MAX_VERTICES,
                self.objects == before.objects,
                self.mesh.indices == before.mesh.indices,
                self.mesh.vertices@ == before.mesh.vertices@ + mesh.vertices@.take(k as int),
                self.objects_indices@ == before.objects_indices@ + Seq::new(
                    k as nat,
                    |j: int| object_index,
                ),
            decreases count - k,
        {
            self.mesh.vertices.push(mesh.vertices[k]);
            self.objects_indices.push(object_index);
            k += 1;
        }
        let index_count = mesh.indices.len();
        let mut j: usize = 0;
        while j < index_count
            invariant
                j <= index_count,
                index_count == mesh.indices@.len(),
                mesh.wf(),
                count == mesh.vertices@.len(),
                base + count <= MAX_VERTICES,
                self.objects == before.objects,
                self.mesh.vertices@ == before.mesh.vertices@ + mesh.vertices@,
                self.objects_indices@ == before.objects_indices@ + Seq::new(
                    count as nat,
                    |j: int| object_index,
                ),
                self.mesh.indices@ == before.mesh.indices@ + rebased(mesh.indices@, base as int).take(
                    j as int,
                ),
            decreases index_count - j,
        {
            let index = mesh.indices[j];
            let moved: u16 = (index as usize + base) as u16;
            self.mesh.indices.push(moved);
            j += 1;
        }
        self.objects.push(object);
        proof {
            let oi = self.objects_indices@;
            assert forall|o: int| 0 <= o < self.objects@.len() implies #[trigger] object_has_vertex(
                oi,
                o,
            ) by {
                if o < object_index {
                    assert(object_has_vertex(before.objects_indices@, o));
                    let k = choose|k: int|
                        0 <= k < before.objects_indices@.len()
                            && #[trigger] before.objects_indices@[k] == o;
                    assert(oi[k] == o);
                } else {
                    assert(oi[base as int] == o);
                }
            }
        }
        Ok(())
    }
}

/// What `add_object` does to a group that holds the given meshes: the group
/// then holds them and the mesh that was added.
pub proof fn lemma_holds_after_add(
    before: MergedObjects,
    after: MergedObjects,
    vertex_parts: Seq<Seq<Point3>>,
    index_parts: Seq<Seq<u16>>,
    objects: Seq<ObjectInstance>,
    vertices: Seq<Point3>,
    indices: Seq<u16>,
    object: ObjectInstance,
)
    requires
        before.holds(vertex_parts, index_parts, objects),
        vertex_parts.len() == index_parts.len(),
        vertex_parts.len() == objects.len(),
        after.objects@ == before.objects@.push(object),
        after.mesh.vertices@ == before.mesh.vertices@ + vertices,
        after.mesh.indices@ == before.mesh.indices@ + rebased(
            indices,
            before.mesh.vertices@.len() as int,
        ),
        after.objects_indices@ == before.objects_indices@ + Seq::new(
            vertices.len(),
            |k: int| before.objects@.len() as usize,
        ),
    ensures
        after.holds(vertex_parts.push(vertices), index_parts.push(indices), objects.push(object)),
{
    let vp = vertex_parts.push(vertices);
    let ip = index_parts.push(indices);
    assert(vp.drop_last() =~= vertex_parts);
    assert(ip.drop_last() =~= index_parts);
}

/// The merged vertices of the first `k` of the lists are no more than those
/// of all of them.
pub proof fn lemma_merged_prefix_len(parts: Seq<Seq<Point3>>, k: int)
    requires
        0 <= k <= parts.len(),
    ensures
        merged_vertices(parts.take(k)).len() <= merged_vertices(parts).len(),
    decreases parts.len(),
{
    if k == parts.len() {
        assert(parts.take(k) =~= parts);
    } else {
        lemma_merged_prefix_len(parts.drop_last(), k);
        assert(parts.drop_last().take(k) =~= parts.take(k));
    }
}

/// Some vertex records `object` as its object.
pub open spec fn object_has_vertex(objects_indices: Seq<usize>, object: int) -> bool {
    exists|k: int| 0 <= k < objects_indices.len() && #[trigger] objects_indices[k] == object
}

/// In a well-formed group with an object, there is one object index for each
/// vertex, every object index names an object, and the last vertex belongs to
/// the last object: the largest object index is the number of objects less
/// one, so no object is without a vertex.
pub proof fn lemma_object_indices_cover_objects(m: MergedObjects)
    requires
        m.wf(),
        m.objects@.len() > 0,
    ensures
        m.objects_indices@.len() == m.mesh.vertices@.len(),
        m.objects_indices@.len() > 0,
        forall|k: int|
            0 <= k < m.objects_indices@.len() ==> (#[trigger] m.objects_indices@[k])
                <= m.objects@.len() - 1,
        m.objects_indices@[m.objects_indices@.len() - 1] == m.objects@.len() - 1,
{
    let oi = m.objects_indices@;
    let last = m.objects@.len() - 1;
    assert(object_has_vertex(oi, last));
    let k = choose|k: int| 0 <= k < oi.len() && #[trigger] oi[k] == last;
}

} // verus!
