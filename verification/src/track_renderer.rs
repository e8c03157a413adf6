//! From the scene of a track to the draw data of a renderer, and the
//! positions of evade notes as time passes.
use vstd::prelude::*;
use vstd::arithmetic::div_mod::lemma_div_is_ordered;
use crate::fixed::{floor_div, lemma_product_bound};
use crate::geometry::{
    can_translate, cuboid_corner, cuboid_indices, Mesh, Point2, Point3, Polyhedron,
};
use crate::mosv::{lemma_object_indices_cover_objects, translated_all, MergedObjects};
use crate::render_description::{
    holds_values_natively, InstancedDrawData, MOSVDrawData, ObjectInstanceGpuData,
    RenderDescription, RenderPipelineDescription, RenderingType, ShaderModuleDescriptor,
    ShaderStage, SCENE_UNIFORM_DATA_SIZE,
};
use crate::track_description::{
    EvadeObjectInstance, ObjectInstance, TrackDescription, HIT_X_LENGTH, HIT_Z_LENGTH,
};

verus! {

/// What the renderer reads of an object.
pub open spec fn gpu_data_of(instance: ObjectInstance) -> ObjectInstanceGpuData {
    ObjectInstanceGpuData {
        translation: Point3 { x: instance.x_position, y: 0, z: instance.z_position },
        base_color: instance.base_color,
        apply_runner_transform: if instance.apply_runner_transform {
            1
        } else {
            0
        },
    }
}

/// What the renderer reads of an evade note that has not moved yet: it
/// stands where it starts, and scrolls with the runner.
pub open spec fn gpu_data_of_evade(instance: EvadeObjectInstance) -> ObjectInstanceGpuData {
    ObjectInstanceGpuData {
        translation: Point3 { x: instance.start_position.x, y: 0, z: instance.start_position.y },
        base_color: instance.base_color,
        apply_runner_transform: 1,
    }
}

impl ObjectInstanceGpuData {
    pub fn from_object_instance(instance: &ObjectInstance) -> (r: Self)
        ensures
            r == gpu_data_of(*instance),
    {
        Self {
            translation: Point3 { x: instance.x_position, y: 0, z: instance.z_position },
            base_color: instance.base_color,
            apply_runner_transform: if instance.apply_runner_transform {
                1
            } else {
                0
            },
        }
    }

    pub fn from_object_instances(instances: &[ObjectInstance]) -> (r: Vec<Self>)
        ensures
            r@ == instances@.map_values(|o: ObjectInstance| gpu_data_of(o)),
    {
        let mut out: Vec<Self> = Vec::new();
        let mut i: usize = 0;
        while i < instances.len()
            invariant
                i <= instances@.len(),
                out@.len() == i,
                forall|j: int| 0 <= j < i ==> #[trigger] out@[j] == gpu_data_of(instances@[j]),
            decreases instances@.len() - i,
        {
            out.push(Self::from_object_instance(&instances[i]));
            i += 1;
        }
        out
    }

    pub fn from_evade_object_instance(instance: &EvadeObjectInstance) -> (r: Self)
        ensures
            r == gpu_data_of_evade(*instance),
    {
        Self {
            translation: Point3 {
                x: instance.start_position.x,
                y: 0,
                z: instance.start_position.y,
            },
            base_color: instance.base_color,
            apply_runner_transform: 1,
        }
    }

    pub fn from_evade_object_instances(instances: &[EvadeObjectInstance]) -> (r: Vec<Self>)
        ensures
            r@ == instances@.map_values(|o: EvadeObjectInstance| gpu_data_of_evade(o)),
    {
        let mut out: Vec<Self> = Vec::new();
        let mut i: usize = 0;
        while i < instances.len()
            invariant
                i <= instances@.len(),
                out@.len() == i,
                forall|j: int| 0 <= j < i ==> #[trigger] out@[j] == gpu_data_of_evade(instances@[j]),
            decreases instances@.len() - i,
        {
            out.push(Self::from_evade_object_instance(&instances[i]));
            i += 1;
        }
        out
    }
}

/// How far the ring of a contact note is lowered, and that of an evade note
/// once more.
pub const RING_OFFSET: i64 = -80_000;

/// The offset by which the ring of a contact note is lowered.
pub open spec fn ring_offset() -> Point3 {
    Point3 { x: 0, y: RING_OFFSET, z: 0 }
}

/// The mesh of each kind of note that is drawn by instances.
#[derive(Clone, Debug)]
pub struct RenderMeshes {
    hit: Mesh,
    contact: Mesh,
    evade: Mesh,
    flick: Mesh,
}

impl RenderMeshes {
    pub closed spec fn spec_hit(&self) -> Mesh {
        self.hit
    }

    pub closed spec fn spec_contact(&self) -> Mesh {
        self.contact
    }

    pub closed spec fn spec_evade(&self) -> Mesh {
        self.evade
    }

    pub closed spec fn spec_flick(&self) -> Mesh {
        self.flick
    }

    /// The meshes of the notes: cuboids for hit and flick notes, and for
    /// contact and evade notes the ring `ring`, which lies flat about the
    /// origin, lowered once and twice. `None` means that the lowered ring
    /// cannot be represented.
    pub fn new(ring: Mesh) -> (r: Option<Self>)
        ensures
            r is Some <==> forall|k: int|
                0 <= k < ring.vertices@.len() ==> (#[trigger] ring.vertices@[k]).y + 2 * RING_OFFSET
                    >= i64::MIN,
            r matches Some(m) ==> {
                &&& m.spec_hit().vertices@ == Seq::new(
                    8,
                    |k: int| cuboid_corner(HIT_X_LENGTH as int, 100_000, HIT_Z_LENGTH as int, k),
                )
                &&& m.spec_hit().indices@ == cuboid_indices()
                &&& m.spec_flick().vertices@ == Seq::new(
                    8,
                    |k: int| cuboid_corner(900_000, 50_000, HIT_Z_LENGTH as int, k),
                )
                &&& m.spec_flick().indices@ == cuboid_indices()
                &&& m.spec_contact().vertices@ == translated_all(ring.vertices@, ring_offset())
                &&& m.spec_contact().indices@ == ring.indices@
                &&& m.spec_evade().vertices@ == translated_all(
                    translated_all(ring.vertices@, ring_offset()),
                    ring_offset(),
                )
                &&& m.spec_evade().indices@ == ring.indices@
            },
    {
        let hit = Polyhedron::cuboid(HIT_X_LENGTH, 100_000, HIT_Z_LENGTH).to_mesh();
        let offset = Point3 { x: 0, y: RING_OFFSET, z: 0 };
        let contact = match ring.transform(&offset) {
            Some(m) => m,
            None => {
                return None;
            },
        };
        let evade = match contact.duplicate().transform(&offset) {
            Some(m) => m,
            None => {
                assert forall|k: int| 0 <= k < contact.vertices@.len() && !can_translate(
                    #[trigger] contact.vertices@[k],
                    offset,
                ) implies ring.vertices@[k].y + 2 * RING_OFFSET < i64::MIN by {
                }
                return None;
            },
        };
        assert forall|k: int| 0 <= k < ring.vertices@.len() implies (#[trigger] ring.vertices@[k]).y
            + 2 * RING_OFFSET >= i64::MIN by {
            assert(can_translate(contact.vertices@[k], offset));
        }
        let flick = Polyhedron::cuboid(900_000, 50_000, HIT_Z_LENGTH).to_mesh();
        Some(Self { hit, contact, evade, flick })
    }

    pub fn hit(&self) -> (r: Mesh)
        ensures
            r.vertices@ == self.spec_hit().vertices@,
            r.indices@ == self.spec_hit().indices@,
    {
        self.hit.duplicate()
    }

    pub fn contact(&self) -> (r: Mesh)
        ensures
            r.vertices@ == self.spec_contact().vertices@,
            r.indices@ == self.spec_contact().indices@,
    {
        self.contact.duplicate()
    }

    pub fn evade(&self) -> (r: Mesh)
        ensures
            r.vertices@ == self.spec_evade().vertices@,
            r.indices@ == self.spec_evade().indices@,
    {
        self.evade.duplicate()
    }

    pub fn flick(&self) -> (r: Mesh)
        ensures
            r.vertices@ == self.spec_flick().vertices@,
            r.indices@ == self.spec_flick().indices@,
    {
        self.flick.duplicate()
    }
}

/// The pipelines that a track is drawn with.
pub struct RenderPipelines;

/// A pipeline of the given kind with a vertex shader and a fragment shader.
pub open spec fn is_pipeline(
    p: RenderPipelineDescription,
    rendering_type: RenderingType,
    vertex_shader: Seq<char>,
    fragment_shader: Seq<char>,
) -> bool {
    &&& p.rendering_type == rendering_type
    &&& p.shader_modules@.len() == 2
    &&& p.shader_modules@[0].source_file_name@ == vertex_shader
    &&& p.shader_modules@[0].shader_stage == ShaderStage::Vertex
    &&& p.shader_modules@[1].source_file_name@ == fragment_shader
    &&& p.shader_modules@[1].shader_stage == ShaderStage::Fragment
}

impl RenderPipelines {
    /// A pipeline of the given kind with a vertex and a fragment shader.
    fn pipeline(rendering_type: RenderingType, vertex_shader: &str, fragment_shader: &str) -> (r:
        RenderPipelineDescription)
        ensures
            is_pipeline(r, rendering_type, vertex_shader@, fragment_shader@),
    {
        let mut shader_modules: Vec<ShaderModuleDescriptor> = Vec::new();
        shader_modules.push(ShaderModuleDescriptor::new(vertex_shader, ShaderStage::Vertex));
        shader_modules.push(ShaderModuleDescriptor::new(fragment_shader, ShaderStage::Fragment));
        RenderPipelineDescription { rendering_type, shader_modules }
    }

    /// The pipeline of the notes that are drawn by instances.
    pub fn instanced() -> (r: RenderPipelineDescription)
        ensures
            is_pipeline(
                r,
                RenderingType::Instanced,
                "shaders/object_instanced.vs.glsl"@,
                "shaders/object_instanced.fs.glsl"@,
            ),
    {
        Self::pipeline(
            RenderingType::Instanced,
            "shaders/object_instanced.vs.glsl",
            "shaders/object_instanced.fs.glsl",
        )
    }

    /// The pipeline of merged strips that are drawn as planes: many objects
    /// in one vertex stream.
    pub fn mosv_planes_smooth() -> (r: RenderPipelineDescription)
        ensures
            is_pipeline(
                r,
                RenderingType::MultipleObjectsSingleVertexData,
                "shaders/object_vertices_smooth_1.vs.glsl"@,
                "shaders/object_vertices_smooth_1.fs.glsl"@,
            ),
    {
        Self::pipeline(
            RenderingType::MultipleObjectsSingleVertexData,
            "shaders/object_vertices_smooth_1.vs.glsl",
            "shaders/object_vertices_smooth_1.fs.glsl",
        )
    }

    /// The pipeline of merged strips that are drawn as lines.
    pub fn mosv_lines_smooth() -> (r: RenderPipelineDescription)
        ensures
            is_pipeline(
                r,
                RenderingType::MultipleObjectsSingleVertexData,
                "shaders/object_vertices_smooth_2.vs.glsl"@,
                "shaders/object_vertices_smooth_2.fs.glsl"@,
            ),
    {
        Self::pipeline(
            RenderingType::MultipleObjectsSingleVertexData,
            "shaders/object_vertices_smooth_2.vs.glsl",
            "shaders/object_vertices_smooth_2.fs.glsl",
        )
    }
}

/// The point that lies `elapsed` parts of `duration` along the way from
/// `start` to `end`, rounded towards negative infinity.
pub open spec fn lerp(start: int, end: int, elapsed: int, duration: int) -> int
    recommends
        0 <= elapsed <= duration,
        duration > 0,
{
    start + (elapsed * (end - start)) / duration
}

/// Where an evade note stands at `current_time`, as lateral position and
/// depth: where it starts before its movement, where it ends after it, and
/// on the straight line between the two while it moves. A movement that
/// takes no time is over at its trigger time.
pub open spec fn evade_position(note: EvadeObjectInstance, current_time: int) -> Point2 {
    if current_time < note.trigger_time {
        note.start_position
    } else if current_time > note.trigger_time + note.duration || note.duration == 0 {
        note.end_position
    } else {
        Point2 {
            x: lerp(
                note.start_position.x as int,
                note.end_position.x as int,
                current_time - note.trigger_time,
                note.duration as int,
            ) as i64,
            y: lerp(
                note.start_position.y as int,
                note.end_position.y as int,
                current_time - note.trigger_time,
                note.duration as int,
            ) as i64,
        }
    }
}

/// A point on the way from `start` to `end` lies between the two; the way
/// begins at `start` and ends at `end`.
pub proof fn lemma_lerp_between(start: int, end: int, elapsed: int, duration: int)
    requires
        0 <= elapsed <= duration,
        duration > 0,
    ensures
        start <= end ==> start <= lerp(start, end, elapsed, duration) <= end,
        end <= start ==> end <= lerp(start, end, elapsed, duration) <= start,
        elapsed == 0 ==> lerp(start, end, elapsed, duration) == start,
        elapsed == duration ==> lerp(start, end, elapsed, duration) == end,
{
    let delta = end - start;
    let p = elapsed * delta;
    assert((duration * delta) / duration == delta) by (nonlinear_arith)
        requires
            duration > 0,
    ;
    assert(0int / duration == 0) by (nonlinear_arith)
        requires
            duration > 0,
    ;
    if delta >= 0 {
        assert(0 <= p <= duration * delta) by (nonlinear_arith)
            requires
                p == elapsed * delta,
                0 <= elapsed <= duration,
                delta >= 0,
        ;
        lemma_div_is_ordered(0, p, duration);
        lemma_div_is_ordered(p, duration * delta, duration);
    } else {
        assert(duration * delta <= p <= 0) by (nonlinear_arith)
            requires
                p == elapsed * delta,
                0 <= elapsed <= duration,
                delta < 0,
        ;
        lemma_div_is_ordered(p, 0, duration);
        lemma_div_is_ordered(duration * delta, p, duration);
    }
    if elapsed == 0 {
        assert(p == 0) by (nonlinear_arith)
            requires
                p == elapsed * delta,
                elapsed == 0,
        ;
    }
    if elapsed == duration {
    }
}

/// Before its trigger time an evade note stands where it starts; after its
/// movement, where it ends; at the trigger time of a movement that takes
/// time it still stands where it starts, and at the end of the movement
/// where it ends.
pub proof fn lemma_evade_position_boundaries(note: EvadeObjectInstance, current_time: int)
    requires
        note.wf(),
    ensures
        current_time < note.trigger_time ==> evade_position(note, current_time)
            == note.start_position,
        current_time > note.trigger_time + note.duration ==> evade_position(note, current_time)
            == note.end_position,
        current_time == note.trigger_time && note.duration > 0 ==> evade_position(
            note,
            current_time,
        ) == note.start_position,
        current_time == note.trigger_time + note.duration ==> evade_position(note, current_time)
            == note.end_position,
{
    if note.duration > 0 && note.trigger_time <= current_time <= note.trigger_time + note.duration {
        lemma_lerp_between(
            note.start_position.x as int,
            note.end_position.x as int,
            current_time - note.trigger_time,
            note.duration as int,
        );
        lemma_lerp_between(
            note.start_position.y as int,
            note.end_position.y as int,
            current_time - note.trigger_time,
            note.duration as int,
        );
    }
}

/// A point on the way from `start` to `end`.
fn interpolate(start: i64, end: i64, elapsed: i64, duration: i64) -> (r: i64)
    requires
        0 <= elapsed <= duration,
        duration > 0,
    ensures
        r == lerp(start as int, end as int, elapsed as int, duration as int),
{
    let delta: i128 = end as i128 - start as i128;
    proof {
        lemma_product_bound(
            elapsed as int,
            delta as int,
            0x7fff_ffff_ffff_ffff,
            0xffff_ffff_ffff_ffff,
        );
        assert(0x7fff_ffff_ffff_ffffint * 0xffff_ffff_ffff_ffffint
            == 0x7fff_ffff_ffff_fffe_8000_0000_0000_0001) by (nonlinear_arith);
        lemma_lerp_between(start as int, end as int, elapsed as int, duration as int);
    }
    let p: i128 = (elapsed as i128) * delta;
    let q: i128 = floor_div(p, duration as i128);
    (start as i128 + q) as i64
}

/// Where an evade note stands at `current_time`.
pub fn evade_position_at(note: &EvadeObjectInstance, current_time: i64) -> (r: Point2)
    ensures
        r == evade_position(*note, current_time as int),
{
    if current_time < note.trigger_time {
        // The note has not started yet.
        note.start_position
    } else if current_time as i128 > note.trigger_time as i128 + note.duration as i128
        || note.duration == 0 {
        // The note has arrived.
        note.end_position
    } else {
        // The note is moving.
        let elapsed: i64 = (current_time as i128 - note.trigger_time as i128) as i64;
        Point2 {
            x: interpolate(note.start_position.x, note.end_position.x, elapsed, note.duration),
            y: interpolate(note.start_position.y, note.end_position.y, elapsed, note.duration),
        }
    }
}

/// The renderer's data of an evade note that stands at `position`.
pub open spec fn moved_to(data: ObjectInstanceGpuData, position: Point2) -> ObjectInstanceGpuData {
    ObjectInstanceGpuData {
        translation: Point3 { x: position.x, y: 0, z: position.y },
        base_color: data.base_color,
        apply_runner_transform: data.apply_runner_transform,
    }
}

/// The renderer's data of the evade notes at `current_time`.
pub open spec fn evade_data_at(
    data: Seq<ObjectInstanceGpuData>,
    notes: Seq<EvadeObjectInstance>,
    current_time: int,
) -> Seq<ObjectInstanceGpuData> {
    Seq::new(data.len(), |i: int| moved_to(data[i], evade_position(notes[i], current_time)))
}

/// The positions of the evade notes depend on the time alone, not on where
/// the notes were drawn before: to bring the data to a time, from whatever
/// time it was at, gives what bringing it there at once gives, and to bring
/// it to the same time twice changes nothing.
pub proof fn lemma_evade_update_does_not_accumulate(
    data: Seq<ObjectInstanceGpuData>,
    notes: Seq<EvadeObjectInstance>,
    earlier: int,
    current_time: int,
)
    ensures
        evade_data_at(evade_data_at(data, notes, earlier), notes, current_time) == evade_data_at(
            data,
            notes,
            current_time,
        ),
        evade_data_at(evade_data_at(data, notes, current_time), notes, current_time)
            == evade_data_at(data, notes, current_time),
{
}

/// The evade notes of a scene and what the renderer holds of them.
#[derive(Clone, Debug)]
pub struct EvadeNotesRendererData {
    pub gpu_object_instances: Vec<ObjectInstanceGpuData>,
    pub evade_notes_instances: Vec<EvadeObjectInstance>,
    /// The instanced draw unit that draws the evade notes.
    pub renderer_index: usize,
}

impl EvadeNotesRendererData {
    /// There is renderer data for each note.
    pub open spec fn wf(&self) -> bool {
        self.gpu_object_instances@.len() == self.evade_notes_instances@.len()
    }

    /// Brings the renderer's data of every evade note to `current_time`.
    /// The whole of `gpu_object_instances` is then to be handed to the
    /// renderer again.
    pub fn update_evade_notes(&mut self, current_time: i64)
        requires
            old(self).wf(),
        ensures
            final(self).wf(),
            final(self).evade_notes_instances@ == old(self).evade_notes_instances@,
            final(self).renderer_index == old(self).renderer_index,
            final(self).gpu_object_instances@ == evade_data_at(
                old(self).gpu_object_instances@,
                old(self).evade_notes_instances@,
                current_time as int,
            ),
    {
        let n = self.evade_notes_instances.len();
        let ghost before = *self;
        let mut i: usize = 0;
        while i < n
            invariant
                before.wf(),
                n == before.evade_notes_instances@.len(),
                i <= n,
                self.evade_notes_instances@ == before.evade_notes_instances@,
                self.renderer_index == before.renderer_index,
                self.gpu_object_instances@.len() == n,
                forall|j: int|
                    0 <= j < i ==> #[trigger] self.gpu_object_instances@[j] == moved_to(
                        before.gpu_object_instances@[j],
                        evade_position(before.evade_notes_instances@[j], current_time as int),
                    ),
                forall|j: int|
                    i <= j < n ==> #[trigger] self.gpu_object_instances@[j]
                        == before.gpu_object_instances@[j],
            decreases n - i,
        {
            let note = self.evade_notes_instances[i];
            let current_position = evade_position_at(&note, current_time);
            let data = self.gpu_object_instances[i];
            self.gpu_object_instances.set(
                i,
                ObjectInstanceGpuData {
                    translation: Point3 { x: current_position.x, y: 0, z: current_position.y },
                    base_color: data.base_color,
                    apply_runner_transform: data.apply_runner_transform,
                },
            );
            i += 1;
        }
    }
}

/// The scene's data that changes as time passes.
#[derive(Clone, Debug)]
pub struct RenderDescriptionMetadata {
    pub evade_notes_data: EvadeNotesRendererData,
}

/// The object indices as the bytes of a vertex buffer, through
/// `bytemuck::cast_slice` from `u32` to `u8`. The cast hands out the memory
/// of the indices as it stands, so each index gives four bytes in the byte
/// order of the machine; it cannot fail, as a byte needs no alignment and
/// four bytes are a whole number of them.
#[verifier::external_body]
fn cast_indices_to_bytes(indices: &[u32]) -> (bytes: Vec<u8>)
    ensures
        holds_values_natively(indices@, bytes@),
{
    bytemuck::cast_slice::<u32, u8>(indices).to_vec()
}

/// The unit draws `mesh` for each of `instances` with pipeline
/// `pipeline_index`.
pub open spec fn is_instanced_unit(
    unit: InstancedDrawData,
    instances: Seq<ObjectInstanceGpuData>,
    mesh: Mesh,
    pipeline_index: int,
) -> bool {
    &&& unit.instance_count == instances.len()
    &&& unit.instance_data@ == instances
    &&& unit.vertices@ == mesh.vertices@
    &&& unit.indices@ == mesh.indices@
    &&& unit.pipeline_index == pipeline_index
}

/// The unit draws the objects `objects` of the merged mesh `mesh` with
/// pipeline `pipeline_index`; `objects_indices` names the object of each
/// vertex.
pub open spec fn is_mosv_unit(
    unit: MOSVDrawData,
    mesh: Mesh,
    objects: Seq<ObjectInstanceGpuData>,
    objects_indices: Seq<usize>,
    pipeline_index: int,
) -> bool {
    &&& unit.objects_count == objects.len()
    &&& unit.objects_data@ == objects
    &&& unit.objects_indices@ == objects_indices.map_values(|i: usize| i as u32)
    &&& holds_values_natively(unit.objects_indices@, unit.objects_indices_bytes@)
    &&& unit.vertices@ == mesh.vertices@
    &&& unit.indices@ == mesh.indices@
    &&& unit.pipeline_index == pipeline_index
}

/// The unit draws a group of merged objects with pipeline `pipeline_index`.
pub open spec fn is_unit_of(unit: MOSVDrawData, group: MergedObjects, pipeline_index: int) -> bool {
    is_mosv_unit(
        unit,
        group.mesh,
        group.objects@.map_values(|o: ObjectInstance| gpu_data_of(o)),
        group.objects_indices@,
        pipeline_index,
    )
}

/// The object indices of a well-formed group are small enough for 32 bits.
pub proof fn lemma_object_indices_fit(group: MergedObjects)
    requires
        group.wf(),
    ensures
        forall|k: int|
            0 <= k < group.objects_indices@.len() ==> (#[trigger] group.objects_indices@[k])
                <= u32::MAX,
{
    assert forall|k: int| 0 <= k < group.objects_indices@.len() implies (
    #[trigger] group.objects_indices@[k]) <= u32::MAX by {
    }
}

/// The unit that draws a well-formed group of merged objects is well-formed:
/// it has one object index for each vertex, every object index names an
/// object, and with an object in the unit the largest object index, that of
/// the last vertex, is the number of objects less one.
pub proof fn lemma_unit_of_group_is_well_formed(
    unit: MOSVDrawData,
    group: MergedObjects,
    pipeline_index: int,
)
    requires
        group.wf(),
        is_unit_of(unit, group, pipeline_index),
    ensures
        unit.wf(),
        unit.objects_indices@.len() == unit.vertices@.len(),
        forall|k: int|
            0 <= k < unit.objects_indices@.len() ==> (#[trigger] unit.objects_indices@[k])
                < unit.objects_count,
        unit.objects_count > 0 ==> unit.objects_indices@[unit.objects_indices@.len() - 1]
            == unit.objects_count - 1,
{
    lemma_object_indices_fit(group);
    if group.objects@.len() > 0 {
        lemma_object_indices_cover_objects(group);
    }
    assert forall|k: int| 0 <= k < unit.objects_indices@.len() implies (
    #[trigger] unit.objects_indices@[k]) < unit.objects_count by {
    }
}

/// A copy of the data of some objects.
fn copy_gpu_data(instances: &[ObjectInstanceGpuData]) -> (r: Vec<ObjectInstanceGpuData>)
    ensures
        r@ == instances@,
{
    let mut out: Vec<ObjectInstanceGpuData> = Vec::new();
    let mut i: usize = 0;
    while i < instances.len()
        invariant
            i <= instances@.len(),
            out@ == instances@.take(i as int),
        decreases instances@.len() - i,
    {
        out.push(instances[i]);
        i += 1;
    }
    out
}

/// Collects the pipelines and the draw data of a scene.
#[derive(Clone, Debug)]
pub struct RenderDescriptionCreator {
    pub description: TrackDescription,
    pub meshes: RenderMeshes,
    pub pipelines: Vec<RenderPipelineDescription>,
    pub instanced_draw_data: Vec<InstancedDrawData>,
    pub mosv_draw_data: Vec<MOSVDrawData>,
}

impl RenderDescriptionCreator {
    /// A creator for the scene `description`, with the note meshes `meshes`
    /// and nothing to draw yet.
    pub fn new(description: TrackDescription, meshes: RenderMeshes) -> (r: Self)
        ensures
            r.description == description,
            r.meshes == meshes,
            r.pipelines@.len() == 0,
            r.instanced_draw_data@.len() == 0,
            r.mosv_draw_data@.len() == 0,
    {
        Self {
            description,
            meshes,
            pipelines: Vec::new(),
            instanced_draw_data: Vec::new(),
            mosv_draw_data: Vec::new(),
        }
    }

    /// Appends a pipeline and returns its index.
    pub fn add_pipeline(&mut self, pipeline: RenderPipelineDescription) -> (index: usize)
        ensures
            index == old(self).pipelines@.len(),
            final(self).pipelines@ == old(self).pipelines@.push(pipeline),
            final(self).description == old(self).description,
            final(self).meshes == old(self).meshes,
            final(self).instanced_draw_data == old(self).instanced_draw_data,
            final(self).mosv_draw_data == old(self).mosv_draw_data,
    {
        self.pipelines.push(pipeline);
        self.pipelines.len() - 1
    }

    /// Appends an instanced draw unit.
    pub fn add_instanced_draw_data(&mut self, draw_data: InstancedDrawData)
        ensures
            final(self).instanced_draw_data@ == old(self).instanced_draw_data@.push(draw_data),
            final(self).description == old(self).description,
            final(self).meshes == old(self).meshes,
            final(self).pipelines == old(self).pipelines,
            final(self).mosv_draw_data == old(self).mosv_draw_data,
    {
        self.instanced_draw_data.push(draw_data);
    }

    /// Appends the unit that draws `mesh` for each of `instances`.
    pub fn add_objects_instanced_draw_data(
        &mut self,
        instances: &[ObjectInstanceGpuData],
        mesh: Mesh,
        pipeline_index: usize,
    )
        ensures
            final(self).instanced_draw_data@.len() == old(self).instanced_draw_data@.len() + 1,
            final(self).instanced_draw_data@.take(old(self).instanced_draw_data@.len() as int)
                == old(self).instanced_draw_data@,
            is_instanced_unit(
                final(self).instanced_draw_data@[old(self).instanced_draw_data@.len() as int],
                instances@,
                mesh,
                pipeline_index as int,
            ),
            final(self).description == old(self).description,
            final(self).meshes == old(self).meshes,
            final(self).pipelines == old(self).pipelines,
            final(self).mosv_draw_data == old(self).mosv_draw_data,
    {
        self.add_instanced_draw_data(
            InstancedDrawData {
                instance_count: instances.len(),
                instance_data: copy_gpu_data(instances),
                vertices: mesh.vertices,
                indices: mesh.indices,
                pipeline_index,
            },
        );
    }

    /// Appends the unit that draws the objects `objects` of the merged mesh
    /// `mesh`.
    pub fn add_mosv_draw_data(
        &mut self,
        pipeline_index: usize,
        mesh: Mesh,
        objects: &[ObjectInstanceGpuData],
        objects_indices: &[usize],
    )
        requires
            forall|k: int|
                0 <= k < objects_indices@.len() ==> (#[trigger] objects_indices@[k]) <= u32::MAX,
        ensures
            final(self).mosv_draw_data@.len() == old(self).mosv_draw_data@.len() + 1,
            final(self).mosv_draw_data@.take(old(self).mosv_draw_data@.len() as int) == old(
                self,
            ).mosv_draw_data@,
            is_mosv_unit(
                final(self).mosv_draw_data@[old(self).mosv_draw_data@.len() as int],
                mesh,
                objects@,
                objects_indices@,
                pipeline_index as int,
            ),
            final(self).description == old(self).description,
            final(self).meshes == old(self).meshes,
            final(self).pipelines == old(self).pipelines,
            final(self).instanced_draw_data == old(self).instanced_draw_data,
    {
        let mut indices: Vec<u32> = Vec::new();
        let mut i: usize = 0;
        while i < objects_indices.len()
            invariant
                i <= objects_indices@.len(),
                indices@.len() == i,
                forall|k: int|
                    0 <= k < objects_indices@.len() ==> (#[trigger] objects_indices@[k])
                        <= u32::MAX,
                forall|k: int| 0 <= k < i ==> #[trigger] indices@[k] == objects_indices@[k] as u32,
            decreases objects_indices@.len() - i,
        {
            indices.push(objects_indices[i] as u32);
            i += 1;
        }
        assert(indices@ =~= objects_indices@.map_values(|i: usize| i as u32));
        let objects_indices_bytes = cast_indices_to_bytes(indices.as_slice());
        self.mosv_draw_data.push(
            MOSVDrawData {
                objects_count: objects.len(),
                objects_data: copy_gpu_data(objects),
                objects_indices: indices,
                objects_indices_bytes,
                vertices: mesh.vertices,
                indices: mesh.indices,
                pipeline_index,
            },
        );
    }

    /// The pipelines and the draw data of the scene, after those that the
    /// creator holds already: the pipeline of instanced notes and the two of
    /// merged strips; a unit each for hit, contact, flick and evade notes and
    /// for the platform; and a unit each for hold notes and for lanes.
    pub fn create(self) -> (r: (RenderDescription, RenderDescriptionMetadata))
        requires
            self.description.wf(),
        ensures
            r.0.scene_uniform_data_size == SCENE_UNIFORM_DATA_SIZE,
            r.0.pipelines@.len() == self.pipelines@.len() as int + 3,
            r.0.pipelines@.take(self.pipelines@.len() as int) == self.pipelines@,
            is_pipeline(
                r.0.pipelines@[self.pipelines@.len() as int],
                RenderingType::Instanced,
                "shaders/object_instanced.vs.glsl"@,
                "shaders/object_instanced.fs.glsl"@,
            ),
            is_pipeline(
                r.0.pipelines@[self.pipelines@.len() as int + 1],
                RenderingType::MultipleObjectsSingleVertexData,
                "shaders/object_vertices_smooth_1.vs.glsl"@,
                "shaders/object_vertices_smooth_1.fs.glsl"@,
            ),
            is_pipeline(
                r.0.pipelines@[self.pipelines@.len() as int + 2],
                RenderingType::MultipleObjectsSingleVertexData,
                "shaders/object_vertices_smooth_2.vs.glsl"@,
                "shaders/object_vertices_smooth_2.fs.glsl"@,
            ),
            r.0.instanced_draw_data@.len() == self.instanced_draw_data@.len() as int + 5,
            r.0.instanced_draw_data@.take(self.instanced_draw_data@.len() as int)
                == self.instanced_draw_data@,
            is_instanced_unit(
                r.0.instanced_draw_data@[self.instanced_draw_data@.len() as int],
                self.description.notes_hit@.map_values(|o: ObjectInstance| gpu_data_of(o)),
                self.meshes.spec_hit(),
                self.pipelines@.len() as int,
            ),
            is_instanced_unit(
                r.0.instanced_draw_data@[self.instanced_draw_data@.len() as int + 1],
                self.description.notes_contact@.map_values(|o: ObjectInstance| gpu_data_of(o)),
                self.meshes.spec_contact(),
                self.pipelines@.len() as int,
            ),
            is_instanced_unit(
                r.0.instanced_draw_data@[self.instanced_draw_data@.len() as int + 2],
                self.description.notes_flick@.map_values(|o: ObjectInstance| gpu_data_of(o)),
                self.meshes.spec_flick(),
                self.pipelines@.len() as int,
            ),
            is_instanced_unit(
                r.0.instanced_draw_data@[self.instanced_draw_data@.len() as int + 3],
                self.description.notes_evade@.map_values(
                    |o: EvadeObjectInstance| gpu_data_of_evade(o),
                ),
                self.meshes.spec_evade(),
                self.pipelines@.len() as int,
            ),
            is_instanced_unit(
                r.0.instanced_draw_data@[self.instanced_draw_data@.len() as int + 4],
                self.description.platform_instances@.map_values(
                    |o: ObjectInstance| gpu_data_of(o),
                ),
                self.description.platform_mesh,
                self.pipelines@.len() as int,
            ),
            r.0.mosv_draw_data@.len() == self.mosv_draw_data@.len() as int + 2,
            r.0.mosv_draw_data@.take(self.mosv_draw_data@.len() as int) == self.mosv_draw_data@,
            is_unit_of(
                r.0.mosv_draw_data@[self.mosv_draw_data@.len() as int],
                self.description.hold_notes,
                self.pipelines@.len() as int + 1,
            ),
            r.0.mosv_draw_data@[self.mosv_draw_data@.len() as int].wf(),
            is_unit_of(
                r.0.mosv_draw_data@[self.mosv_draw_data@.len() as int + 1],
                self.description.lanes,
                self.pipelines@.len() as int + 2,
            ),
            r.0.mosv_draw_data@[self.mosv_draw_data@.len() as int + 1].wf(),
            self.pipelines@.len() == 0 && self.instanced_draw_data@.len() == 0
                && self.mosv_draw_data@.len() == 0 ==> r.0.wf(),
            r.1.evade_notes_data.wf(),
            r.1.evade_notes_data.renderer_index == self.instanced_draw_data@.len() as int + 3,
            r.1.evade_notes_data.evade_notes_instances@ == self.description.notes_evade@,
            r.1.evade_notes_data.gpu_object_instances@ == self.description.notes_evade@.map_values(
                |o: EvadeObjectInstance| gpu_data_of_evade(o),
            ),
    {
        let ghost before = self;
        let mut creator = self;
        let pipeline_index_instanced = creator.add_pipeline(RenderPipelines::instanced());
        let pipeline_index_mosv_planes = creator.add_pipeline(RenderPipelines::mosv_planes_smooth());
        let pipeline_index_mosv_lines = creator.add_pipeline(RenderPipelines::mosv_lines_smooth());

        let hits = ObjectInstanceGpuData::from_object_instances(
            creator.description.notes_hit.as_slice(),
        );
        let hit_mesh = creator.meshes.hit();
        creator.add_objects_instanced_draw_data(hits.as_slice(), hit_mesh, pipeline_index_instanced);

        let contacts = ObjectInstanceGpuData::from_object_instances(
            creator.description.notes_contact.as_slice(),
        );
        let contact_mesh = creator.meshes.contact();
        creator.add_objects_instanced_draw_data(
            contacts.as_slice(),
            contact_mesh,
            pipeline_index_instanced,
        );

        let flicks = ObjectInstanceGpuData::from_object_instances(
            creator.description.notes_flick.as_slice(),
        );
        let flick_mesh = creator.meshes.flick();
        creator.add_objects_instanced_draw_data(
            flicks.as_slice(),
            flick_mesh,
            pipeline_index_instanced,
        );

        let evade_notes_renderer_index = creator.instanced_draw_data.len();
        let evade_notes_object_instances = ObjectInstanceGpuData::from_evade_object_instances(
            creator.description.notes_evade.as_slice(),
        );
        let evade_mesh = creator.meshes.evade();
        creator.add_objects_instanced_draw_data(
            evade_notes_object_instances.as_slice(),
            evade_mesh,
            pipeline_index_instanced,
        );

        let platforms = ObjectInstanceGpuData::from_object_instances(
            creator.description.platform_instances.as_slice(),
        );
        let platform_mesh = creator.description.platform_mesh.duplicate();
        creator.add_objects_instanced_draw_data(
            platforms.as_slice(),
            platform_mesh,
            pipeline_index_instanced,
        );

        let hold_objects = ObjectInstanceGpuData::from_object_instances(
            creator.description.hold_notes.objects.as_slice(),
        );
        let hold_mesh = creator.description.hold_notes.mesh.duplicate();
        let hold_indices = creator.description.hold_notes.objects_indices.clone();
        proof {
            lemma_object_indices_fit(creator.description.hold_notes);
        }
        creator.add_mosv_draw_data(
            pipeline_index_mosv_planes,
            hold_mesh,
            hold_objects.as_slice(),
            hold_indices.as_slice(),
        );

        let lane_objects = ObjectInstanceGpuData::from_object_instances(
            creator.description.lanes.objects.as_slice(),
        );
        let lane_mesh = creator.description.lanes.mesh.duplicate();
        let lane_indices = creator.description.lanes.objects_indices.clone();
        proof {
            lemma_object_indices_fit(creator.description.lanes);
        }
        creator.add_mosv_draw_data(
            pipeline_index_mosv_lines,
            lane_mesh,
            lane_objects.as_slice(),
            lane_indices.as_slice(),
        );
        let ghost seventh = creator.mosv_draw_data@;
        proof {
            lemma_unit_of_group_is_well_formed(
                seventh[before.mosv_draw_data@.len() as int],
                before.description.hold_notes,
                before.pipelines@.len() as int + 1,
            );
            lemma_unit_of_group_is_well_formed(
                seventh[before.mosv_draw_data@.len() as int + 1],
                before.description.lanes,
                before.pipelines@.len() as int + 2,
            );
        }

        (
            RenderDescription {
                scene_uniform_data_size: SCENE_UNIFORM_DATA_SIZE,
                pipelines: creator.pipelines,
                instanced_draw_data: creator.instanced_draw_data,
                mosv_draw_data: creator.mosv_draw_data,
            },
            RenderDescriptionMetadata {
                evade_notes_data: EvadeNotesRendererData {
                    gpu_object_instances: evade_notes_object_instances,
                    evade_notes_instances: creator.description.notes_evade,
                    renderer_index: evade_notes_renderer_index,
                },
            },
        )
    }
}

} // verus!
