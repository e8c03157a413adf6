//! What a renderer is handed: pipelines, and the draw data of each group of
//! objects.
use vstd::prelude::*;
use crate::geometry::Point3;
use crate::mosv::MAX_VERTICES;
use crate::track_description::Color;

verus! {

/// The stage of the graphics pipeline that a shader runs in.
#[derive(Clone, Copy, Debug, PartialEq, Eq, Structural)]
pub enum ShaderStage {
    Vertex,
    Fragment,
    Geometry,
    Compute,
    Mesh,
    Task,
}

impl ShaderStage {
    /// The name by which the shader compiler knows the stage.
    pub open spec fn spec_compiler_extension(self) -> Seq<char> {
        match self {
            ShaderStage::Vertex => "vert"@,
            ShaderStage::Fragment => "frag"@,
            ShaderStage::Geometry => "geom"@,
            ShaderStage::Compute => "comp"@,
            ShaderStage::Mesh => "mesh"@,
            ShaderStage::Task => "task"@,
        }
    }

    /// The name that a shader source finds defined when it is compiled for
    /// the stage.
    pub open spec fn spec_stage_define(self) -> Seq<char> {
        match self {
            ShaderStage::Vertex => "VERTEX"@,
            ShaderStage::Fragment => "FRAGMENT"@,
            ShaderStage::Geometry => "GEOMETRY"@,
            ShaderStage::Compute => "COMPUTE"@,
            ShaderStage::Mesh => "MESH"@,
            ShaderStage::Task => "TASK"@,
        }
    }

    pub fn to_glslang_compiler_extension(self) -> (r: String)
        ensures
            r@ == self.spec_compiler_extension(),
    {
        match self {
            Self::Vertex => "vert".to_owned(),
            Self::Fragment => "frag".to_owned(),
            Self::Geometry => "geom".to_owned(),
            Self::Compute => "comp".to_owned(),
            Self::Mesh => "mesh".to_owned(),
            Self::Task => "task".to_owned(),
        }
    }

    pub fn to_glslang_stage_defines(self) -> (r: String)
        ensures
            r@ == self.spec_stage_define(),
    {
        match self {
            Self::Vertex => "VERTEX".to_owned(),
            Self::Fragment => "FRAGMENT".to_owned(),
            Self::Geometry => "GEOMETRY".to_owned(),
            Self::Compute => "COMPUTE".to_owned(),
            Self::Mesh => "MESH".to_owned(),
            Self::Task => "TASK".to_owned(),
        }
    }
}

/// A shader: the file that holds its source, and its stage.
#[derive(Clone, Debug)]
pub struct ShaderModuleDescriptor {
    pub source_file_name: String,
    pub shader_stage: ShaderStage,
}

impl ShaderModuleDescriptor {
    pub fn new(source_file_name: &str, shader_stage: ShaderStage) -> (r: Self)
        ensures
            r.source_file_name@ == source_file_name@,
            r.shader_stage == shader_stage,
    {
        Self { source_file_name: source_file_name.to_owned(), shader_stage }
    }
}

/// How a pipeline draws.
#[derive(Clone, Copy, Debug, PartialEq, Eq, Structural)]
pub enum RenderingType {
    /// One mesh, drawn once for each instance with the instance's data.
    Instanced,
    /// Different objects in the same vertex buffers, each with its own data.
    MultipleObjectsSingleVertexData,
}

/// A pipeline: how it draws, and with which shaders.
#[derive(Clone, Debug)]
pub struct RenderPipelineDescription {
    pub rendering_type: RenderingType,
    pub shader_modules: Vec<ShaderModuleDescriptor>,
}

/// What the renderer reads of one drawn object: where it stands, its colour,
/// and whether it scrolls with the runner (one) or not (zero).
#[derive(Clone, Copy, Debug, PartialEq, Eq, Structural)]
pub struct ObjectInstanceGpuData {
    pub translation: Point3,
    pub base_color: Color,
    pub apply_runner_transform: u32,
}

/// The bytes that one object takes in a renderer's buffer: a matrix of
/// sixteen 32-bit numbers, a colour of four, a flag, and padding to a
/// multiple of sixteen bytes.
pub const OBJECT_INSTANCE_STRIDE: usize = 96;

/// The bytes that the uniform data of a scene takes: two matrices of sixteen
/// 32-bit numbers.
pub const SCENE_UNIFORM_DATA_SIZE: u64 = 128;

/// A renderer was handed instance bytes of the wrong length.
#[derive(Clone, Copy, Debug, PartialEq, Eq, Structural)]
pub struct InstanceBufferSizeMismatch {
    pub expected: usize,
    pub actual: usize,
}

/// One mesh and the instances that it is drawn for.
#[derive(Clone, Debug)]
pub struct InstancedDrawData {
    pub instance_data: Vec<ObjectInstanceGpuData>,
    pub instance_count: usize,
    pub vertices: Vec<Point3>,
    pub indices: Vec<u16>,
    /// Index into the `pipelines` of the render description.
    pub pipeline_index: usize,
}

impl InstancedDrawData {
    /// There is data for each instance.
    pub open spec fn wf(&self) -> bool {
        self.instance_count == self.instance_data@.len()
    }

    /// Checks the length of the bytes that are to replace the instance data:
    /// they must be `OBJECT_INSTANCE_STRIDE` for each instance, no more and no
    /// fewer.
    pub fn check_instance_bytes_len(&self, len: usize) -> (r: Result<
        (),
        InstanceBufferSizeMismatch,
    >)
        ensures
            len == self.instance_count * OBJECT_INSTANCE_STRIDE ==> r is Ok,
            len != self.instance_count * OBJECT_INSTANCE_STRIDE ==> r is Err && r->Err_0.actual
                == len,
            r matches Err(e) ==> self.instance_count * OBJECT_INSTANCE_STRIDE <= usize::MAX
                ==> e.expected == self.instance_count * OBJECT_INSTANCE_STRIDE,
    {
        match self.instance_count.checked_mul(OBJECT_INSTANCE_STRIDE) {
            Some(expected) => {
                if len == expected {
                    Ok(())
                } else {
                    Err(InstanceBufferSizeMismatch { expected, actual: len })
                }
            },
            None => Err(InstanceBufferSizeMismatch { expected: usize::MAX, actual: len }),
        }
    }
}

/// Byte `k` of `x`, counted from the least significant.
pub open spec fn byte_of(x: u32, k: int) -> u8 {
    if k == 0 {
        (x % 256) as u8
    } else if k == 1 {
        ((x / 256) % 256) as u8
    } else if k == 2 {
        ((x / 65536) % 256) as u8
    } else {
        (x / 16777216) as u8
    }
}

/// Byte `k` of the four bytes that stand for value `i`.
pub open spec fn byte_at(bytes: Seq<u8>, i: int, k: int) -> u8 {
    bytes[4 * i + k]
}

/// `bytes` holds each of `values` in four bytes, the least significant byte
/// first if `little`, the most significant first if not.
pub open spec fn holds_values(values: Seq<u32>, bytes: Seq<u8>, little: bool) -> bool {
    &&& bytes.len() == 4 * values.len()
    &&& forall|i: int, k: int|
        0 <= i < values.len() && 0 <= k < 4 ==> #[trigger] byte_at(bytes, i, k) == byte_of(
            values[i],
            if little {
                k
            } else {
                3 - k
            },
        )
}

/// `bytes` holds each of `values` in four bytes, in the byte order of the
/// machine.
pub open spec fn holds_values_natively(values: Seq<u32>, bytes: Seq<u8>) -> bool {
    holds_values(values, bytes, true) || holds_values(values, bytes, false)
}

/// Objects of different shapes in one vertex stream, with the data of each
/// object and, for each vertex, the index of its object.
#[derive(Clone, Debug)]
pub struct MOSVDrawData {
    pub objects_count: usize,
    pub objects_data: Vec<ObjectInstanceGpuData>,
    /// For each vertex, the index of its object in `objects_data`.
    pub objects_indices: Vec<u32>,
    /// `objects_indices` as the bytes of a vertex buffer.
    pub objects_indices_bytes: Vec<u8>,
    pub vertices: Vec<Point3>,
    pub indices: Vec<u16>,
    /// Index into the `pipelines` of the render description.
    pub pipeline_index: usize,
}

impl MOSVDrawData {
    /// There is one object index for each vertex, each names an object, and
    /// with an object in the unit the last vertex belongs to the last
    /// object; every index of the mesh names a vertex.
    pub open spec fn wf(&self) -> bool {
        &&& self.objects_count == self.objects_data@.len()
        &&& self.objects_indices@.len() == self.vertices@.len()
        &&& self.vertices@.len() <= MAX_VERTICES
        &&& forall|k: int|
            0 <= k < self.objects_indices@.len() ==> (#[trigger] self.objects_indices@[k])
                < self.objects_count
        &&& self.objects_count > 0 ==> self.objects_indices@.len() > 0
            && self.objects_indices@[self.objects_indices@.len() - 1] == self.objects_count - 1
        &&& forall|k: int|
            0 <= k < self.indices@.len() ==> (#[trigger] self.indices@[k]) < self.vertices@.len()
        &&& holds_values_natively(self.objects_indices@, self.objects_indices_bytes@)
    }
}

/// Everything that a renderer needs to draw a scene.
#[derive(Clone, Debug)]
pub struct RenderDescription {
    pub scene_uniform_data_size: u64,
    pub pipelines: Vec<RenderPipelineDescription>,
    pub instanced_draw_data: Vec<InstancedDrawData>,
    pub mosv_draw_data: Vec<MOSVDrawData>,
}

/// The positions in `units` of the units that pipeline `pipeline` draws, in
/// rising order.
pub open spec fn units_of_pipeline(units: Seq<InstancedDrawData>, pipeline: int) -> Seq<usize>
    decreases units.len(),
{
    if units.len() == 0 {
        Seq::empty()
    } else if units.last().pipeline_index == pipeline {
        units_of_pipeline(units.drop_last(), pipeline).push((units.len() - 1) as usize)
    } else {
        units_of_pipeline(units.drop_last(), pipeline)
    }
}

impl RenderDescription {
    /// The instanced units by pipeline, so that a frame binds each pipeline
    /// once: for each pipeline the positions of its units in
    /// `instanced_draw_data`, in the order of that list.
    pub fn group_instanced_by_pipeline(&self) -> (r: Vec<Vec<usize>>)
        requires
            forall|i: int|
                0 <= i < self.instanced_draw_data@.len() ==> (
                #[trigger] self.instanced_draw_data@[i]).pipeline_index < self.pipelines@.len(),
        ensures
            r@.len() == self.pipelines@.len(),
            forall|p: int|
                0 <= p < r@.len() ==> (#[trigger] r@[p])@ == units_of_pipeline(
                    self.instanced_draw_data@,
                    p,
                ),
    {
        let ghost units = self.instanced_draw_data@;
        let mut groups: Vec<Vec<usize>> = Vec::new();
        let mut p: usize = 0;
        while p < self.pipelines.len()
            invariant
                p <= self.pipelines@.len(),
                groups@.len() == p,
                forall|q: int| 0 <= q < p ==> (#[trigger] groups@[q])@ == Seq::<usize>::empty(),
            decreases self.pipelines@.len() - p,
        {
            groups.push(Vec::new());
            p += 1;
        }
        let mut index: usize = 0;
        while index < self.instanced_draw_data.len()
            invariant
                units == self.instanced_draw_data@,
                index <= units.len(),
                groups@.len() == self.pipelines@.len(),
                forall|i: int|
                    0 <= i < units.len() ==> (#[trigger] units[i]).pipeline_index
                        < self.pipelines@.len(),
                forall|q: int|
                    0 <= q < groups@.len() ==> (#[trigger] groups@[q])@ == units_of_pipeline(
                        units.take(index as int),
                        q,
                    ),
            decreases units.len() - index,
        {
            let pipeline = self.instanced_draw_data[index].pipeline_index;
            groups[pipeline].push(index);
            proof {
                assert(units.take(index + 1).drop_last() =~= units.take(index as int));
            }
            index += 1;
        }
        assert(units.take(units.len() as int) =~= units);
        groups
    }

    /// Every unit is well-formed and names a pipeline of its own kind.
    pub open spec fn wf(&self) -> bool {
        &&& forall|i: int|
            0 <= i < self.instanced_draw_data@.len() ==> {
                let unit = #[trigger] self.instanced_draw_data@[i];
                &&& unit.wf()
                &&& unit.pipeline_index < self.pipelines@.len()
                &&& self.pipelines@[unit.pipeline_index as int].rendering_type
                    == RenderingType::Instanced
            }
        &&& forall|i: int|
            0 <= i < self.mosv_draw_data@.len() ==> {
                let unit = #[trigger] self.mosv_draw_data@[i];
                &&& unit.wf()
                &&& unit.pipeline_index < self.pipelines@.len()
                &&& self.pipelines@[unit.pipeline_index as int].rendering_type
                    == RenderingType::MultipleObjectsSingleVertexData
            }
    }
}

} // verus!
