use eclale::fixed::UNIT;
use eclale::geometry::{Mesh, Point2, Point3};
use eclale::mosv::MergedObjects;
use eclale::render_description::{
    InstanceBufferSizeMismatch, InstancedDrawData, ObjectInstanceGpuData, RenderDescription,
    RenderingType, ShaderModuleDescriptor, ShaderStage, OBJECT_INSTANCE_STRIDE,
    SCENE_UNIFORM_DATA_SIZE,
};
use eclale::track_description::{
    Color, EvadeObjectInstance, ObjectInstance, TrackDescription, TrackSettings,
};
use eclale::track_renderer::{
    evade_position_at, EvadeNotesRendererData, RenderDescriptionCreator, RenderMeshes,
    RenderPipelines,
};

fn color(r: i64, g: i64, b: i64) -> Color {
    Color { r, g, b, a: UNIT }
}

fn evade(start: (i64, i64), end: (i64, i64), trigger_time: i64, duration: i64) -> EvadeObjectInstance {
    EvadeObjectInstance {
        start_position: Point2 { x: start.0, y: start.1 },
        end_position: Point2 { x: end.0, y: end.1 },
        base_color: color(1, 2, 3),
        trigger_time,
        duration,
    }
}

#[test]
fn an_evade_note_moves_on_a_straight_line() {
    let note = evade((0, 0), (10 * UNIT, 10 * UNIT), 2 * UNIT, UNIT);
    assert_eq!(evade_position_at(&note, UNIT), Point2 { x: 0, y: 0 });
    assert_eq!(evade_position_at(&note, 3_500_000), Point2 { x: 10 * UNIT, y: 10 * UNIT });
    assert_eq!(evade_position_at(&note, 2_500_000), Point2 { x: 5 * UNIT, y: 5 * UNIT });
    assert_eq!(evade_position_at(&note, 2 * UNIT), Point2 { x: 0, y: 0 });
    assert_eq!(evade_position_at(&note, 3 * UNIT), Point2 { x: 10 * UNIT, y: 10 * UNIT });
    assert_eq!(evade_position_at(&note, 2_250_000), Point2 { x: 2_500_000, y: 2_500_000 });
    assert_eq!(evade_position_at(&note, i64::MIN), Point2 { x: 0, y: 0 });
    assert_eq!(evade_position_at(&note, i64::MAX), Point2 { x: 10 * UNIT, y: 10 * UNIT });
}

#[test]
fn an_evade_note_that_moves_towards_smaller_coordinates() {
    let note = evade((10, -4), (0, -10), 0, 3);
    assert_eq!(evade_position_at(&note, 1), Point2 { x: 6, y: -6 });
    assert_eq!(evade_position_at(&note, 2), Point2 { x: 3, y: -8 });
    assert_eq!(evade_position_at(&note, 3), Point2 { x: 0, y: -10 });
    let wide = evade((i64::MAX, i64::MIN), (i64::MIN, i64::MAX), i64::MAX - 4, 4);
    assert_eq!(evade_position_at(&wide, i64::MAX - 4), Point2 { x: i64::MAX, y: i64::MIN });
    assert_eq!(evade_position_at(&wide, i64::MAX - 2), Point2 { x: -1, y: -1 });
    assert_eq!(evade_position_at(&wide, i64::MAX), Point2 { x: i64::MIN, y: i64::MAX });
}

#[test]
fn a_movement_of_negative_duration_jumps_at_its_trigger() {
    let note = evade((1, 2), (3, 4), 5, -3);
    assert_eq!(evade_position_at(&note, 1), Point2 { x: 1, y: 2 });
    assert_eq!(evade_position_at(&note, 4), Point2 { x: 1, y: 2 });
    assert_eq!(evade_position_at(&note, 5), Point2 { x: 3, y: 4 });
    assert_eq!(evade_position_at(&note, 9), Point2 { x: 3, y: 4 });
}

#[test]
fn the_draw_data_of_a_scene_is_sound() {
    let creator = RenderDescriptionCreator::new(description(), RenderMeshes::new(ring()).unwrap());
    let (render, metadata) = creator.create();
    for unit in &render.instanced_draw_data {
        assert_eq!(unit.instance_count, unit.instance_data.len());
        assert_eq!(render.pipelines[unit.pipeline_index].rendering_type, RenderingType::Instanced);
    }
    for unit in &render.mosv_draw_data {
        assert_eq!(unit.objects_count, unit.objects_data.len());
        assert_eq!(unit.objects_indices.len(), unit.vertices.len());
        assert!(unit.objects_indices.iter().all(|i| (*i as usize) < unit.objects_count));
        assert_eq!(*unit.objects_indices.last().unwrap() as usize, unit.objects_count - 1);
        assert!(unit.indices.iter().all(|i| (*i as usize) < unit.vertices.len()));
        assert_eq!(
            render.pipelines[unit.pipeline_index].rendering_type,
            RenderingType::MultipleObjectsSingleVertexData
        );
    }
    assert_eq!(
        metadata.evade_notes_data.gpu_object_instances.len(),
        metadata.evade_notes_data.evade_notes_instances.len()
    );
}

#[test]
fn a_movement_that_takes_no_time_is_over_at_its_trigger() {
    let note = evade((1, 2), (3, 4), 5, 0);
    assert_eq!(evade_position_at(&note, 4), Point2 { x: 1, y: 2 });
    assert_eq!(evade_position_at(&note, 5), Point2 { x: 3, y: 4 });
    assert_eq!(evade_position_at(&note, 6), Point2 { x: 3, y: 4 });
}

fn evade_data() -> EvadeNotesRendererData {
    let notes = vec![evade((0, 0), (10 * UNIT, 10 * UNIT), 2 * UNIT, UNIT), evade((4, 8), (4, 0), 0, 8)];
    EvadeNotesRendererData {
        gpu_object_instances: ObjectInstanceGpuData::from_evade_object_instances(&notes),
        evade_notes_instances: notes,
        renderer_index: 3,
    }
}

#[test]
fn updating_evade_notes_depends_on_the_time_alone() {
    let mut data = evade_data();
    assert_eq!(data.gpu_object_instances[1].translation, Point3 { x: 4, y: 0, z: 8 });
    data.update_evade_notes(2_500_000);
    let first = data.gpu_object_instances.clone();
    assert_eq!(first[0].translation, Point3 { x: 5 * UNIT, y: 0, z: 5 * UNIT });
    assert_eq!(first[1].translation, Point3 { x: 4, y: 0, z: 0 });
    assert_eq!(first[0].base_color, color(1, 2, 3));
    assert_eq!(first[0].apply_runner_transform, 1);
    data.update_evade_notes(2_500_000);
    assert_eq!(data.gpu_object_instances, first);
    data.update_evade_notes(4);
    assert_eq!(data.gpu_object_instances[0].translation, Point3 { x: 0, y: 0, z: 0 });
    assert_eq!(data.gpu_object_instances[1].translation, Point3 { x: 4, y: 0, z: 4 });
    data.update_evade_notes(2_500_000);
    assert_eq!(data.gpu_object_instances, first);
    assert_eq!(data.renderer_index, 3);
    assert_eq!(data.evade_notes_instances.len(), 2);
}

#[test]
fn what_the_renderer_reads_of_an_object() {
    let object = ObjectInstance { z_position: 7, x_position: -3, base_color: color(4, 5, 6), apply_runner_transform: true };
    assert_eq!(
        ObjectInstanceGpuData::from_object_instance(&object),
        ObjectInstanceGpuData { translation: Point3 { x: -3, y: 0, z: 7 }, base_color: color(4, 5, 6), apply_runner_transform: 1 }
    );
    let still = ObjectInstance { apply_runner_transform: false, ..object };
    let all = ObjectInstanceGpuData::from_object_instances(&[object, still]);
    assert_eq!(all.len(), 2);
    assert_eq!(all[1].apply_runner_transform, 0);
    let note = evade((1, 2), (3, 4), 5, 6);
    assert_eq!(
        ObjectInstanceGpuData::from_evade_object_instance(&note),
        ObjectInstanceGpuData { translation: Point3 { x: 1, y: 0, z: 2 }, base_color: color(1, 2, 3), apply_runner_transform: 1 }
    );
}

#[test]
fn shader_stages_by_name() {
    let stages = [
        (ShaderStage::Vertex, "vert", "VERTEX"),
        (ShaderStage::Fragment, "frag", "FRAGMENT"),
        (ShaderStage::Geometry, "geom", "GEOMETRY"),
        (ShaderStage::Compute, "comp", "COMPUTE"),
        (ShaderStage::Mesh, "mesh", "MESH"),
        (ShaderStage::Task, "task", "TASK"),
    ];
    for (stage, extension, define) in stages {
        assert_eq!(stage.to_glslang_compiler_extension(), extension);
        assert_eq!(stage.to_glslang_stage_defines(), define);
    }
    let descriptor = ShaderModuleDescriptor::new("shaders/a.vs.glsl", ShaderStage::Vertex);
    assert_eq!(descriptor.source_file_name, "shaders/a.vs.glsl");
    assert_eq!(descriptor.shader_stage, ShaderStage::Vertex);
}

#[test]
fn the_pipelines_of_a_track() {
    let p = RenderPipelines::instanced();
    assert_eq!(p.rendering_type, RenderingType::Instanced);
    assert_eq!(p.shader_modules.len(), 2);
    assert_eq!(p.shader_modules[0].source_file_name, "shaders/object_instanced.vs.glsl");
    assert_eq!(p.shader_modules[0].shader_stage, ShaderStage::Vertex);
    assert_eq!(p.shader_modules[1].source_file_name, "shaders/object_instanced.fs.glsl");
    assert_eq!(p.shader_modules[1].shader_stage, ShaderStage::Fragment);
    let p = RenderPipelines::mosv_planes_smooth();
    assert_eq!(p.rendering_type, RenderingType::MultipleObjectsSingleVertexData);
    assert_eq!(p.shader_modules[0].source_file_name, "shaders/object_vertices_smooth_1.vs.glsl");
    assert_eq!(p.shader_modules[1].source_file_name, "shaders/object_vertices_smooth_1.fs.glsl");
    let p = RenderPipelines::mosv_lines_smooth();
    assert_eq!(p.rendering_type, RenderingType::MultipleObjectsSingleVertexData);
    assert_eq!(p.shader_modules[0].source_file_name, "shaders/object_vertices_smooth_2.vs.glsl");
    assert_eq!(p.shader_modules[1].source_file_name, "shaders/object_vertices_smooth_2.fs.glsl");
    assert_eq!(p.shader_modules[1].shader_stage, ShaderStage::Fragment);
}

fn ring() -> Mesh {
    Mesh::from_indices(
        vec![Point3 { x: -50_000, y: 0, z: 0 }, Point3 { x: 50_000, y: 20_000, z: 0 }, Point3 { x: 0, y: -20_000, z: 50_000 }],
        vec![0, 1, 2],
    )
}

#[test]
fn the_meshes_of_the_notes() {
    let meshes = RenderMeshes::new(ring()).unwrap();
    let hit = meshes.hit();
    assert_eq!(hit.vertices.len(), 8);
    assert_eq!(hit.vertices[0], Point3 { x: -125_000, y: -50_000, z: -50_000 });
    assert_eq!(hit.indices.len(), 36);
    let flick = meshes.flick();
    assert_eq!(flick.vertices[7], Point3 { x: 450_000, y: 25_000, z: 50_000 });
    let contact = meshes.contact();
    assert_eq!(contact.vertices[1], Point3 { x: 50_000, y: -60_000, z: 0 });
    assert_eq!(contact.indices, vec![0, 1, 2]);
    let evade = meshes.evade();
    assert_eq!(evade.vertices[1], Point3 { x: 50_000, y: -140_000, z: 0 });
    assert_eq!(evade.vertices[2], Point3 { x: 0, y: -180_000, z: 50_000 });
    let low = Mesh::from_indices(vec![Point3 { x: 0, y: i64::MIN + 100_000, z: 0 }], Vec::new());
    assert!(RenderMeshes::new(low).is_none());
    let lowest = Mesh::from_indices(vec![Point3 { x: 0, y: i64::MIN + 160_000, z: 0 }], Vec::new());
    assert_eq!(RenderMeshes::new(lowest).unwrap().evade().vertices[0].y, i64::MIN);
}

fn quad_group(objects: usize) -> MergedObjects {
    let mut group = MergedObjects::new();
    for i in 0..objects {
        let mesh = Mesh::from_indices(
            vec![Point3 { x: i as i64, y: 0, z: 0 }, Point3 { x: 1, y: 0, z: 0 }, Point3 { x: 0, y: 0, z: 1 }, Point3 { x: 1, y: 0, z: 1 }],
            vec![0, 1, 2, 1, 2, 3],
        );
        group.add_object(mesh, ObjectInstance::at_origin(color(i as i64, 0, 0))).unwrap();
    }
    group
}

fn description() -> TrackDescription {
    let object = |z: i64| ObjectInstance { z_position: z, x_position: 1, base_color: color(0, 0, 0), apply_runner_transform: true };
    TrackDescription {
        notes_hit: vec![object(1), object(2)],
        notes_contact: vec![object(3)],
        notes_flick: Vec::new(),
        notes_evade: vec![evade((1, 2), (3, 4), 5, 6), evade((7, 8), (9, 10), 11, 12)],
        settings: TrackSettings { runner_speed: UNIT },
        platform_instances: vec![ObjectInstance::at_origin(color(0, 0, 0))],
        platform_mesh: Mesh::from_indices(vec![Point3 { x: 0, y: 0, z: 0 }; 4], vec![0, 1, 2, 1, 2, 3]),
        hold_notes: quad_group(3),
        lanes: quad_group(2),
    }
}

fn native_bytes(values: &[u32]) -> Vec<u8> {
    values.iter().flat_map(|v| v.to_ne_bytes()).collect()
}

#[test]
fn the_draw_data_of_a_scene() {
    let creator = RenderDescriptionCreator::new(description(), RenderMeshes::new(ring()).unwrap());
    let (render, metadata) = creator.create();
    assert_eq!(render.scene_uniform_data_size, SCENE_UNIFORM_DATA_SIZE);
    assert_eq!(render.scene_uniform_data_size, 128);
    assert_eq!(render.pipelines.len(), 3);
    assert_eq!(render.pipelines[0].rendering_type, RenderingType::Instanced);
    assert_eq!(render.pipelines[1].shader_modules[0].source_file_name, "shaders/object_vertices_smooth_1.vs.glsl");
    assert_eq!(render.pipelines[2].shader_modules[1].source_file_name, "shaders/object_vertices_smooth_2.fs.glsl");

    assert_eq!(render.instanced_draw_data.len(), 5);
    let counts: Vec<usize> = render.instanced_draw_data.iter().map(|d| d.instance_count).collect();
    assert_eq!(counts, vec![2, 1, 0, 2, 1]);
    for unit in &render.instanced_draw_data {
        assert_eq!(unit.pipeline_index, 0);
        assert_eq!(unit.instance_data.len(), unit.instance_count);
    }
    assert_eq!(render.instanced_draw_data[0].vertices.len(), 8);
    assert_eq!(render.instanced_draw_data[0].instance_data[1].translation, Point3 { x: 1, y: 0, z: 2 });
    assert_eq!(render.instanced_draw_data[1].vertices[1].y, -60_000);
    assert_eq!(render.instanced_draw_data[2].vertices[7].x, 450_000);
    assert_eq!(render.instanced_draw_data[3].vertices[1].y, -140_000);
    assert_eq!(render.instanced_draw_data[3].instance_data[1].translation, Point3 { x: 7, y: 0, z: 8 });
    assert_eq!(render.instanced_draw_data[4].indices, vec![0, 1, 2, 1, 2, 3]);

    assert_eq!(render.mosv_draw_data.len(), 2);
    let holds = &render.mosv_draw_data[0];
    assert_eq!(holds.pipeline_index, 1);
    assert_eq!(holds.objects_count, 3);
    assert_eq!(holds.objects_data.len(), 3);
    assert_eq!(holds.objects_data[2].base_color, color(2, 0, 0));
    assert_eq!(holds.objects_indices, vec![0, 0, 0, 0, 1, 1, 1, 1, 2, 2, 2, 2]);
    assert_eq!(holds.objects_indices.len(), holds.vertices.len());
    assert_eq!(*holds.objects_indices.iter().max().unwrap() as usize, holds.objects_count - 1);
    assert_eq!(holds.indices.len(), 18);
    assert_eq!(*holds.indices.last().unwrap(), 11);
    let lanes = &render.mosv_draw_data[1];
    assert_eq!(lanes.pipeline_index, 2);
    assert_eq!(lanes.objects_count, 2);
    assert_eq!(lanes.objects_indices, vec![0, 0, 0, 0, 1, 1, 1, 1]);

    assert_eq!(metadata.evade_notes_data.renderer_index, 3);
    assert_eq!(metadata.evade_notes_data.evade_notes_instances.len(), 2);
    assert_eq!(metadata.evade_notes_data.gpu_object_instances, render.instanced_draw_data[3].instance_data);
}

#[test]
fn object_indices_become_bytes_in_the_byte_order_of_the_machine() {
    let creator = RenderDescriptionCreator::new(description(), RenderMeshes::new(ring()).unwrap());
    let (render, _) = creator.create();
    let holds = &render.mosv_draw_data[0];
    assert_eq!(holds.objects_indices_bytes.len(), 4 * holds.objects_indices.len());
    assert_eq!(holds.objects_indices_bytes, native_bytes(&holds.objects_indices));

    let mut creator = RenderDescriptionCreator::new(description(), RenderMeshes::new(ring()).unwrap());
    let mesh = Mesh::from_indices(vec![Point3 { x: 0, y: 0, z: 0 }; 3], vec![0, 1, 2]);
    let objects = vec![ObjectInstanceGpuData { translation: Point3 { x: 0, y: 0, z: 0 }, base_color: color(0, 0, 0), apply_runner_transform: 1 }; 2];
    creator.add_mosv_draw_data(7, mesh, &objects, &[1, 258, 0x0403_0201]);
    let unit = &creator.mosv_draw_data[0];
    assert_eq!(unit.objects_indices, vec![1, 258, 0x0403_0201]);
    assert_eq!(unit.objects_indices_bytes, native_bytes(&[1, 258, 0x0403_0201]));
    let little = vec![1u8, 0, 0, 0, 2, 1, 0, 0, 1, 2, 3, 4];
    let big = vec![0u8, 0, 0, 1, 0, 0, 1, 2, 4, 3, 2, 1];
    assert!(unit.objects_indices_bytes == little || unit.objects_indices_bytes == big);
    assert_eq!(unit.pipeline_index, 7);
    assert_eq!(unit.objects_count, 2);
}

#[test]
fn units_are_added_after_those_that_are_there() {
    let mut creator = RenderDescriptionCreator::new(description(), RenderMeshes::new(ring()).unwrap());
    assert_eq!(creator.add_pipeline(RenderPipelines::mosv_lines_smooth()), 0);
    assert_eq!(creator.add_pipeline(RenderPipelines::instanced()), 1);
    let data = vec![ObjectInstanceGpuData { translation: Point3 { x: 1, y: 2, z: 3 }, base_color: color(0, 0, 0), apply_runner_transform: 0 }];
    creator.add_objects_instanced_draw_data(&data, ring(), 1);
    creator.add_instanced_draw_data(InstancedDrawData { instance_data: Vec::new(), instance_count: 0, vertices: Vec::new(), indices: Vec::new(), pipeline_index: 1 });
    assert_eq!(creator.instanced_draw_data[0].instance_data, data);
    assert_eq!(creator.instanced_draw_data[0].vertices.len(), 3);
    let (render, metadata) = creator.create();
    assert_eq!(render.pipelines.len(), 5);
    assert_eq!(render.pipelines[2].rendering_type, RenderingType::Instanced);
    assert_eq!(render.instanced_draw_data.len(), 7);
    assert_eq!(render.instanced_draw_data[2].pipeline_index, 2);
    assert_eq!(render.mosv_draw_data[0].pipeline_index, 3);
    assert_eq!(render.mosv_draw_data[1].pipeline_index, 4);
    assert_eq!(metadata.evade_notes_data.renderer_index, 5);
}

#[test]
fn instance_bytes_of_the_wrong_length_are_refused() {
    let unit = InstancedDrawData {
        instance_data: vec![ObjectInstanceGpuData { translation: Point3 { x: 0, y: 0, z: 0 }, base_color: color(0, 0, 0), apply_runner_transform: 1 }; 3],
        instance_count: 3,
        vertices: Vec::new(),
        indices: Vec::new(),
        pipeline_index: 0,
    };
    assert_eq!(OBJECT_INSTANCE_STRIDE, 96);
    assert_eq!(unit.check_instance_bytes_len(288), Ok(()));
    assert_eq!(unit.check_instance_bytes_len(287), Err(InstanceBufferSizeMismatch { expected: 288, actual: 287 }));
    assert_eq!(unit.check_instance_bytes_len(0), Err(InstanceBufferSizeMismatch { expected: 288, actual: 0 }));
    let huge = InstancedDrawData { instance_count: usize::MAX, ..unit };
    assert!(huge.check_instance_bytes_len(96).is_err());
}

#[test]
fn instanced_units_are_grouped_by_pipeline() {
    let unit = |pipeline_index: usize| InstancedDrawData { instance_data: Vec::new(), instance_count: 0, vertices: Vec::new(), indices: Vec::new(), pipeline_index };
    let render = RenderDescription {
        scene_uniform_data_size: 128,
        pipelines: vec![RenderPipelines::instanced(), RenderPipelines::instanced(), RenderPipelines::instanced()],
        instanced_draw_data: vec![unit(2), unit(0), unit(2), unit(2), unit(0)],
        mosv_draw_data: Vec::new(),
    };
    assert_eq!(render.group_instanced_by_pipeline(), vec![vec![1, 4], vec![], vec![0, 2, 3]]);
    let creator = RenderDescriptionCreator::new(description(), RenderMeshes::new(ring()).unwrap());
    let (render, _) = creator.create();
    assert_eq!(render.group_instanced_by_pipeline(), vec![vec![0, 1, 2, 3, 4], vec![], vec![]]);
}
