use bevy_arca::render::command::{Command, VertexBufferView};
use bevy_arca::render::constant_buffer::{ConstantBuffer, ConstantData};
use bevy_arca::render::descriptor_heap::{
    CpuDescriptorHandle, DescriptorHeap, DescriptorHeapDesc, DescriptorHeapKind,
    GpuDescriptorHandle, HeapError, HeapPlacement,
};
use bevy_arca::render::mesh_data::mesh_buffer::{
    buffer_srv_desc, MeshBuffer, MeshBufferError, MeshBufferParts, StagedMesh,
};
use bevy_arca::render::mesh_data::mesh_list::MeshData;
use bevy_arca::render::pipelines::constants::{CameraData, MeshInfo};
use bevy_arca::render::pipelines::description::{
    compile_flags, compile_requests, compile_shaders, CompileFailure, CompileRequest,
    CompiledShaders, DescriptorRange, InputElementDesc, RenderTargetBlendDesc, RootParameter,
    Semantic, ShaderCompilationError, ShaderStage,
};
use bevy_arca::render::pipelines::naive_pathtracer::{
    create_pathtracer_pipeline, create_pipeline_state, create_root_signature, PathTracerParts,
    PathTracerPipeline, PipelineBuild,
};
use bevy_arca::render::pipelines::storage::{
    Pipeline, PipelineStorage, PATH_TRACER_PIPELINE_ID, TRIANGLE_PIPELINE_ID,
};
use bevy_arca::render::pipelines::triangle::TrianglePipeline;
use bevy_arca::render::resource::{transition_barrier, ResourceState};
use bevy_arca::scene::camera::Camera;
use bevy_arca::scene::mesh::{Mesh, PrimitiveTopologyType};
use bevy_arca::scene::vertex_buffer::VertexBuffer;
use bevy_arca::single::Single;

fn single(value: f32) -> Single {
    Single::from_bits(value.to_bits())
}

fn srv_heap(capacity: u32) -> DescriptorHeap {
    DescriptorHeap::new(
        DescriptorHeapDesc::new(DescriptorHeapKind::CbvSrvUav, capacity, true),
        HeapPlacement {
            heap: 0x22,
            cpu_start: CpuDescriptorHandle { ptr: 0x8000 },
            gpu_start: GpuDescriptorHandle { ptr: 0x9000 },
            increment: 48,
        },
    )
    .expect("the heap fits the address space")
}

fn parts(heap: DescriptorHeap) -> PathTracerParts {
    PathTracerParts {
        root_signature: 0x51,
        vertex_buffer: VertexBuffer::fullscreen_quad(0x77, 0xabc0),
        state: 0x57,
        camera_constant_buffer: ConstantBuffer::<CameraData>::create(0xc1, 0xd100),
        mesh_info_constant_buffer: ConstantBuffer::<MeshInfo>::create(0xc2, 0xd200),
        mesh_buffer: MeshBuffer::new(MeshBufferParts {
            gpu_vertex_buffer: 0x10,
            upload_vertex_buffer: 0x20,
            gpu_index_buffer: 0x30,
            upload_index_buffer: 0x40,
        }),
        srv_heap: heap,
    }
}

fn path_tracer() -> PathTracerPipeline {
    PathTracerPipeline::new(parts(srv_heap(2))).expect("the heap has two slots").0
}

fn camera_data(fov: f32) -> CameraData {
    let columns = [[single(1.0); 4]; 4];
    CameraData::new(columns, &Camera { fov: single(fov), aspect_ratio: single(1.5) })
}

fn failure(code: i32, message: &str) -> CompileFailure {
    CompileFailure { code, message: String::from(message) }
}

fn scene(positions: usize, indices: usize) -> MeshData {
    let mut mesh = Mesh::new(PrimitiveTopologyType::Triangle);
    mesh.insert_positions(vec![[single(0.0); 3]; positions]);
    mesh.insert_indices(vec![0; indices]);
    let mut data = MeshData::new();
    data.add_mesh(&mesh).expect("a mesh with indices is always added");
    data
}

#[test]
fn shader_stages_name_entry_point_and_target() {
    assert_eq!(ShaderStage::Vertex.entry_point(), "VSMain");
    assert_eq!(ShaderStage::Vertex.target(), "vs_5_0");
    assert_eq!(ShaderStage::Pixel.entry_point(), "PSMain");
    assert_eq!(ShaderStage::Pixel.target(), "ps_5_0");
    assert_eq!(Semantic::Position.name(), "POSITION");
    assert_eq!(Semantic::TexCoord.name(), "TEXCOORD");
    assert_eq!(Semantic::Color.name(), "COLOR");
}

#[test]
fn debug_builds_compile_without_optimization() {
    assert_eq!(compile_flags(true), 5);
    assert_eq!(compile_flags(false), 0);
    assert_eq!(
        compile_requests(true),
        vec![
            CompileRequest { stage: ShaderStage::Vertex, flags: 5 },
            CompileRequest { stage: ShaderStage::Pixel, flags: 5 },
        ]
    );
    assert_eq!(
        compile_requests(false),
        vec![
            CompileRequest { stage: ShaderStage::Vertex, flags: 0 },
            CompileRequest { stage: ShaderStage::Pixel, flags: 0 },
        ]
    );
}

#[test]
fn compiled_shaders_are_taken_over() {
    let compiled = compile_shaders(Ok(Some(0xa1)), Ok(Some(0xa2))).expect("both compiled");
    assert_eq!(compiled, CompiledShaders { vertex_shader: 0xa1, pixel_shader: 0xa2 });
}

#[test]
fn vertex_shader_failure_is_reported_first() {
    match compile_shaders(Err(failure(-5, "vs broke")), Err(failure(-6, "ps broke"))) {
        Err(ShaderCompilationError::Vertex(reported)) => {
            assert_eq!(reported.code, -5);
            assert_eq!(reported.message, "vs broke");
        }
        other => panic!("expected the vertex shader's failure, got {:?}", other),
    }
    match compile_shaders(Err(failure(-5, "vs broke")), Ok(None)) {
        Err(ShaderCompilationError::Vertex(reported)) => assert_eq!(reported.code, -5),
        other => panic!("expected the vertex shader's failure, got {:?}", other),
    }
}

#[test]
fn pixel_shader_failure_is_reported_before_missing_bytecode() {
    match compile_shaders(Ok(None), Err(failure(-6, "ps broke"))) {
        Err(ShaderCompilationError::Pixel(reported)) => {
            assert_eq!(reported.code, -6);
            assert_eq!(reported.message, "ps broke");
        }
        other => panic!("expected the pixel shader's failure, got {:?}", other),
    }
    match compile_shaders(Ok(Some(1)), Err(failure(-7, ""))) {
        Err(ShaderCompilationError::Pixel(reported)) => assert_eq!(reported.code, -7),
        other => panic!("expected the pixel shader's failure, got {:?}", other),
    }
}

#[test]
fn missing_bytecode_is_reported_by_stage() {
    assert!(matches!(
        compile_shaders(Ok(None), Ok(None)),
        Err(ShaderCompilationError::MissingBytecode { stage: ShaderStage::Vertex })
    ));
    assert!(matches!(
        compile_shaders(Ok(None), Ok(Some(2))),
        Err(ShaderCompilationError::MissingBytecode { stage: ShaderStage::Vertex })
    ));
    assert!(matches!(
        compile_shaders(Ok(Some(1)), Ok(None)),
        Err(ShaderCompilationError::MissingBytecode { stage: ShaderStage::Pixel })
    ));
}

#[test]
fn path_tracer_root_signature_has_two_constants_and_a_table() {
    let desc = create_root_signature();
    assert_eq!(
        desc.parameters,
        vec![
            RootParameter::ConstantBufferView {
                shader_register: 0,
                register_space: 0,
                shader_visibility: 5,
            },
            RootParameter::ConstantBufferView {
                shader_register: 1,
                register_space: 0,
                shader_visibility: 5,
            },
            RootParameter::DescriptorTable { first_range: 0, range_count: 1, shader_visibility: 5 },
        ]
    );
    assert_eq!(
        desc.ranges,
        vec![DescriptorRange {
            range_type: 0,
            num_descriptors: 2,
            base_shader_register: 0,
            register_space: 0,
            offset_in_descriptors_from_table_start: u32::MAX,
        }]
    );
    assert_eq!(desc.num_static_samplers, 0);
    assert_eq!(desc.flags, 1);
}

#[test]
fn triangle_root_signature_is_empty() {
    let desc = bevy_arca::render::pipelines::triangle::create_root_signature();
    assert!(desc.parameters.is_empty());
    assert!(desc.ranges.is_empty());
    assert_eq!(desc.num_static_samplers, 0);
    assert_eq!(desc.flags, 1);
}

#[test]
fn path_tracer_state_draws_opaque_triangles_from_the_quad_layout() {
    let shaders = CompiledShaders { vertex_shader: 0xa1, pixel_shader: 0xa2 };
    let desc = create_pipeline_state(&shaders, 0x51);
    assert_eq!(desc.root_signature, 0x51);
    assert_eq!(desc.vertex_shader, 0xa1);
    assert_eq!(desc.pixel_shader, 0xa2);
    assert_eq!(
        desc.input_layout,
        vec![
            InputElementDesc {
                semantic: Semantic::Position,
                semantic_index: 0,
                format: 6,
                input_slot: 0,
                aligned_byte_offset: 0,
                input_slot_class: 0,
                instance_data_step_rate: 0,
            },
            InputElementDesc {
                semantic: Semantic::TexCoord,
                semantic_index: 0,
                format: 16,
                input_slot: 0,
                aligned_byte_offset: u32::MAX,
                input_slot_class: 0,
                instance_data_step_rate: 0,
            },
        ]
    );
    assert_eq!(desc.fill_mode, 3);
    assert_eq!(desc.cull_mode, 1);
    assert!(!desc.alpha_to_coverage_enable);
    assert!(!desc.independent_blend_enable);
    assert_eq!(
        desc.render_target_blend,
        RenderTargetBlendDesc {
            blend_enable: false,
            logic_op_enable: false,
            src_blend: 2,
            dest_blend: 1,
            blend_op: 1,
            src_blend_alpha: 2,
            dest_blend_alpha: 1,
            blend_op_alpha: 1,
            logic_op: 4,
            render_target_write_mask: 15,
        }
    );
    assert_eq!(desc.sample_mask, u32::MAX);
    assert_eq!(desc.primitive_topology_type, PrimitiveTopologyType::Triangle);
    assert_eq!(desc.num_render_targets, 1);
    assert_eq!(desc.rtv_format, 28);
    assert_eq!(desc.sample_count, 1);
}

#[test]
fn triangle_state_reads_position_and_colour() {
    let shaders = CompiledShaders { vertex_shader: 0xa1, pixel_shader: 0xa2 };
    let desc = bevy_arca::render::pipelines::triangle::create_pipeline_state(&shaders, 0x52);
    assert_eq!(desc.root_signature, 0x52);
    assert_eq!(desc.input_layout.len(), 2);
    assert_eq!(desc.input_layout[0].semantic, Semantic::Position);
    assert_eq!(desc.input_layout[0].aligned_byte_offset, 0);
    assert_eq!(desc.input_layout[1].semantic, Semantic::Color);
    assert_eq!(desc.input_layout[1].format, 6);
    assert_eq!(desc.input_layout[1].aligned_byte_offset, 12);
    assert_eq!(desc.rtv_format, 28);
}

#[test]
fn pipeline_is_built_once_the_shader_is_loaded() {
    assert_eq!(create_pathtracer_pipeline(true, true), PipelineBuild::AlreadyBuilt);
    assert_eq!(create_pathtracer_pipeline(true, false), PipelineBuild::AlreadyBuilt);
    assert_eq!(create_pathtracer_pipeline(false, false), PipelineBuild::AwaitShader);
    assert_eq!(create_pathtracer_pipeline(false, true), PipelineBuild::Build);
}

#[test]
fn path_tracer_asks_for_two_shader_visible_slots() {
    assert_eq!(
        PathTracerPipeline::srv_heap_desc(),
        DescriptorHeapDesc {
            kind: DescriptorHeapKind::CbvSrvUav,
            num_descriptors: 2,
            shader_visible: true,
            node_mask: 0,
        }
    );
}

#[test]
fn new_path_tracer_returns_the_views_to_create() {
    let (pipeline, views) = PathTracerPipeline::new(parts(srv_heap(2))).expect("two slots");
    assert_eq!(pipeline.state(), 0x57);
    assert_eq!(views.len(), 2);
    assert_eq!(views[0].resource, 0x10);
    assert_eq!(views[0].desc, buffer_srv_desc(12));
    assert_eq!(views[0].handle, CpuDescriptorHandle { ptr: 0x8000 });
    assert_eq!(views[1].resource, 0x30);
    assert_eq!(views[1].desc, buffer_srv_desc(4));
    assert_eq!(views[1].handle, CpuDescriptorHandle { ptr: 0x8030 });
}

#[test]
fn new_path_tracer_needs_two_free_slots() {
    assert_eq!(PathTracerPipeline::new(parts(srv_heap(1))).err(), Some(HeapError::CapacityExceeded));
    assert_eq!(PathTracerPipeline::new(parts(srv_heap(0))).err(), Some(HeapError::CapacityExceeded));
}

#[test]
fn path_tracer_binds_uploads_and_draws_the_quad() {
    let commands = path_tracer().populate_command_list();
    assert_eq!(
        commands,
        vec![
            Command::SetPipelineState { pipeline_state: 0x57 },
            Command::SetDescriptorHeap { heap: 0x22 },
            Command::SetGraphicsRootSignature { root_signature: 0x51 },
            Command::ResourceBarrier(transition_barrier(
                0x10,
                ResourceState::GenericRead,
                ResourceState::CopyDest
            )),
            Command::ResourceBarrier(transition_barrier(
                0x30,
                ResourceState::GenericRead,
                ResourceState::CopyDest
            )),
            Command::CopyResource { destination: 0x10, source: 0x20 },
            Command::CopyResource { destination: 0x30, source: 0x40 },
            Command::ResourceBarrier(transition_barrier(
                0x10,
                ResourceState::CopyDest,
                ResourceState::GenericRead
            )),
            Command::ResourceBarrier(transition_barrier(
                0x30,
                ResourceState::CopyDest,
                ResourceState::GenericRead
            )),
            Command::SetGraphicsRootConstantBufferView { parameter: 0, address: 0xd100 },
            Command::SetGraphicsRootConstantBufferView { parameter: 1, address: 0xd200 },
            Command::SetGraphicsRootDescriptorTable {
                parameter: 2,
                base: GpuDescriptorHandle { ptr: 0x9000 },
            },
            Command::SetPrimitiveTopology { topology: 4 },
            Command::SetVertexBuffer {
                slot: 0,
                vertices: VertexBufferView {
                    buffer_location: 0xabc0,
                    size_in_bytes: 120,
                    stride_in_bytes: 20,
                },
            },
            Command::DrawInstanced {
                vertex_count: 6,
                instance_count: 1,
                start_vertex: 0,
                start_instance: 0,
            },
        ]
    );
}

#[test]
fn camera_data_lands_in_the_camera_buffer() {
    let mut pipeline = path_tracer();
    assert_eq!(pipeline.camera_bytes(), &vec![0u8; 80]);
    let data = camera_data(0.5);
    assert_eq!(pipeline.write_camera_data(&data), 0xc1);
    assert_eq!(pipeline.camera_bytes(), &data.to_bytes());
    assert_eq!(pipeline.mesh_info_bytes(), &vec![0u8; 16]);
    let other = camera_data(0.25);
    pipeline.write_camera_data(&other);
    assert_eq!(pipeline.camera_bytes(), &other.to_bytes());
}

#[test]
fn mesh_data_sets_the_vertex_count() {
    let mut pipeline = path_tracer();
    let staged = pipeline.set_mesh_data(&scene(4, 6)).expect("four positions fit");
    assert_eq!(staged, StagedMesh { vertex_data: vec![0; 48], index_data: vec![0; 24] });
    assert_eq!(pipeline.mesh_info_bytes(), &MeshInfo::new(6).to_bytes());
    assert_eq!(pipeline.camera_bytes(), &vec![0u8; 80]);
}

#[test]
fn mesh_data_beyond_the_buffers_changes_nothing() {
    let mut pipeline = path_tracer();
    pipeline.set_mesh_data(&scene(1, 3)).expect("one triangle fits");
    let staged = pipeline.set_mesh_data(&scene(0, 1024 * 1024 / 4 + 1));
    assert_eq!(staged, Err(MeshBufferError::CapacityExceeded));
    assert_eq!(pipeline.mesh_info_bytes(), &MeshInfo::new(3).to_bytes());
}

#[test]
fn triangle_pipeline_draws_each_triangle() {
    let mut pipeline = TrianglePipeline::new(0x58, 0x52);
    assert_eq!(pipeline.state(), 0x58);
    assert_eq!(
        pipeline.populate_command_list(),
        vec![Command::SetGraphicsRootSignature { root_signature: 0x52 }]
    );
    pipeline.add_vertex_buffer(VertexBuffer::triangle(0x1, 0x100));
    pipeline.add_vertex_buffer(VertexBuffer::triangle(0x2, 0x200));
    let draw = Command::DrawInstanced {
        vertex_count: 3,
        instance_count: 1,
        start_vertex: 0,
        start_instance: 0,
    };
    assert_eq!(
        pipeline.populate_command_list(),
        vec![
            Command::SetGraphicsRootSignature { root_signature: 0x52 },
            Command::SetPrimitiveTopology { topology: 4 },
            Command::SetVertexBuffer {
                slot: 0,
                vertices: VertexBufferView {
                    buffer_location: 0x100,
                    size_in_bytes: 84,
                    stride_in_bytes: 28,
                },
            },
            draw,
            Command::SetPrimitiveTopology { topology: 4 },
            Command::SetVertexBuffer {
                slot: 0,
                vertices: VertexBufferView {
                    buffer_location: 0x200,
                    size_in_bytes: 84,
                    stride_in_bytes: 28,
                },
            },
            draw,
        ]
    );
}

#[test]
fn pipeline_dispatches_by_kind() {
    let mut tracer = Pipeline::PathTracer(path_tracer());
    assert_eq!(tracer.state(), 0x57);
    assert_eq!(tracer.populate_command_list().len(), 15);
    assert_eq!(tracer.write_camera_data(&camera_data(0.5)), Some(0xc1));
    assert_eq!(
        tracer.set_mesh_data(&scene(1, 3)),
        Ok(StagedMesh { vertex_data: vec![0; 12], index_data: vec![0; 12] })
    );
    let mut triangle = Pipeline::Triangle(TrianglePipeline::new(0x58, 0x52));
    assert_eq!(triangle.state(), 0x58);
    assert_eq!(triangle.populate_command_list().len(), 1);
    assert_eq!(triangle.write_camera_data(&camera_data(0.5)), None);
    assert_eq!(
        triangle.set_mesh_data(&scene(1, 3)),
        Ok(StagedMesh { vertex_data: Vec::new(), index_data: Vec::new() })
    );
}

#[test]
fn storage_keeps_pipelines_by_number() {
    assert_eq!(PATH_TRACER_PIPELINE_ID, 0);
    let mut storage = PipelineStorage::new();
    assert_eq!(storage.len(), 0);
    assert!(!storage.contains_key(PATH_TRACER_PIPELINE_ID));
    assert!(storage.get(PATH_TRACER_PIPELINE_ID).is_none());
    assert!(storage.insert(PATH_TRACER_PIPELINE_ID, Pipeline::PathTracer(path_tracer())).is_none());
    assert!(storage
        .insert(TRIANGLE_PIPELINE_ID, Pipeline::Triangle(TrianglePipeline::new(0x58, 0x52)))
        .is_none());
    assert_eq!(storage.len(), 2);
    assert!(storage.contains_key(PATH_TRACER_PIPELINE_ID));
    assert_eq!(storage.get(PATH_TRACER_PIPELINE_ID).map(|pipeline| pipeline.state()), Some(0x57));
    assert_eq!(storage.get(TRIANGLE_PIPELINE_ID).map(|pipeline| pipeline.state()), Some(0x58));
    let replaced = storage.insert(TRIANGLE_PIPELINE_ID, Pipeline::Triangle(TrianglePipeline::new(0x59, 0x52)));
    assert_eq!(replaced.map(|pipeline| pipeline.state()), Some(0x58));
    assert_eq!(storage.len(), 2);
    let removed = storage.remove(PATH_TRACER_PIPELINE_ID);
    assert_eq!(removed.map(|pipeline| pipeline.state()), Some(0x57));
    assert!(storage.remove(PATH_TRACER_PIPELINE_ID).is_none());
    assert_eq!(storage.len(), 1);
}
