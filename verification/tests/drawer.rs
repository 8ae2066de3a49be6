use bevy_arca::render::command::{Color, Command};
use bevy_arca::render::constant_buffer::{ConstantBuffer, ConstantData};
use bevy_arca::render::descriptor_heap::{
    CpuDescriptorHandle, DescriptorHeap, DescriptorHeapDesc, DescriptorHeapKind,
    GpuDescriptorHandle, HeapPlacement,
};
use bevy_arca::render::drawer::{draw, Drawer};
use bevy_arca::render::fence::FenceWait;
use bevy_arca::render::gpu::Gpu;
use bevy_arca::render::mesh_data::mesh_buffer::{MeshBuffer, MeshBufferParts};
use bevy_arca::render::pipelines::constants::{CameraData, MeshInfo};
use bevy_arca::render::pipelines::naive_pathtracer::{PathTracerParts, PathTracerPipeline};
use bevy_arca::render::pipelines::storage::{
    Pipeline, PipelineStorage, PATH_TRACER_PIPELINE_ID, TRIANGLE_PIPELINE_ID,
};
use bevy_arca::render::pipelines::triangle::TrianglePipeline;
use bevy_arca::render::render_target::{
    create_rect, create_viewport, switch_frame, FrameStep, WindowExtent, WindowRenderTarget,
};
use bevy_arca::render::resource::{transition_barrier, ResourceState};
use bevy_arca::scene::camera::Camera;
use bevy_arca::scene::vertex_buffer::VertexBuffer;
use bevy_arca::single::Single;

fn single(value: f32) -> Single {
    Single::from_bits(value.to_bits())
}

fn heap(kind: DescriptorHeapKind, start: usize) -> DescriptorHeap {
    DescriptorHeap::new(
        DescriptorHeapDesc::new(kind, 2, kind == DescriptorHeapKind::CbvSrvUav),
        HeapPlacement {
            heap: 0x22,
            cpu_start: CpuDescriptorHandle { ptr: start },
            gpu_start: GpuDescriptorHandle { ptr: 0x9000 },
            increment: 32,
        },
    )
    .expect("the heap fits the address space")
}

fn target(frame_index: u32) -> WindowRenderTarget {
    let extent = WindowExtent {
        width: single(800.0),
        height: single(600.0),
        physical_width: 800,
        physical_height: 600,
    };
    let mut rtv_heap = heap(DescriptorHeapKind::Rtv, 0x5000);
    let mut target =
        WindowRenderTarget::new(&extent, 0x5c, frame_index, 0xfe, 0xe1, &mut rtv_heap)
            .expect("the heap has two slots");
    target.create_rtvs(&[0xb000, 0xb008]);
    target
}

fn path_tracer() -> PathTracerPipeline {
    PathTracerPipeline::new(PathTracerParts {
        root_signature: 0x51,
        vertex_buffer: VertexBuffer::fullscreen_quad(0x77, 0xabc0),
        state: 0x57,
        camera_constant_buffer: ConstantBuffer::<CameraData>::create(0xc1, 0xd100),
        mesh_info_constant_buffer: ConstantBuffer::<MeshInfo>::create(0xc2, 0xd200),
        mesh_buffer: MeshBuffer::new(MeshBufferParts {
            gpu_vertex_buffer: 0x10,
            upload_vertex_buffer: 0x20,
            gpu_index_buffer: 0x30,
            upload_index_buffer: 0x40,
        }),
        srv_heap: heap(DescriptorHeapKind::CbvSrvUav, 0x8000),
    })
    .expect("the heap has two slots")
    .0
}

fn camera_data() -> CameraData {
    CameraData::new([[single(2.0); 4]; 4], &Camera { fov: single(0.5), aspect_ratio: single(1.5) })
}

fn frame_start(state: usize, back_buffer: usize, view: usize) -> Vec<Command> {
    vec![
        Command::ResetCommandAllocator,
        Command::ResetCommandList { pipeline_state: state },
        Command::SetViewport(create_viewport(single(800.0), single(600.0))),
        Command::SetScissorRect(create_rect(800, 600)),
        Command::ResourceBarrier(transition_barrier(
            back_buffer,
            ResourceState::Present,
            ResourceState::RenderTarget,
        )),
        Command::SetRenderTarget { view: CpuDescriptorHandle { ptr: view } },
        Command::ClearRenderTarget {
            view: CpuDescriptorHandle { ptr: view },
            color: Color {
                red: single(0.0),
                green: single(0.2),
                blue: single(0.4),
                alpha: single(1.0),
            },
        },
    ]
}

fn frame_end(back_buffer: usize, value: u64) -> Vec<Command> {
    vec![
        Command::ResourceBarrier(transition_barrier(
            back_buffer,
            ResourceState::RenderTarget,
            ResourceState::Present,
        )),
        Command::Close,
        Command::ExecuteCommandList,
        Command::Present { sync_interval: 1, flags: 0 },
        Command::SignalFence { fence: 0xfe, value },
    ]
}

#[test]
fn drawer_keeps_its_command_list() {
    let gpu = Gpu::new(1, 2, 3, 4);
    assert_eq!(Drawer::new(&gpu, 0xc1).command_list(), 0xc1);
}

#[test]
fn nothing_is_drawn_without_the_pipeline() {
    let mut pipelines = PipelineStorage::new();
    pipelines.insert(TRIANGLE_PIPELINE_ID, Pipeline::Triangle(TrianglePipeline::new(0x58, 0x52)));
    let mut target = target(0);
    let commands = draw::<PATH_TRACER_PIPELINE_ID>(&mut pipelines, &camera_data(), &mut target);
    assert!(commands.is_empty());
    assert_eq!(target.fence().expected_value(), 0);
    assert_eq!(pipelines.len(), 1);
    assert!(pipelines.contains_key(TRIANGLE_PIPELINE_ID));
}

#[test]
fn a_frame_runs_from_reset_to_signal() {
    let mut pipelines = PipelineStorage::new();
    pipelines.insert(PATH_TRACER_PIPELINE_ID, Pipeline::PathTracer(path_tracer()));
    let mut target = target(1);
    let commands = draw::<PATH_TRACER_PIPELINE_ID>(&mut pipelines, &camera_data(), &mut target);

    let mut expected = frame_start(0x57, 0xb008, 0x5020);
    expected.push(Command::WriteConstantBuffer { buffer: 0xc1 });
    expected.extend(path_tracer().populate_command_list());
    expected.extend(frame_end(0xb008, 0));
    assert_eq!(commands, expected);
    assert_eq!(commands.len(), 7 + 1 + 15 + 5);

    assert_eq!(target.fence().expected_value(), 1);
    assert!(target.is_active());
    assert_eq!(target.frame_index(), 1);
    assert_eq!(pipelines.len(), 1);
    match pipelines.get(PATH_TRACER_PIPELINE_ID) {
        Some(Pipeline::PathTracer(pipeline)) => {
            assert_eq!(pipeline.camera_bytes(), &camera_data().to_bytes());
        }
        _ => panic!("the path tracer is still stored"),
    }
}

#[test]
fn every_frame_signals_the_next_value_on_the_other_buffer() {
    let mut pipelines = PipelineStorage::new();
    pipelines.insert(PATH_TRACER_PIPELINE_ID, Pipeline::PathTracer(path_tracer()));
    let mut target = target(0);
    let extent = WindowExtent {
        width: single(800.0),
        height: single(600.0),
        physical_width: 800,
        physical_height: 600,
    };
    for frame in 0..6u64 {
        let commands = draw::<PATH_TRACER_PIPELINE_ID>(&mut pipelines, &camera_data(), &mut target);
        let back_buffer = if frame % 2 == 0 { 0xb000 } else { 0xb008 };
        assert_eq!(
            commands[4],
            Command::ResourceBarrier(transition_barrier(
                back_buffer,
                ResourceState::Present,
                ResourceState::RenderTarget
            ))
        );
        assert_eq!(commands.last(), Some(&Command::SignalFence { fence: 0xfe, value: frame }));
        assert_eq!(target.wait_frame_finished(frame), FenceWait::Ready);
        let steps = switch_frame(&mut target, &extent, frame);
        assert_eq!(steps, vec![FrameStep::UpdateFrameIndex]);
        assert_eq!(target.update_frame_index(((frame + 1) % 2) as u32), Ok(()));
    }
    assert_eq!(target.fence().expected_value(), 6);
}

#[test]
fn the_triangle_pipeline_uploads_no_camera() {
    let mut pipelines = PipelineStorage::new();
    let mut triangles = TrianglePipeline::new(0x58, 0x52);
    triangles.add_vertex_buffer(VertexBuffer::triangle(0x1, 0x100));
    let recorded = triangles.populate_command_list();
    pipelines.insert(TRIANGLE_PIPELINE_ID, Pipeline::Triangle(triangles));
    let mut target = target(0);
    let commands = draw::<TRIANGLE_PIPELINE_ID>(&mut pipelines, &camera_data(), &mut target);
    let mut expected = frame_start(0x58, 0xb000, 0x5000);
    expected.extend(recorded);
    expected.extend(frame_end(0xb000, 0));
    assert_eq!(commands, expected);
    assert!(!commands.iter().any(|command| matches!(command, Command::WriteConstantBuffer { .. })));
}

#[test]
fn barriers_of_a_frame_are_balanced() {
    let mut pipelines = PipelineStorage::new();
    pipelines.insert(PATH_TRACER_PIPELINE_ID, Pipeline::PathTracer(path_tracer()));
    let mut target = target(0);
    let commands = draw::<PATH_TRACER_PIPELINE_ID>(&mut pipelines, &camera_data(), &mut target);
    let mut states = vec![
        (0xb000usize, ResourceState::Present),
        (0x10, ResourceState::GenericRead),
        (0x30, ResourceState::GenericRead),
    ];
    for command in &commands {
        match command {
            Command::ResourceBarrier(barrier) => {
                let entry = states
                    .iter_mut()
                    .find(|(resource, _)| *resource == barrier.resource)
                    .expect("only known resources change state");
                assert_eq!(entry.1, barrier.state_before);
                entry.1 = barrier.state_after;
            }
            Command::DrawInstanced { .. } => {
                assert_eq!(states[0].1, ResourceState::RenderTarget);
                assert_eq!(states[1].1, ResourceState::GenericRead);
                assert_eq!(states[2].1, ResourceState::GenericRead);
            }
            Command::CopyResource { destination, .. } => {
                let entry = states.iter().find(|(resource, _)| resource == destination);
                assert_eq!(entry.map(|(_, state)| *state), Some(ResourceState::CopyDest));
            }
            Command::Present { .. } => assert_eq!(states[0].1, ResourceState::Present),
            _ => {}
        }
    }
    assert_eq!(states[0].1, ResourceState::Present);
    assert_eq!(states[1].1, ResourceState::GenericRead);
    assert_eq!(states[2].1, ResourceState::GenericRead);
}
