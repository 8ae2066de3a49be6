//! The frame: everything that is recorded, submitted and presented for one
//! window, from the reset of the allocator to the signal of the fence.

use crate::render::command::{push_barrier, Color, Command};
use crate::render::descriptor_heap::{CpuDescriptorHandle, ObjectId};
use crate::render::gpu::Gpu;
use crate::render::pipelines::constants::CameraData;
use crate::render::pipelines::storage::{Pipeline, PipelineId, PipelineStorage};
use crate::render::render_target::{RenderTargetModel, TargetState, WindowRenderTarget};
use crate::render::resource::{spec_transition_barrier, ResourceState, TrackedResource};
use crate::single::Single;
use vstd::prelude::*;

verus! {

/// Bit pattern of `0.2`, the green of the background.
pub const CLEAR_GREEN_BITS: u32 = 0x3e4c_cccd;

/// Bit pattern of `0.4`, the blue of the background.
pub const CLEAR_BLUE_BITS: u32 = 0x3ecc_cccd;

/// Presentation waits for one vertical blank.
pub const SYNC_INTERVAL: u32 = 1;

/// The command list all frames are recorded into.
#[derive(Clone, Copy, Debug, PartialEq, Eq, Structural)]
pub struct Drawer {
    command_list: ObjectId,
}

/// The background colour: no red, a fifth green, two fifths blue, opaque.
pub open spec fn spec_clear_color() -> Color {
    Color {
        red: Single { bits: 0 },
        green: Single { bits: CLEAR_GREEN_BITS },
        blue: Single { bits: CLEAR_BLUE_BITS },
        alpha: Single { bits: crate::single::ONE_BITS },
    }
}

/// The commands that open a frame on `target`: reset allocator and command
/// list, set viewport and scissor rectangle, take the back buffer from
/// presentation to rendering, bind it and clear it.
pub open spec fn spec_frame_start(state: ObjectId, target: RenderTargetModel) -> Seq<Command> {
    seq![
        Command::ResetCommandAllocator,
        Command::ResetCommandList { pipeline_state: state },
        Command::SetViewport(target.viewport),
        Command::SetScissorRect(target.rect),
        Command::ResourceBarrier(
            spec_transition_barrier(
                target.back_buffer(),
                ResourceState::Present,
                ResourceState::RenderTarget,
            ),
        ),
        Command::SetRenderTarget { view: target.back_buffer_handle() },
        Command::ClearRenderTarget { view: target.back_buffer_handle(), color: spec_clear_color() },
    ]
}

/// The command that brings the camera to the GPU, for a pipeline that reads
/// one.
pub open spec fn spec_camera_upload(camera_buffer: Option<ObjectId>) -> Seq<Command> {
    match camera_buffer {
        Some(buffer) => seq![Command::WriteConstantBuffer { buffer }],
        None => Seq::<Command>::empty(),
    }
}

/// The commands that close a frame on `target`: give the back buffer back to
/// presentation, close and submit the command list, present, and signal the
/// fence with the value it expects.
pub open spec fn spec_frame_end(target: RenderTargetModel) -> Seq<Command> {
    seq![
        Command::ResourceBarrier(
            spec_transition_barrier(
                target.back_buffer(),
                ResourceState::RenderTarget,
                ResourceState::Present,
            ),
        ),
        Command::Close,
        Command::ExecuteCommandList,
        Command::Present { sync_interval: SYNC_INTERVAL, flags: 0 },
        Command::SignalFence {
            fence: target.fence.spec_fence(),
            value: target.fence.spec_expected_value(),
        },
    ]
}

/// The commands of one frame on `target` with `pipeline`.
pub open spec fn spec_frame(pipeline: Pipeline, target: RenderTargetModel) -> Seq<Command> {
    spec_frame_start(pipeline.spec_state(), target) + spec_camera_upload(
        pipeline.spec_camera_buffer(),
    ) + pipeline.spec_populate_command_list() + spec_frame_end(target)
}

impl Drawer {
    /// Identity of the command list.
    pub closed spec fn spec_command_list(self) -> ObjectId {
        self.command_list
    }

    /// The drawer around the command list that the device created for direct
    /// execution on the context's allocator, and that has been closed.
    pub fn new(gpu: &Gpu, command_list: ObjectId) -> (drawer: Self)
        ensures
            drawer.spec_command_list() == command_list,
    {
        Drawer { command_list }
    }

    /// Identity of the command list.
    pub fn command_list(&self) -> (command_list: ObjectId)
        ensures
            command_list == self.spec_command_list(),
    {
        self.command_list
    }
}

/// Draws one frame on `render_target` with the pipeline stored under
/// `PIPELINE_ID`, seen through `camera`, and returns its commands in the
/// order in which they are to be carried out.
///
/// Without that pipeline nothing is drawn: no command is returned and
/// nothing changes. Otherwise the pipeline takes the camera, the frame is
/// recorded from the reset of the allocator to the closing barrier,
/// submitted and presented, and the render target's fence is signalled with
/// the value it expected and expects the next one from then on.
///
/// The render target must be `Active`, and no frame may be in flight: the
/// allocator is reset, which the GPU must be done with.
pub fn draw<const PIPELINE_ID: usize>(
    pipelines: &mut PipelineStorage,
    camera: &CameraData,
    render_target: &mut WindowRenderTarget,
) -> (commands: Vec<Command>)
    requires
        old(pipelines).wf(),
        old(render_target)@.wf(),
        old(render_target)@.state == TargetState::Active,
        !old(render_target)@.in_flight,
        old(render_target)@.fence.spec_expected_value() < u64::MAX,
    ensures
        final(pipelines).wf(),
        final(render_target)@.wf(),
        !old(pipelines)@.contains_key(PIPELINE_ID) ==> {
            &&& commands@ == Seq::<Command>::empty()
            &&& final(pipelines)@ == old(pipelines)@
            &&& final(render_target)@ == old(render_target)@
        },
        old(pipelines)@.contains_key(PIPELINE_ID) ==> {
            &&& commands@ == spec_frame(old(pipelines)@[PIPELINE_ID], old(render_target)@)
            &&& final(render_target)@ == old(render_target)@.signal_end_present()
            &&& final(render_target)@.fence.spec_expected_value() == old(
                render_target,
            )@.fence.spec_expected_value() + 1
            &&& final(render_target)@.fence.spec_fence() == old(
                render_target,
            )@.fence.spec_fence()
            &&& final(render_target)@.fence.spec_event() == old(
                render_target,
            )@.fence.spec_event()
            &&& final(pipelines)@.dom() == old(pipelines)@.dom()
            &&& forall|id: PipelineId|
                id != PIPELINE_ID && old(pipelines)@.contains_key(id) ==> final(pipelines)@[id]
                    == old(pipelines)@[id]
            &&& final(pipelines)@[PIPELINE_ID].spec_state() == old(
                pipelines,
            )@[PIPELINE_ID].spec_state()
            &&& final(pipelines)@[PIPELINE_ID].spec_populate_command_list() == old(
                pipelines,
            )@[PIPELINE_ID].spec_populate_command_list()
            &&& match (old(pipelines)@[PIPELINE_ID], final(pipelines)@[PIPELINE_ID]) {
                (Pipeline::PathTracer(before), Pipeline::PathTracer(after)) => {
                    &&& after.spec_camera() == before.spec_camera().write(
                        crate::render::constant_buffer::ConstantData::spec_bytes(camera),
                    )
                    &&& after.spec_mesh_info() == before.spec_mesh_info()
                },
                (Pipeline::Triangle(before), Pipeline::Triangle(after)) => after == before,
                _ => false,
            }
        },
{
    let mut pipeline = match pipelines.remove(PIPELINE_ID) {
        Some(pipeline) => pipeline,
        None => {
            proof {
                assert(pipelines@ =~= old(pipelines)@);
            }
            return Vec::new();
        },
    };
    let mut commands: Vec<Command> = Vec::new();
    commands.push(Command::ResetCommandAllocator);
    commands.push(Command::ResetCommandList { pipeline_state: pipeline.state() });
    commands.push(Command::SetViewport(render_target.viewport()));
    commands.push(Command::SetScissorRect(render_target.rect()));

    let mut back_buffer = TrackedResource::new(
        render_target.back_buffer(),
        ResourceState::Present,
    );
    push_barrier(&mut commands, &mut back_buffer, ResourceState::RenderTarget);

    let rtv_handle: CpuDescriptorHandle = render_target.back_buffer_handle();
    commands.push(Command::SetRenderTarget { view: rtv_handle });
    commands.push(
        Command::ClearRenderTarget {
            view: rtv_handle,
            color: Color {
                red: Single::zero(),
                green: Single::from_bits(CLEAR_GREEN_BITS),
                blue: Single::from_bits(CLEAR_BLUE_BITS),
                alpha: Single::one(),
            },
        },
    );
    proof {
        assert(commands@ =~= spec_frame_start(
            old(pipelines)@[PIPELINE_ID].spec_state(),
            old(render_target)@,
        ));
    }

    match pipeline.write_camera_data(camera) {
        Some(buffer) => {
            commands.push(Command::WriteConstantBuffer { buffer });
        },
        None => {},
    }
    let mut recorded = pipeline.populate_command_list();
    commands.append(&mut recorded);

    push_barrier(&mut commands, &mut back_buffer, ResourceState::Present);
    commands.push(Command::Close);
    commands.push(Command::ExecuteCommandList);
    commands.push(Command::Present { sync_interval: SYNC_INTERVAL, flags: 0 });
    let fence: ObjectId = render_target.fence().fence();
    let value: u64 = render_target.signal_end_present();
    commands.push(Command::SignalFence { fence, value });
    proof {
        assert(commands@ =~= spec_frame(old(pipelines)@[PIPELINE_ID], old(render_target)@));
    }
    pipelines.insert(PIPELINE_ID, pipeline);
    proof {
        assert(pipelines@.dom() =~= old(pipelines)@.dom());
    }
    commands
}

/// In a frame the allocator is reset first and the fence is signalled last,
/// with the value the render target expected; the back buffer leaves
/// presentation before everything that draws and returns to it after; and
/// the command list is closed, then submitted, then presented.
pub proof fn lemma_frame_is_bracketed(pipeline: Pipeline, target: RenderTargetModel)
    ensures
        spec_frame(pipeline, target).len() == 12 + spec_camera_upload(
            pipeline.spec_camera_buffer(),
        ).len() + pipeline.spec_populate_command_list().len(),
        spec_frame(pipeline, target)[0] == Command::ResetCommandAllocator,
        spec_frame(pipeline, target)[4] == Command::ResourceBarrier(
            spec_transition_barrier(
                target.back_buffer(),
                ResourceState::Present,
                ResourceState::RenderTarget,
            ),
        ),
        spec_frame(pipeline, target)[spec_frame(pipeline, target).len() - 5]
            == Command::ResourceBarrier(
            spec_transition_barrier(
                target.back_buffer(),
                ResourceState::RenderTarget,
                ResourceState::Present,
            ),
        ),
        spec_frame(pipeline, target)[spec_frame(pipeline, target).len() - 4] == Command::Close,
        spec_frame(pipeline, target)[spec_frame(pipeline, target).len() - 3]
            == Command::ExecuteCommandList,
        spec_frame(pipeline, target)[spec_frame(pipeline, target).len() - 2] == (Command::Present {
            sync_interval: SYNC_INTERVAL,
            flags: 0,
        }),
        spec_frame(pipeline, target).last() == (Command::SignalFence {
            fence: target.fence.spec_fence(),
            value: target.fence.spec_expected_value(),
        }),
{
}

} // verus!
