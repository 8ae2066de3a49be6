//! The commands of a frame.
//!
//! What is recorded into a command list, submitted and presented is
//! described as a list of commands. The list is data: the caller goes through
//! it in order and makes the device call each command stands for.

use crate::render::descriptor_heap::{CpuDescriptorHandle, GpuDescriptorHandle, ObjectId};
use crate::render::render_target::{Rect, Viewport};
use crate::render::resource::{ResourceState, TrackedResource, TransitionBarrier};
use crate::single::Single;
use vstd::prelude::*;

verus! {

/// Primitives are triangles, three vertices each.
pub const PRIMITIVE_TOPOLOGY_TRIANGLELIST: i32 = 4;

/// Where the input assembler reads vertices from.
#[derive(Clone, Copy, Debug, PartialEq, Eq, Structural)]
pub struct VertexBufferView {
    pub buffer_location: u64,
    pub size_in_bytes: u32,
    pub stride_in_bytes: u32,
}

/// A colour with its opacity.
#[derive(Clone, Copy, Debug, PartialEq, Eq, Structural)]
pub struct Color {
    pub red: Single,
    pub green: Single,
    pub blue: Single,
    pub alpha: Single,
}

/// One step of a frame.
#[derive(Clone, Copy, Debug, PartialEq, Eq, Structural)]
pub enum Command {
    /// Reset the command allocator; the frame before must have left the GPU.
    ResetCommandAllocator,
    /// Reset the command list on the allocator, with `pipeline_state` bound.
    ResetCommandList { pipeline_state: ObjectId },
    /// Set the viewport.
    SetViewport(Viewport),
    /// Set the scissor rectangle.
    SetScissorRect(Rect),
    /// Record a transition barrier.
    ResourceBarrier(TransitionBarrier),
    /// Bind one render-target view, without depth buffer.
    SetRenderTarget { view: CpuDescriptorHandle },
    /// Clear the whole render-target view to `color`.
    ClearRenderTarget { view: CpuDescriptorHandle, color: Color },
    /// Copy the CPU-side bytes of the constant buffer into its mapping.
    WriteConstantBuffer { buffer: ObjectId },
    /// Bind the pipeline state.
    SetPipelineState { pipeline_state: ObjectId },
    /// Bind one descriptor heap.
    SetDescriptorHeap { heap: ObjectId },
    /// Bind the root signature.
    SetGraphicsRootSignature { root_signature: ObjectId },
    /// Copy the whole of `source` to `destination`.
    CopyResource { destination: ObjectId, source: ObjectId },
    /// Bind the constant buffer at `address` to root parameter `parameter`.
    SetGraphicsRootConstantBufferView { parameter: u32, address: u64 },
    /// Bind the descriptor table at `base` to root parameter `parameter`.
    SetGraphicsRootDescriptorTable { parameter: u32, base: GpuDescriptorHandle },
    /// Set the primitive topology.
    SetPrimitiveTopology { topology: i32 },
    /// Bind one vertex buffer to input slot `slot`.
    SetVertexBuffer { slot: u32, vertices: VertexBufferView },
    /// Draw.
    DrawInstanced {
        vertex_count: u32,
        instance_count: u32,
        start_vertex: u32,
        start_instance: u32,
    },
    /// Close the command list.
    Close,
    /// Submit the command list to the queue.
    ExecuteCommandList,
    /// Present the back buffer.
    Present { sync_interval: u32, flags: u32 },
    /// Signal `value` on the render target's fence from the queue.
    SignalFence { fence: ObjectId, value: u64 },
}

/// Puts `resource` in `state` and appends the barrier this takes, if any.
pub fn push_barrier(
    commands: &mut Vec<Command>,
    resource: &mut TrackedResource,
    state: ResourceState,
)
    ensures
        *final(resource) == old(resource).spec_transition_to(state).0,
        final(commands)@ == match old(resource).spec_transition_to(state).1 {
            Some(barrier) => old(commands)@.push(Command::ResourceBarrier(barrier)),
            None => old(commands)@,
        },
{
    match resource.transition_to(state) {
        Some(barrier) => {
            commands.push(Command::ResourceBarrier(barrier));
        },
        None => {},
    }
}

} // verus!
