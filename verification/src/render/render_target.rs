//! The render target of a window: its swapchain, back buffers and frame
//! index, and what has to happen when a frame ends or the window changes
//! size.
//!
//! A target is created for a window that has none (`Uninitialized`), becomes
//! `Active` when the swapchain's back buffers are attached, and passes
//! through `Resizing` whenever the window's size no longer matches the
//! swapchain: the back buffers are released, the swapchain resizes them, and
//! the new ones are attached to the same view slots.

use crate::render::descriptor_heap::{CpuDescriptorHandle, DescriptorHeap, HeapError, ObjectId};
use crate::render::fence::{FenceWait, FrameFence};
use crate::render::slots::{
    slots_clear,
    slots_get,
    slots_len,
    slots_new,
    slots_push,
    slots_set,
    slots_view,
    FrameSlots,
};
use crate::single::{Single, ONE_BITS, ZERO_BITS};
use vstd::prelude::*;

verus! {

/// Number of back buffers a swapchain rotates through.
pub const FRAME_COUNT: usize = 2;

/// Texel format of the back buffers: four 8-bit channels, unsigned
/// normalized.
pub const FORMAT_R8G8B8A8_UNORM: i32 = 28;

/// Back buffers are used as render-target output.
pub const USAGE_RENDER_TARGET_OUTPUT: u32 = 32;

/// Back buffers are stretched to the window.
pub const SCALING_STRETCH: i32 = 0;

/// Flip presentation that discards the presented buffer's contents.
pub const SWAP_EFFECT_FLIP_DISCARD: i32 = 4;

/// The alpha channel is ignored when the window is composed.
pub const ALPHA_MODE_IGNORE: i32 = 3;

/// The swapchain offers a waitable object for frame latency.
pub const SWAP_CHAIN_FLAG_FRAME_LATENCY_WAITABLE_OBJECT: u32 = 64;

/// Size of a window: in logical units, as the window system counts, and in
/// physical pixels.
#[derive(Clone, Copy, Debug, PartialEq, Eq, Structural)]
pub struct WindowExtent {
    pub width: Single,
    pub height: Single,
    pub physical_width: u32,
    pub physical_height: u32,
}

/// Description of a swapchain, field for field as the device takes and
/// reports it.
#[derive(Clone, Copy, Debug, PartialEq, Eq, Structural)]
pub struct SwapchainDesc {
    pub width: u32,
    pub height: u32,
    pub format: i32,
    pub stereo: bool,
    pub sample_count: u32,
    pub sample_quality: u32,
    pub buffer_usage: u32,
    pub buffer_count: u32,
    pub scaling: i32,
    pub swap_effect: i32,
    pub alpha_mode: i32,
    pub flags: u32,
}

/// The part of the render target that is drawn to, with its depth range.
#[derive(Clone, Copy, Debug, PartialEq, Eq, Structural)]
pub struct Viewport {
    pub top_left_x: Single,
    pub top_left_y: Single,
    pub width: Single,
    pub height: Single,
    pub min_depth: Single,
    pub max_depth: Single,
}

/// A rectangle in whole pixels.
#[derive(Clone, Copy, Debug, PartialEq, Eq, Structural)]
pub struct Rect {
    pub left: i32,
    pub top: i32,
    pub right: i32,
    pub bottom: i32,
}

/// Where a window's render target stands in its life.
#[derive(Clone, Copy, Debug, PartialEq, Eq, Structural)]
pub enum TargetState {
    /// Created, but no back buffer is attached yet.
    Uninitialized,
    /// All back buffers are attached; frames can be drawn.
    Active,
    /// The back buffers were released for a resize and the new ones are not
    /// attached yet.
    Resizing,
}

/// The arguments of the swapchain's resize operation.
#[derive(Clone, Copy, Debug, PartialEq, Eq, Structural)]
pub struct ResizeBuffers {
    pub buffer_count: u32,
    pub width: u32,
    pub height: u32,
    pub format: i32,
    pub flags: u32,
}

/// A back buffer and the slot its render-target view is created in.
#[derive(Clone, Copy, Debug, PartialEq, Eq, Structural)]
pub struct BackBufferView {
    pub resource: ObjectId,
    pub handle: CpuDescriptorHandle,
}

/// One thing the caller has to do at the end of a frame, in the order given.
#[derive(Clone, Copy, Debug, PartialEq, Eq, Structural)]
pub enum FrameStep {
    /// Block until the fence has reached `value`.
    WaitForFence { value: u64 },
    /// Drop the references to the back buffers.
    ReleaseBackBuffers,
    /// Have the swapchain resize its buffers.
    ResizeBuffers(ResizeBuffers),
    /// Fetch the swapchain's buffers and attach them with `create_rtvs`.
    AcquireBackBuffers,
    /// Tell whoever depends on the window's size that it is now this.
    AnnounceResize { width: Single, height: Single },
    /// Read the swapchain's current back-buffer index and report it with
    /// `update_frame_index`.
    UpdateFrameIndex,
}

/// Why a render target could not be created or updated.
#[derive(Clone, Copy, Debug, PartialEq, Eq, Structural)]
pub enum RenderTargetError {
    /// The swapchain reported a back-buffer index that it has no buffer for.
    FrameIndexOutOfRange,
    /// The view heap has fewer free slots than there are back buffers.
    CapacityExceeded,
}

/// The render target of one window.
pub struct WindowRenderTarget {
    swapchain: ObjectId,
    rtvs: FrameSlots,
    rtv_handles: FrameSlots,
    swapchain_buffer_index: u32,
    fence: FrameFence,
    viewport: Viewport,
    rect: Rect,
    desc: SwapchainDesc,
    state: TargetState,
    in_flight: bool,
}

/// What a render target is, as plain values.
pub struct RenderTargetModel {
    /// Identity of the swapchain.
    pub swapchain: ObjectId,
    /// The attached back buffers, by swapchain index.
    pub rtvs: Seq<ObjectId>,
    /// The CPU addresses of the back buffers' view slots, by swapchain index.
    pub rtv_handles: Seq<usize>,
    /// Index of the back buffer that is drawn to next.
    pub frame_index: u32,
    /// The fence that paces the frames of this window.
    pub fence: FrameFence,
    pub viewport: Viewport,
    /// The scissor rectangle.
    pub rect: Rect,
    /// The description the swapchain was created with or last resized to.
    pub desc: SwapchainDesc,
    pub state: TargetState,
    /// Whether a frame has been submitted whose end has not been awaited
    /// since.
    pub in_flight: bool,
}

/// The swapchain description for a window of the given physical size: two
/// back buffers of four 8-bit channels, not multisampled, used as render
/// targets, presented by flip and discard, alpha ignored, with a waitable
/// object for frame latency.
pub open spec fn spec_create_swapchain_desc(window: WindowExtent) -> SwapchainDesc {
    SwapchainDesc {
        width: window.physical_width,
        height: window.physical_height,
        format: FORMAT_R8G8B8A8_UNORM,
        stereo: false,
        sample_count: 1,
        sample_quality: 0,
        buffer_usage: USAGE_RENDER_TARGET_OUTPUT,
        buffer_count: FRAME_COUNT as u32,
        scaling: SCALING_STRETCH,
        swap_effect: SWAP_EFFECT_FLIP_DISCARD,
        alpha_mode: ALPHA_MODE_IGNORE,
        flags: SWAP_CHAIN_FLAG_FRAME_LATENCY_WAITABLE_OBJECT,
    }
}

/// The viewport that covers `width` by `height` from the origin, with depths
/// from 0 to 1.
pub open spec fn spec_create_viewport(width: Single, height: Single) -> Viewport {
    Viewport {
        top_left_x: Single { bits: ZERO_BITS },
        top_left_y: Single { bits: ZERO_BITS },
        width,
        height,
        min_depth: Single { bits: ZERO_BITS },
        max_depth: Single { bits: ONE_BITS },
    }
}

/// The rectangle from the origin to (`width`, `height`).
pub open spec fn spec_create_rect(width: i32, height: i32) -> Rect {
    Rect { left: 0, top: 0, right: width, bottom: height }
}

/// The arguments with which a swapchain is resized to `desc`.
pub open spec fn spec_resize_buffers(desc: SwapchainDesc) -> ResizeBuffers {
    ResizeBuffers {
        buffer_count: desc.buffer_count,
        width: desc.width,
        height: desc.height,
        format: desc.format,
        flags: desc.flags,
    }
}

/// The back-buffer index a flip swapchain reports after one more
/// presentation: the next one, starting over after the last.
pub open spec fn spec_next_frame_index(index: u32) -> u32 {
    if index + 1 < FRAME_COUNT {
        (index + 1) as u32
    } else {
        0
    }
}

/// The back-buffer index after `presents` presentations, starting at
/// `start`.
pub open spec fn spec_frame_index_after(start: u32, presents: nat) -> u32
    decreases presents,
{
    if presents == 0 {
        start
    } else {
        spec_next_frame_index(spec_frame_index_after(start, (presents - 1) as nat))
    }
}

impl RenderTargetModel {
    /// The invariant of a render target: every back buffer has a view slot,
    /// the frame index names a back buffer, and the back buffers are all
    /// attached when the target is `Active` and all released otherwise.
    pub open spec fn wf(self) -> bool {
        &&& self.rtv_handles.len() == FRAME_COUNT
        &&& self.frame_index < FRAME_COUNT
        &&& self.state == TargetState::Active ==> self.rtvs.len() == FRAME_COUNT
        &&& self.state != TargetState::Active ==> self.rtvs.len() == 0
    }

    /// The back buffer that is drawn to next.
    pub open spec fn back_buffer(self) -> ObjectId
        recommends
            self.wf(),
            self.state == TargetState::Active,
    {
        self.rtvs[self.frame_index as int]
    }

    /// The view slot of the back buffer that is drawn to next.
    pub open spec fn back_buffer_handle(self) -> CpuDescriptorHandle
        recommends
            self.wf(),
    {
        CpuDescriptorHandle { ptr: self.rtv_handles[self.frame_index as int] }
    }

    /// The target after `buffers` have been attached.
    pub open spec fn create_rtvs(self, buffers: Seq<ObjectId>) -> RenderTargetModel {
        RenderTargetModel { rtvs: buffers, state: TargetState::Active, ..self }
    }

    /// Each back buffer with its view slot, by swapchain index.
    pub open spec fn back_buffer_views(self) -> Seq<BackBufferView> {
        Seq::new(
            FRAME_COUNT as nat,
            |i: int|
                BackBufferView {
                    resource: self.rtvs[i],
                    handle: CpuDescriptorHandle { ptr: self.rtv_handles[i] },
                },
        )
    }

    /// The target after its back buffers have been released.
    pub open spec fn destroy_resources(self) -> RenderTargetModel {
        RenderTargetModel { rtvs: Seq::empty(), state: TargetState::Resizing, ..self }
    }

    /// The target after a resize to `desc` has been begun for a window of
    /// `width` by `height`.
    pub open spec fn handle_resize(
        self,
        desc: SwapchainDesc,
        width: Single,
        height: Single,
    ) -> RenderTargetModel {
        RenderTargetModel {
            rtvs: Seq::empty(),
            state: TargetState::Resizing,
            desc,
            viewport: spec_create_viewport(width, height),
            rect: spec_create_rect(width.truncated() as i32, height.truncated() as i32),
            ..self
        }
    }

    /// What `update_frame_index` does: the target afterwards, and what it
    /// returns.
    pub open spec fn update_frame_index(self, reported: u32) -> (
        RenderTargetModel,
        Result<(), RenderTargetError>,
    ) {
        if reported < FRAME_COUNT {
            (RenderTargetModel { frame_index: reported, ..self }, Ok(()))
        } else {
            (self, Err(RenderTargetError::FrameIndexOutOfRange))
        }
    }

    /// The target after one more frame has been signalled on its fence.
    pub open spec fn signal_end_present(self) -> RenderTargetModel {
        RenderTargetModel { fence: self.fence.spec_signaled(), in_flight: true, ..self }
    }

    /// The target after the end of the frame submitted last has been
    /// awaited.
    pub open spec fn frame_awaited(self) -> RenderTargetModel {
        RenderTargetModel { in_flight: false, ..self }
    }

    /// Whether the swapchain no longer fits `window`.
    pub open spec fn needs_resize(self, window: WindowExtent) -> bool {
        spec_create_swapchain_desc(window) != self.desc
    }

    /// The target after `switch_frame` for `window`.
    pub open spec fn switch_frame(self, window: WindowExtent) -> RenderTargetModel {
        if self.needs_resize(window) {
            self.frame_awaited().handle_resize(
                spec_create_swapchain_desc(window),
                window.width,
                window.height,
            )
        } else {
            self.frame_awaited()
        }
    }

    /// The steps `switch_frame` asks for when the device reports
    /// `completed`: the wait for the previous frame if it is still in flight;
    /// then, if the swapchain no longer fits the window, release, resize,
    /// acquire and announce; and at last the update of the frame index.
    pub open spec fn switch_steps(self, window: WindowExtent, completed: u64) -> Seq<FrameStep> {
        let wait = match self.fence.spec_wait(completed) {
            FenceWait::Block { value } => seq![FrameStep::WaitForFence { value }],
            FenceWait::Ready => Seq::<FrameStep>::empty(),
        };
        let resize = if self.needs_resize(window) {
            seq![
                FrameStep::ReleaseBackBuffers,
                FrameStep::ResizeBuffers(spec_resize_buffers(spec_create_swapchain_desc(window))),
                FrameStep::AcquireBackBuffers,
                FrameStep::AnnounceResize { width: window.width, height: window.height },
            ]
        } else {
            Seq::<FrameStep>::empty()
        };
        wait + resize + seq![FrameStep::UpdateFrameIndex]
    }

    /// The target after a resize for `window` has been begun.
    pub open spec fn resize_to(self, window: WindowExtent) -> RenderTargetModel {
        self.handle_resize(spec_create_swapchain_desc(window), window.width, window.height)
    }

    /// The target after a resize has been begun for each of `windows` in
    /// turn.
    pub open spec fn after_resizes(self, windows: Seq<WindowExtent>) -> RenderTargetModel
        decreases windows.len(),
    {
        if windows.len() == 0 {
            self
        } else {
            self.after_resizes(windows.drop_last()).resize_to(windows.last())
        }
    }

    /// The target after one frame has been presented and signalled and the
    /// swapchain has moved on to its next back buffer.
    pub open spec fn presented(self) -> RenderTargetModel {
        self.signal_end_present().frame_awaited().update_frame_index(
            spec_next_frame_index(self.frame_index),
        ).0
    }

    /// The target after `frames` frames have been presented.
    pub open spec fn after_frames(self, frames: nat) -> RenderTargetModel
        decreases frames,
    {
        if frames == 0 {
            self
        } else {
            self.after_frames((frames - 1) as nat).presented()
        }
    }
}

impl View for WindowRenderTarget {
    type V = RenderTargetModel;

    closed spec fn view(&self) -> RenderTargetModel {
        RenderTargetModel {
            swapchain: self.swapchain,
            rtvs: slots_view(self.rtvs),
            rtv_handles: slots_view(self.rtv_handles),
            frame_index: self.swapchain_buffer_index,
            fence: self.fence,
            viewport: self.viewport,
            rect: self.rect,
            desc: self.desc,
            state: self.state,
            in_flight: self.in_flight,
        }
    }
}

/// Builds the swapchain description for `window`.
pub fn create_swapchain_desc(window: &WindowExtent) -> (desc: SwapchainDesc)
    ensures
        desc == spec_create_swapchain_desc(*window),
{
    SwapchainDesc {
        width: window.physical_width,
        height: window.physical_height,
        format: FORMAT_R8G8B8A8_UNORM,
        stereo: false,
        sample_count: 1,
        sample_quality: 0,
        buffer_usage: USAGE_RENDER_TARGET_OUTPUT,
        buffer_count: FRAME_COUNT as u32,
        scaling: SCALING_STRETCH,
        swap_effect: SWAP_EFFECT_FLIP_DISCARD,
        alpha_mode: ALPHA_MODE_IGNORE,
        flags: SWAP_CHAIN_FLAG_FRAME_LATENCY_WAITABLE_OBJECT,
    }
}

/// Builds the viewport that covers `width` by `height`.
pub fn create_viewport(width: Single, height: Single) -> (viewport: Viewport)
    ensures
        viewport == spec_create_viewport(width, height),
{
    Viewport {
        top_left_x: Single::zero(),
        top_left_y: Single::zero(),
        width,
        height,
        min_depth: Single::zero(),
        max_depth: Single::one(),
    }
}

/// Builds the rectangle from the origin to (`width`, `height`).
pub fn create_rect(width: i32, height: i32) -> (rect: Rect)
    ensures
        rect == spec_create_rect(width, height),
{
    Rect { left: 0, top: 0, right: width, bottom: height }
}

/// The back-buffer index a flip swapchain reports after one more
/// presentation.
pub fn next_frame_index(index: u32) -> (next: u32)
    requires
        index < FRAME_COUNT,
    ensures
        next == spec_next_frame_index(index),
        next < FRAME_COUNT,
{
    if index + 1 < FRAME_COUNT as u32 {
        index + 1
    } else {
        0
    }
}

impl WindowRenderTarget {
    /// Creates the render target of `window` around the swapchain that the
    /// device created from `create_swapchain_desc(window)` and that reports
    /// `frame_index` as its current back buffer, with a fence that the device
    /// created with the value 0 and the event to block on. One view slot per
    /// back buffer is taken from `rtv_heap`. Nothing has been signalled on
    /// the fence and no frame is in flight. The target is `Uninitialized`
    /// until the back buffers are attached with `create_rtvs`.
    ///
    /// Fails with `FrameIndexOutOfRange` when `frame_index` names no back
    /// buffer, else with `CapacityExceeded` when the heap has fewer than
    /// `FRAME_COUNT` free slots. The heap is then as it was.
    pub fn new(
        window: &WindowExtent,
        swapchain: ObjectId,
        frame_index: u32,
        fence: ObjectId,
        fence_event: usize,
        rtv_heap: &mut DescriptorHeap,
    ) -> (created: Result<Self, RenderTargetError>)
        requires
            old(rtv_heap).wf(),
        ensures
            final(rtv_heap).wf(),
            frame_index >= FRAME_COUNT ==> created is Err && created->Err_0
                == RenderTargetError::FrameIndexOutOfRange,
            frame_index < FRAME_COUNT && old(rtv_heap).spec_allocated() + FRAME_COUNT > old(
                rtv_heap,
            ).spec_capacity() ==> created is Err && created->Err_0
                == RenderTargetError::CapacityExceeded,
            created is Err ==> *final(rtv_heap) == *old(rtv_heap),
            final(rtv_heap).spec_capacity() == old(rtv_heap).spec_capacity(),
            final(rtv_heap).spec_stride() == old(rtv_heap).spec_stride(),
            final(rtv_heap).spec_start() == old(rtv_heap).spec_start(),
            final(rtv_heap).spec_heap() == old(rtv_heap).spec_heap(),
            frame_index < FRAME_COUNT && old(rtv_heap).spec_allocated() + FRAME_COUNT <= old(
                rtv_heap,
            ).spec_capacity() ==> {
                &&& created is Ok
                &&& created->Ok_0@.wf()
                &&& created->Ok_0@.fence.spec_expected_value() == 0
                &&& created->Ok_0@.fence.spec_fence() == fence
                &&& created->Ok_0@.fence.spec_event() == fence_event
                &&& created->Ok_0@.swapchain == swapchain
                &&& created->Ok_0@.rtvs == Seq::<ObjectId>::empty()
                &&& created->Ok_0@.rtv_handles == seq![
                    old(rtv_heap).spec_slot(old(rtv_heap).spec_allocated()) as usize,
                    old(rtv_heap).spec_slot(old(rtv_heap).spec_allocated() + 1) as usize,
                ]
                &&& created->Ok_0@.frame_index == frame_index
                &&& created->Ok_0@.viewport == spec_create_viewport(window.width, window.height)
                &&& created->Ok_0@.rect == spec_create_rect(
                    window.width.truncated() as i32,
                    window.height.truncated() as i32,
                )
                &&& created->Ok_0@.desc == spec_create_swapchain_desc(*window)
                &&& created->Ok_0@.state == TargetState::Uninitialized
                &&& !created->Ok_0@.in_flight
                &&& *final(rtv_heap) == old(rtv_heap).spec_after(FRAME_COUNT as nat)
                &&& final(rtv_heap).spec_allocated() == old(rtv_heap).spec_allocated()
                    + FRAME_COUNT
            },
    {
        if frame_index >= FRAME_COUNT as u32 {
            return Err(RenderTargetError::FrameIndexOutOfRange);
        }
        if rtv_heap.remaining() < FRAME_COUNT {
            return Err(RenderTargetError::CapacityExceeded);
        }
        let desc = create_swapchain_desc(window);
        let viewport = create_viewport(window.width, window.height);
        let rect = create_rect(window.width.to_i32(), window.height.to_i32());
        let rtv_handles = create_descriptors(rtv_heap);
        let fence = FrameFence::new(fence, fence_event);
        let created = WindowRenderTarget {
            swapchain,
            rtvs: slots_new(),
            rtv_handles,
            swapchain_buffer_index: frame_index,
            fence,
            viewport,
            rect,
            desc,
            state: TargetState::Uninitialized,
            in_flight: false,
        };
        proof {
            assert(created@.rtv_handles =~= seq![
                old(rtv_heap).spec_slot(old(rtv_heap).spec_allocated()) as usize,
                old(rtv_heap).spec_slot(old(rtv_heap).spec_allocated() + 1) as usize,
            ]);
        }
        Ok(created)
    }

    /// Whether all back buffers are attached.
    pub fn is_active(&self) -> (active: bool)
        ensures
            active == (self@.state == TargetState::Active),
    {
        self.state == TargetState::Active
    }

    /// Where the target stands in its life.
    pub fn state(&self) -> (state: TargetState)
        ensures
            state == self@.state,
    {
        self.state
    }

    /// Identity of the swapchain.
    pub fn swapchain(&self) -> (swapchain: ObjectId)
        ensures
            swapchain == self@.swapchain,
    {
        self.swapchain
    }

    /// The viewport, which covers the window's logical size.
    pub fn viewport(&self) -> (viewport: Viewport)
        ensures
            viewport == self@.viewport,
    {
        self.viewport
    }

    /// The scissor rectangle, which covers the window's logical size in
    /// whole pixels.
    pub fn rect(&self) -> (rect: Rect)
        ensures
            rect == self@.rect,
    {
        self.rect
    }

    /// The description the swapchain was created with or last resized to.
    pub fn desc(&self) -> (desc: SwapchainDesc)
        ensures
            desc == self@.desc,
    {
        self.desc
    }

    /// Index of the back buffer that is drawn to next.
    pub fn frame_index(&self) -> (index: u32)
        ensures
            index == self@.frame_index,
    {
        self.swapchain_buffer_index
    }

    /// The fence that paces the frames of this window.
    pub fn fence(&self) -> (fence: FrameFence)
        ensures
            fence == self@.fence,
    {
        self.fence
    }

    /// Number of back buffers that are attached: all of them when the target
    /// is `Active`, none otherwise.
    pub fn back_buffer_count(&self) -> (count: usize)
        ensures
            count == self@.rtvs.len(),
    {
        slots_len(&self.rtvs)
    }

    /// The back buffer that is drawn to next. The target must be `Active`.
    pub fn back_buffer(&self) -> (buffer: ObjectId)
        requires
            self@.wf(),
            self@.state == TargetState::Active,
        ensures
            buffer == self@.back_buffer(),
    {
        slots_get(&self.rtvs, self.swapchain_buffer_index as usize)
    }

    /// The view slot of the back buffer that is drawn to next.
    pub fn back_buffer_handle(&self) -> (handle: CpuDescriptorHandle)
        requires
            self@.wf(),
        ensures
            handle == self@.back_buffer_handle(),
    {
        CpuDescriptorHandle {
            ptr: slots_get(&self.rtv_handles, self.swapchain_buffer_index as usize),
        }
    }

    /// Accounts for the frame that was just presented: returns the value to
    /// signal on the queue and expects the next value from then on.
    pub fn signal_end_present(&mut self) -> (value: u64)
        requires
            old(self)@.fence.spec_expected_value() < u64::MAX,
        ensures
            value == old(self)@.fence.spec_expected_value(),
            final(self)@ == old(self)@.signal_end_present(),
            final(self)@.fence.spec_expected_value() == old(self)@.fence.spec_expected_value()
                + 1,
            final(self)@.fence.spec_fence() == old(self)@.fence.spec_fence(),
            final(self)@.fence.spec_event() == old(self)@.fence.spec_event(),
    {
        self.in_flight = true;
        self.fence.signal_after_submit()
    }

    /// Takes over the back-buffer index that the swapchain reports after a
    /// presentation. An index that names no back buffer is refused with
    /// `FrameIndexOutOfRange` and the target stays as it was.
    pub fn update_frame_index(&mut self, reported: u32) -> (updated: Result<
        (),
        RenderTargetError,
    >)
        requires
            old(self)@.wf(),
        ensures
            (final(self)@, updated) == old(self)@.update_frame_index(reported),
            final(self)@.wf(),
            updated is Ok <==> reported < FRAME_COUNT,
    {
        if reported < FRAME_COUNT as u32 {
            self.swapchain_buffer_index = reported;
            Ok(())
        } else {
            Err(RenderTargetError::FrameIndexOutOfRange)
        }
    }

    /// Decides how to wait until the frame submitted last has left the GPU,
    /// and takes the frame as awaited: the caller blocks as the decision
    /// says before it goes on. At least one frame must have been signalled.
    pub fn wait_frame_finished(&mut self, completed: u64) -> (wait: FenceWait)
        requires
            old(self)@.fence.spec_expected_value() >= 1,
        ensures
            wait == old(self)@.fence.spec_wait(completed),
            final(self)@ == old(self)@.frame_awaited(),
    {
        self.in_flight = false;
        self.fence.wait_for_previous_frame(completed)
    }

    /// Whether a frame has been submitted whose end has not been awaited
    /// since.
    pub fn in_flight(&self) -> (in_flight: bool)
        ensures
            in_flight == self@.in_flight,
    {
        self.in_flight
    }

    /// Attaches the swapchain's buffers, given by swapchain index, and
    /// returns for each the view that has to be created in its slot. The
    /// slots stay the ones the target was created with. The target is
    /// `Active` afterwards.
    pub fn create_rtvs(&mut self, buffers: &[ObjectId; FRAME_COUNT]) -> (views: Vec<
        BackBufferView,
    >)
        requires
            old(self)@.wf(),
        ensures
            final(self)@ == old(self)@.create_rtvs(buffers@),
            final(self)@.wf(),
            views@ == final(self)@.back_buffer_views(),
    {
        let mut views: Vec<BackBufferView> = Vec::new();
        let ghost before = slots_view(self.rtvs);
        let mut i: usize = 0;
        while i < FRAME_COUNT
            invariant
                i <= FRAME_COUNT,
                before.len() == 0 || before.len() == FRAME_COUNT,
                slots_view(self.rtvs).len() == if before.len() == 0 {
                    i
                } else {
                    FRAME_COUNT
                },
                forall|j: int| 0 <= j < i ==> slots_view(self.rtvs)[j] == buffers@[j],
                slots_view(self.rtv_handles) == slots_view(old(self).rtv_handles),
                slots_view(self.rtv_handles).len() == FRAME_COUNT,
                self.swapchain == old(self).swapchain,
                self.swapchain_buffer_index == old(self).swapchain_buffer_index,
                self.fence == old(self).fence,
                self.viewport == old(self).viewport,
                self.rect == old(self).rect,
                self.desc == old(self).desc,
                self.state == old(self).state,
                self.in_flight == old(self).in_flight,
                views@.len() == i,
                forall|j: int|
                    0 <= j < i ==> views@[j] == (BackBufferView {
                        resource: buffers@[j],
                        handle: CpuDescriptorHandle { ptr: slots_view(self.rtv_handles)[j] },
                    }),
            decreases FRAME_COUNT - i,
        {
            let rtv: ObjectId = buffers[i];
            let handle = CpuDescriptorHandle { ptr: slots_get(&self.rtv_handles, i) };
            if slots_len(&self.rtvs) == i {
                slots_push(&mut self.rtvs, rtv);
            } else {
                slots_set(&mut self.rtvs, i, rtv);
            }
            views.push(BackBufferView { resource: rtv, handle });
            i = i + 1;
        }
        self.state = TargetState::Active;
        proof {
            assert(slots_view(self.rtvs) =~= buffers@);
            assert(views@ =~= self@.back_buffer_views());
        }
        views
    }

    /// Releases the back buffers. The target is `Resizing` afterwards. No
    /// frame may be in flight: the GPU must be done with the buffers.
    pub fn destroy_resources(&mut self)
        requires
            old(self)@.wf(),
            !old(self)@.in_flight,
        ensures
            final(self)@ == old(self)@.destroy_resources(),
            final(self)@.wf(),
    {
        slots_clear(&mut self.rtvs);
        self.state = TargetState::Resizing;
    }

    /// Begins a resize to `desc` for a window of logical size `width` by
    /// `height`: releases the back buffers, takes `desc` as the swapchain's
    /// description, and fits viewport and scissor rectangle to the logical
    /// size. Returns the arguments for the swapchain's resize operation. The
    /// target is `Resizing` until the new buffers are attached with
    /// `create_rtvs`. No frame may be in flight.
    pub fn handle_resize(&mut self, desc: SwapchainDesc, width: Single, height: Single) -> (resize:
        ResizeBuffers)
        requires
            old(self)@.wf(),
            !old(self)@.in_flight,
        ensures
            final(self)@ == old(self)@.handle_resize(desc, width, height),
            final(self)@.wf(),
            resize == spec_resize_buffers(desc),
            final(self)@.viewport.width == width,
            final(self)@.viewport.height == height,
            final(self)@.desc == desc,
    {
        self.destroy_resources();
        let resize = ResizeBuffers {
            buffer_count: desc.buffer_count,
            width: desc.width,
            height: desc.height,
            format: desc.format,
            flags: desc.flags,
        };
        self.desc = desc;
        self.viewport = create_viewport(width, height);
        self.rect = create_rect(width.to_i32(), height.to_i32());
        resize
    }
}

/// Takes one view slot per back buffer from `rtv_heap`, in swapchain order.
fn create_descriptors(rtv_heap: &mut DescriptorHeap) -> (handles: FrameSlots)
    requires
        old(rtv_heap).wf(),
        old(rtv_heap).spec_allocated() + FRAME_COUNT <= old(rtv_heap).spec_capacity(),
    ensures
        final(rtv_heap).wf(),
        *final(rtv_heap) == old(rtv_heap).spec_after(FRAME_COUNT as nat),
        final(rtv_heap).spec_allocated() == old(rtv_heap).spec_allocated() + FRAME_COUNT,
        final(rtv_heap).spec_capacity() == old(rtv_heap).spec_capacity(),
        final(rtv_heap).spec_stride() == old(rtv_heap).spec_stride(),
        final(rtv_heap).spec_start() == old(rtv_heap).spec_start(),
        final(rtv_heap).spec_heap() == old(rtv_heap).spec_heap(),
        slots_view(handles).len() == FRAME_COUNT,
        forall|j: int|
            0 <= j < FRAME_COUNT ==> slots_view(handles)[j] == old(rtv_heap).spec_slot(
                old(rtv_heap).spec_allocated() + j as nat,
            ) as usize,
{
    let mut handles = slots_new();
    let mut i: usize = 0;
    while i < FRAME_COUNT
        invariant
            i <= FRAME_COUNT,
            rtv_heap.wf(),
            *rtv_heap == old(rtv_heap).spec_after(i as nat),
            rtv_heap.spec_allocated() == old(rtv_heap).spec_allocated() + i,
            rtv_heap.spec_capacity() == old(rtv_heap).spec_capacity(),
            rtv_heap.spec_start() == old(rtv_heap).spec_start(),
            rtv_heap.spec_stride() == old(rtv_heap).spec_stride(),
            rtv_heap.spec_heap() == old(rtv_heap).spec_heap(),
            old(rtv_heap).spec_allocated() + FRAME_COUNT <= old(rtv_heap).spec_capacity(),
            slots_view(handles).len() == i,
            forall|j: int|
                0 <= j < i ==> slots_view(handles)[j] == old(rtv_heap).spec_slot(
                    old(rtv_heap).spec_allocated() + j as nat,
                ) as usize,
        decreases FRAME_COUNT - i,
    {
        let slot = rtv_heap.cpu_handle();
        match slot {
            Ok(handle) => {
                slots_push(&mut handles, handle.ptr);
            },
            Err(_) => {
                proof {
                    assert(false);
                }
            },
        }
        i = i + 1;
    }
    handles
}

/// Ends a frame of `render_target` for a window that is now `window` in
/// size, when the device reports `completed` as the fence's completed value.
/// Returns what the caller has to do, in order: wait for the previous frame
/// if it is still in flight; if the swapchain no longer fits the window,
/// release the back buffers, resize the swapchain, attach the new buffers and
/// announce the new size; and read the new frame index.
///
/// When a resize is due the target has already taken the new description,
/// viewport and scissor rectangle and is `Resizing`. At least one frame must
/// have been signalled.
pub fn switch_frame(
    render_target: &mut WindowRenderTarget,
    window: &WindowExtent,
    completed: u64,
) -> (steps: Vec<FrameStep>)
    requires
        old(render_target)@.wf(),
        old(render_target)@.fence.spec_expected_value() >= 1,
    ensures
        final(render_target)@ == old(render_target)@.switch_frame(*window),
        final(render_target)@.wf(),
        steps@ == old(render_target)@.switch_steps(*window, completed),
{
    let mut steps: Vec<FrameStep> = Vec::new();
    match render_target.wait_frame_finished(completed) {
        FenceWait::Block { value } => {
            steps.push(FrameStep::WaitForFence { value });
        },
        FenceWait::Ready => {},
    }
    let new_swapchain_desc = create_swapchain_desc(window);
    let old_swapchain_desc = render_target.desc();
    if new_swapchain_desc != old_swapchain_desc {
        let resize = render_target.handle_resize(new_swapchain_desc, window.width, window.height);
        steps.push(FrameStep::ReleaseBackBuffers);
        steps.push(FrameStep::ResizeBuffers(resize));
        steps.push(FrameStep::AcquireBackBuffers);
        steps.push(FrameStep::AnnounceResize { width: window.width, height: window.height });
    }
    steps.push(FrameStep::UpdateFrameIndex);
    proof {
        assert(steps@ =~= old(render_target)@.switch_steps(*window, completed));
    }
    steps
}

/// In the steps of `switch_frame`, the wait for the previous frame comes
/// before the swapchain is resized, and the back buffers are released before
/// and acquired after it.
pub proof fn lemma_wait_precedes_resize(
    target: RenderTargetModel,
    window: WindowExtent,
    completed: u64,
    i: int,
    j: int,
)
    requires
        0 <= i < target.switch_steps(window, completed).len(),
        0 <= j < target.switch_steps(window, completed).len(),
        target.switch_steps(window, completed)[j] is ResizeBuffers,
    ensures
        target.switch_steps(window, completed)[i] is WaitForFence ==> i < j,
        target.switch_steps(window, completed)[i] is ReleaseBackBuffers ==> i < j,
        target.switch_steps(window, completed)[i] is AcquireBackBuffers ==> j < i,
        target.switch_steps(window, completed)[i] is UpdateFrameIndex ==> j < i,
{
}

/// `switch_frame` asks for a resize exactly when the swapchain does not fit
/// the window, and for a wait exactly when the previous frame is in flight.
pub proof fn lemma_switch_steps_content(
    target: RenderTargetModel,
    window: WindowExtent,
    completed: u64,
)
    ensures
        target.needs_resize(window) <==> target.switch_steps(window, completed).contains(
            FrameStep::ResizeBuffers(spec_resize_buffers(spec_create_swapchain_desc(window))),
        ),
        target.fence.spec_wait(completed) is Block <==> target.switch_steps(
            window,
            completed,
        )[0] is WaitForFence,
        target.fence.spec_wait(completed) is Block ==> target.switch_steps(window, completed)[0]
            == (FrameStep::WaitForFence { value: target.fence.spec_wait(completed)->value }),
        target.switch_steps(window, completed).last() == FrameStep::UpdateFrameIndex,
{
    let steps = target.switch_steps(window, completed);
    let resize = FrameStep::ResizeBuffers(spec_resize_buffers(spec_create_swapchain_desc(window)));
    if target.needs_resize(window) {
        if target.fence.spec_wait(completed) is Block {
            assert(steps[2] == resize);
        } else {
            assert(steps[1] == resize);
        }
    }
    if target.fence.spec_wait(completed) is Block {
        let value = target.fence.spec_wait(completed)->value;
        assert(steps[0] == FrameStep::WaitForFence { value });
    }
}

/// A resize leaves viewport and scissor rectangle covering the window's
/// logical size and the swapchain described with the window's physical size;
/// and so, after any sequence of resizes, for the last window of the
/// sequence.
pub proof fn lemma_resize_tracks_window(target: RenderTargetModel, windows: Seq<WindowExtent>)
    requires
        target.wf(),
        windows.len() > 0,
    ensures
        target.after_resizes(windows).wf(),
        target.after_resizes(windows).viewport.width == windows.last().width,
        target.after_resizes(windows).viewport.height == windows.last().height,
        target.after_resizes(windows).viewport == spec_create_viewport(
            windows.last().width,
            windows.last().height,
        ),
        target.after_resizes(windows).rect == spec_create_rect(
            windows.last().width.truncated() as i32,
            windows.last().height.truncated() as i32,
        ),
        target.after_resizes(windows).desc == spec_create_swapchain_desc(windows.last()),
        target.after_resizes(windows).desc.width == windows.last().physical_width,
        target.after_resizes(windows).desc.height == windows.last().physical_height,
        target.after_resizes(windows).state == TargetState::Resizing,
        target.after_resizes(windows).rtv_handles == target.rtv_handles,
        target.after_resizes(windows).frame_index == target.frame_index,
        target.after_resizes(windows).fence == target.fence,
    decreases windows.len(),
{
    let earlier = windows.drop_last();
    assert(target.after_resizes(windows) == target.after_resizes(earlier).resize_to(
        windows.last(),
    ));
    if earlier.len() > 0 {
        lemma_resize_tracks_window(target, earlier);
    } else {
        assert(target.after_resizes(earlier) == target);
    }
}

/// After `switch_frame` no frame is in flight and the swapchain is described
/// as the window requires. If it was so before, nothing else changed; if not,
/// viewport and scissor rectangle now cover the window's logical size and
/// the back buffers are released.
pub proof fn lemma_switch_frame_fits_window(target: RenderTargetModel, window: WindowExtent)
    requires
        target.wf(),
    ensures
        target.switch_frame(window).wf(),
        target.switch_frame(window).desc == spec_create_swapchain_desc(window),
        !target.switch_frame(window).in_flight,
        !target.needs_resize(window) ==> target.switch_frame(window) == target.frame_awaited(),
        target.needs_resize(window) ==> target.switch_frame(window)
            == target.frame_awaited().resize_to(window),
        target.needs_resize(window) ==> target.switch_frame(window).viewport
            == spec_create_viewport(window.width, window.height),
        !target.switch_frame(window).needs_resize(window),
{
}

/// The frame that was just signalled is the one `switch_frame` waits for:
/// while the device is behind the signalled value, the first step blocks for
/// exactly that value; once the device has reached it, no step blocks. So the
/// allocator is not reset and no back buffer is released while the frame is
/// in flight.
pub proof fn lemma_signalled_frame_is_awaited(
    target: RenderTargetModel,
    window: WindowExtent,
    completed: u64,
)
    requires
        target.fence.spec_expected_value() < u64::MAX,
    ensures
        completed < target.fence.spec_expected_value()
            ==> target.signal_end_present().switch_steps(window, completed)[0]
            == (FrameStep::WaitForFence { value: target.fence.spec_expected_value() }),
        completed >= target.fence.spec_expected_value() ==> forall|i: int|
            0 <= i < target.signal_end_present().switch_steps(window, completed).len()
                ==> !(#[trigger] target.signal_end_present().switch_steps(
                window,
                completed,
            )[i] is WaitForFence),
{
    crate::render::fence::lemma_wait_follows_signal(target.fence, completed);
}

/// A flip swapchain goes through its back buffers in order and starts over
/// after the last: after `presents` presentations the index is the start
/// index plus `presents`, modulo `FRAME_COUNT`. It names a back buffer, it
/// differs from one presentation to the next, and it repeats with period
/// `FRAME_COUNT`.
pub proof fn lemma_frame_index_cycles(start: u32, presents: nat)
    requires
        start < FRAME_COUNT,
    ensures
        spec_frame_index_after(start, presents) < FRAME_COUNT,
        spec_frame_index_after(start, presents) == (start + presents) % (FRAME_COUNT as int),
        spec_frame_index_after(start, presents + 1) != spec_frame_index_after(start, presents),
        spec_frame_index_after(start, presents + FRAME_COUNT as nat) == spec_frame_index_after(
            start,
            presents,
        ),
    decreases presents,
{
    if presents > 0 {
        lemma_frame_index_cycles(start, (presents - 1) as nat);
    }
    assert(spec_frame_index_after(start, presents + 1) == spec_next_frame_index(
        spec_frame_index_after(start, presents),
    ));
    assert(spec_frame_index_after(start, presents + 2) == spec_next_frame_index(
        spec_frame_index_after(start, presents + 1),
    ));
}

/// A render target that is told the swapchain's index after every
/// presentation has, after `frames` frames, the frame index the swapchain has
/// rotated to, and has signalled one fence value per frame. Nothing else
/// about it changes.
pub proof fn lemma_target_follows_swapchain(target: RenderTargetModel, frames: nat)
    requires
        target.wf(),
        target.fence.spec_expected_value() + frames <= u64::MAX,
    ensures
        target.after_frames(frames).wf(),
        target.after_frames(frames).frame_index == spec_frame_index_after(
            target.frame_index,
            frames,
        ),
        target.after_frames(frames).frame_index == (target.frame_index + frames) % (
        FRAME_COUNT as int),
        target.after_frames(frames).fence.spec_expected_value()
            == target.fence.spec_expected_value() + frames,
        target.after_frames(frames).rtvs == target.rtvs,
        target.after_frames(frames).rtv_handles == target.rtv_handles,
        target.after_frames(frames).state == target.state,
        target.after_frames(frames).viewport == target.viewport,
        target.after_frames(frames).rect == target.rect,
        target.after_frames(frames).desc == target.desc,
        frames > 0 ==> !target.after_frames(frames).in_flight,
    decreases frames,
{
    lemma_frame_index_cycles(target.frame_index, frames);
    if frames > 0 {
        lemma_target_follows_swapchain(target, (frames - 1) as nat);
        lemma_frame_index_cycles(target.frame_index, (frames - 1) as nat);
        crate::render::fence::lemma_wait_follows_signal(
            target.after_frames((frames - 1) as nat).fence,
            0,
        );
    }
}

} // verus!
