//! Pacing of the CPU against the GPU with a fence.
//!
//! Every submitted frame signals the fence with the next value of a counter.
//! Before the resources of a frame are used again, the CPU waits until the
//! device reports the value of the frame before as completed. The device
//! calls are made by the caller; this module decides which value to signal
//! and whether, and for which value, to block.

use crate::render::descriptor_heap::ObjectId;
use vstd::prelude::*;

verus! {

/// A fence with the counter of the values signalled on it.
#[derive(Clone, Copy, Debug, PartialEq, Eq, Structural)]
pub struct FrameFence {
    fence: ObjectId,
    fence_value: u64,
    fence_event: usize,
}

/// What the CPU has to do before it may go on.
#[derive(Clone, Copy, Debug, PartialEq, Eq, Structural)]
pub enum FenceWait {
    /// The awaited value is completed: go on at once.
    Ready,
    /// Arm the fence's event for `value` and block until it is set.
    Block { value: u64 },
}

impl FrameFence {
    /// The value the next submission will signal.
    pub closed spec fn spec_expected_value(self) -> u64 {
        self.fence_value
    }

    /// Identity of the device's fence object.
    pub closed spec fn spec_fence(self) -> ObjectId {
        self.fence
    }

    /// Handle of the event the CPU blocks on.
    pub closed spec fn spec_event(self) -> usize {
        self.fence_event
    }

    /// The fence after one submission has been signalled.
    pub closed spec fn spec_signaled(self) -> FrameFence {
        FrameFence { fence_value: (self.fence_value + 1) as u64, ..self }
    }

    /// The decision of `wait_for_previous_frame` when the device reports
    /// `completed`.
    pub open spec fn spec_wait(self, completed: u64) -> FenceWait {
        if completed < self.spec_expected_value() - 1 {
            FenceWait::Block { value: (self.spec_expected_value() - 1) as u64 }
        } else {
            FenceWait::Ready
        }
    }

    /// A fence on which nothing has been signalled: the device created
    /// `fence` with the value 0, and `fence_event` is the event to block on.
    pub fn new(fence: ObjectId, fence_event: usize) -> (created: Self)
        ensures
            created.spec_expected_value() == 0,
            created.spec_fence() == fence,
            created.spec_event() == fence_event,
    {
        FrameFence { fence, fence_value: 0, fence_event }
    }

    /// The value the next submission will signal.
    pub fn expected_value(&self) -> (value: u64)
        ensures
            value == self.spec_expected_value(),
    {
        self.fence_value
    }

    /// Identity of the device's fence object.
    pub fn fence(&self) -> (fence: ObjectId)
        ensures
            fence == self.spec_fence(),
    {
        self.fence
    }

    /// Handle of the event the CPU blocks on.
    pub fn event(&self) -> (event: usize)
        ensures
            event == self.spec_event(),
    {
        self.fence_event
    }

    /// Accounts for one submitted frame: returns the value to signal on the
    /// queue, which is the value expected before the call, and expects the
    /// next value from then on.
    pub fn signal_after_submit(&mut self) -> (value: u64)
        requires
            old(self).spec_expected_value() < u64::MAX,
        ensures
            value == old(self).spec_expected_value(),
            *final(self) == old(self).spec_signaled(),
            final(self).spec_expected_value() == old(self).spec_expected_value() + 1,
            final(self).spec_fence() == old(self).spec_fence(),
            final(self).spec_event() == old(self).spec_event(),
    {
        let value: u64 = self.fence_value;
        self.fence_value = self.fence_value + 1;
        value
    }

    /// Decides how to wait for the frame submitted last, whose value is one
    /// below the expected one: `Ready` when the device reports it as
    /// completed, else `Block` for that value. At least one frame must have
    /// been signalled.
    pub fn wait_for_previous_frame(&self, completed: u64) -> (wait: FenceWait)
        requires
            self.spec_expected_value() >= 1,
        ensures
            wait == self.spec_wait(completed),
            wait is Ready <==> completed >= self.spec_expected_value() - 1,
            wait is Block ==> wait->value == self.spec_expected_value() - 1,
    {
        let previous_fence_value: u64 = self.fence_value - 1;
        if completed < previous_fence_value {
            FenceWait::Block { value: previous_fence_value }
        } else {
            FenceWait::Ready
        }
    }
}

/// Waiting right after a signal awaits exactly the signalled value: the wait
/// blocks for that value while the device is behind it, and is `Ready` as
/// soon as the device reports it, or any later value, as completed.
pub proof fn lemma_wait_follows_signal(fence: FrameFence, completed: u64)
    requires
        fence.spec_expected_value() < u64::MAX,
    ensures
        fence.spec_signaled().spec_expected_value() == fence.spec_expected_value() + 1,
        fence.spec_signaled().spec_fence() == fence.spec_fence(),
        fence.spec_signaled().spec_event() == fence.spec_event(),
        completed >= fence.spec_expected_value() ==> fence.spec_signaled().spec_wait(completed)
            == FenceWait::Ready,
        completed < fence.spec_expected_value() ==> fence.spec_signaled().spec_wait(completed)
            == (FenceWait::Block { value: fence.spec_expected_value() }),
{
}

/// A wait that is `Ready` stays `Ready` however far the device gets: the
/// completed value only grows.
pub proof fn lemma_ready_is_stable(fence: FrameFence, completed: u64, later: u64)
    requires
        fence.spec_expected_value() >= 1,
        completed <= later,
        fence.spec_wait(completed) == FenceWait::Ready,
    ensures
        fence.spec_wait(later) == FenceWait::Ready,
{
}

} // verus!
