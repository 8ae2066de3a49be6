//! Usage states of GPU resources and the barriers between them.
//!
//! Before the GPU may use a resource in a new way, a transition barrier has
//! to name the old and the new usage. A `TrackedResource` remembers the
//! usage a resource was left in, so that each barrier is computed from it
//! rather than written out at the place of use.

use crate::render::descriptor_heap::ObjectId;
use vstd::prelude::*;

verus! {

/// The subresource index that stands for all subresources of a resource.
pub const ALL_SUBRESOURCES: u32 = 0xffff_ffff;

/// How the GPU uses a resource.
#[derive(Clone, Copy, Debug, PartialEq, Eq, Structural)]
pub enum ResourceState {
    /// No particular usage.
    Common,
    /// Target of a copy.
    CopyDest,
    /// Any read usage; the state upload memory is always in.
    GenericRead,
    /// Written as a render target.
    RenderTarget,
    /// Handed to the swapchain for presentation.
    Present,
}

/// The declaration that a resource changes from one usage to another.
#[derive(Clone, Copy, Debug, PartialEq, Eq, Structural)]
pub struct TransitionBarrier {
    pub resource: ObjectId,
    pub subresource: u32,
    pub state_before: ResourceState,
    pub state_after: ResourceState,
}

/// A resource together with the usage it was last put in.
#[derive(Clone, Copy, Debug, PartialEq, Eq, Structural)]
pub struct TrackedResource {
    pub resource: ObjectId,
    pub state: ResourceState,
}

impl ResourceState {
    /// The device's bit mask for the state.
    pub open spec fn spec_bits(self) -> i32 {
        match self {
            ResourceState::Common => 0i32,
            ResourceState::CopyDest => 0x400i32,
            ResourceState::GenericRead => 0xac3i32,
            ResourceState::RenderTarget => 0x4i32,
            ResourceState::Present => 0i32,
        }
    }

    /// The device's bit mask for the state. `Common` and `Present` share the
    /// mask 0.
    pub fn bits(self) -> (bits: i32)
        ensures
            bits == self.spec_bits(),
    {
        match self {
            ResourceState::Common => 0,
            ResourceState::CopyDest => 0x400,
            ResourceState::GenericRead => 0xac3,
            ResourceState::RenderTarget => 0x4,
            ResourceState::Present => 0,
        }
    }
}

/// The barrier that takes all subresources of `resource` from `state_before`
/// to `state_after`.
pub open spec fn spec_transition_barrier(
    resource: ObjectId,
    state_before: ResourceState,
    state_after: ResourceState,
) -> TransitionBarrier {
    TransitionBarrier { resource, subresource: ALL_SUBRESOURCES, state_before, state_after }
}

/// Builds the barrier that takes all subresources of `resource` from
/// `state_before` to `state_after`.
pub fn transition_barrier(
    resource: ObjectId,
    state_before: ResourceState,
    state_after: ResourceState,
) -> (barrier: TransitionBarrier)
    ensures
        barrier == spec_transition_barrier(resource, state_before, state_after),
{
    TransitionBarrier { resource, subresource: ALL_SUBRESOURCES, state_before, state_after }
}

impl TrackedResource {
    /// What `transition_to` does: the resource afterwards, and the barrier to
    /// record, if any.
    pub open spec fn spec_transition_to(self, new_state: ResourceState) -> (
        TrackedResource,
        Option<TransitionBarrier>,
    ) {
        if self.state == new_state {
            (self, None)
        } else {
            (
                TrackedResource { resource: self.resource, state: new_state },
                Some(spec_transition_barrier(self.resource, self.state, new_state)),
            )
        }
    }

    /// Starts tracking `resource`, which is in `state`.
    pub fn new(resource: ObjectId, state: ResourceState) -> (watched: Self)
        ensures
            watched == (TrackedResource { resource, state }),
    {
        TrackedResource { resource, state }
    }

    /// Puts the resource in `new_state`. Returns the barrier to record: from
    /// the state the resource was in to the new one, or none when it is in the
    /// new state already.
    pub fn transition_to(&mut self, new_state: ResourceState) -> (barrier: Option<
        TransitionBarrier,
    >)
        ensures
            (*final(self), barrier) == old(self).spec_transition_to(new_state),
            final(self).state == new_state,
            final(self).resource == old(self).resource,
            barrier is None <==> old(self).state == new_state,
    {
        if self.state == new_state {
            None
        } else {
            let barrier = transition_barrier(self.resource, self.state, new_state);
            self.state = new_state;
            Some(barrier)
        }
    }
}

/// A transition there and back leaves the resource in the state it started
/// in, and the two barriers mirror each other.
pub proof fn lemma_round_trip_restores_state(watched: TrackedResource, through: ResourceState)
    requires
        watched.state != through,
    ensures
        watched.spec_transition_to(through).0.spec_transition_to(watched.state).0 == watched,
        watched.spec_transition_to(through).1 == Some(
            spec_transition_barrier(watched.resource, watched.state, through),
        ),
        watched.spec_transition_to(through).0.spec_transition_to(watched.state).1 == Some(
            spec_transition_barrier(watched.resource, through, watched.state),
        ),
{
}

} // verus!
