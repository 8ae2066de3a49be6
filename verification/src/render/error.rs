//! What can go wrong on the device, and how it is classed.
//!
//! Every failure ends the program: the renderer has no way back from a
//! device that refuses a call. The classes say where the failure arose, for
//! the message with which the program ends.

use vstd::prelude::*;

verus! {

/// A device call whose failure is classed.
#[derive(Clone, Copy, Debug, PartialEq, Eq, Structural)]
pub enum DeviceCall {
    /// The creation of a buffer.
    CreateBuffer,
    /// The creation of a descriptor heap.
    CreateDescriptorHeap,
    /// The creation of a root signature.
    CreateRootSignature,
    /// The creation of a pipeline state.
    CreatePipelineState,
    /// The presentation of a back buffer.
    Present,
    /// The resizing of a swapchain's buffers.
    ResizeBuffers,
}

/// Why the renderer had to give up in the middle of its work. Failures of
/// the initialization and of the shader compiler have error types of their
/// own.
#[derive(Clone, Copy, Debug, PartialEq, Eq, Structural)]
pub enum RenderError {
    /// A buffer, heap, root signature or pipeline state could not be
    /// created.
    ResourceCreation { call: DeviceCall, code: i32 },
    /// A back buffer could not be presented or resized.
    Presentation { call: DeviceCall, code: i32 },
}

impl DeviceCall {
    /// Whether the call presents or resizes a swapchain, rather than
    /// creating a resource.
    pub open spec fn spec_presents(self) -> bool {
        self == DeviceCall::Present || self == DeviceCall::ResizeBuffers
    }
}

impl RenderError {
    /// Whether the program cannot go on after the error: it never can.
    pub fn is_fatal(&self) -> (fatal: bool)
        ensures
            fatal,
    {
        true
    }
}

/// Judges the result code of `call`: a negative code is a failure, of
/// presentation for `Present` and `ResizeBuffers` and of resource creation
/// for the other calls.
pub fn check_call(call: DeviceCall, code: i32) -> (checked: Result<(), RenderError>)
    ensures
        code >= 0 ==> checked == Ok::<(), RenderError>(()),
        code < 0 && call.spec_presents() ==> checked == Err::<(), RenderError>(
            RenderError::Presentation { call, code },
        ),
        code < 0 && !call.spec_presents() ==> checked == Err::<(), RenderError>(
            RenderError::ResourceCreation { call, code },
        ),
{
    if code >= 0 {
        return Ok(());
    }
    match call {
        DeviceCall::Present | DeviceCall::ResizeBuffers => Err(
            RenderError::Presentation { call, code },
        ),
        _ => Err(RenderError::ResourceCreation { call, code }),
    }
}

} // verus!
