//! Frame lifecycle core of a Direct3D 12 renderer: descriptor slots, fence
//! pacing, swapchain render targets, buffers and the per-frame command plan,
//! stated over plain values and verified.
//!
//! The crate makes no device call. It decides what is to be done and in which
//! order, and keeps the books; the caller holds the device objects, performs
//! the calls and reports what the device answered.

pub mod bytes;
pub mod scene;
pub mod gltf;
pub mod gpu_types;
pub mod render;
pub mod single;
pub mod text;
