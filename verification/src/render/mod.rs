//! The renderer's frame lifecycle: descriptor slots, fence pacing, swapchain
//! render targets, buffers and the per-frame command plan.

pub mod buffer;
pub mod command;
pub mod constant_buffer;
pub mod descriptor_heap;
pub mod drawer;
pub mod error;
pub mod fence;
pub mod gpu;
pub mod mesh_data;
pub mod pipelines;
pub mod render_target;
pub mod resource;
pub mod slots;

pub use constant_buffer::ConstantBuffer;
pub use descriptor_heap::DescriptorHeap;
pub use drawer::{draw, Drawer};
pub use gpu::Gpu;
pub use mesh_data::{MeshBuffer, MeshData};
pub use render_target::{switch_frame, WindowRenderTarget, FRAME_COUNT};
