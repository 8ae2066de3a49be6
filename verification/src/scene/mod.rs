//! What a scene is made of, before it reaches the GPU.

pub mod camera;
pub mod image;
pub mod mesh;
pub mod shader;
pub mod vertex_buffer;

pub use camera::Camera;
pub use image::Image;
pub use mesh::Mesh;
pub use shader::Shader;
pub use vertex_buffer::VertexBuffer;
