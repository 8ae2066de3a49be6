//! The geometry of all meshes of a scene, gathered into one list of
//! positions and one list of indices.

pub mod mesh_buffer;
pub mod mesh_list;

pub use mesh_buffer::MeshBuffer;
pub use mesh_list::{build_mesh_data, MeshData};
