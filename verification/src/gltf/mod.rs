//! What is read from glTF files: how the assets of a file are labelled and
//! named, how its buffers are decoded, and in which order its nodes are
//! loaded.

pub mod label;
pub mod loader;
pub mod tree_iterator;

pub use label::GltfAssetLabel;
