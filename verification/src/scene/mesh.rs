//! Meshes as lists of positions, normals and indices.

use crate::single::Single;
use vstd::prelude::*;

verus! {

/// What kind of primitive the vertices of a mesh form.
#[derive(Clone, Copy, Debug, PartialEq, Eq, Structural)]
pub enum PrimitiveTopologyType {
    Undefined,
    Point,
    Line,
    Triangle,
    Patch,
}

/// A mesh: positions, and optionally normals and indices into the
/// positions.
pub struct Mesh {
    pub primitive_topology: PrimitiveTopologyType,
    pub positions: Vec<[Single; 3]>,
    pub normals: Option<Vec<[Single; 3]>>,
    pub indices: Option<Vec<u32>>,
}

impl PrimitiveTopologyType {
    /// The device's number for the topology type.
    pub open spec fn spec_code(self) -> i32 {
        match self {
            PrimitiveTopologyType::Undefined => 0i32,
            PrimitiveTopologyType::Point => 1i32,
            PrimitiveTopologyType::Line => 2i32,
            PrimitiveTopologyType::Triangle => 3i32,
            PrimitiveTopologyType::Patch => 4i32,
        }
    }

    /// The device's number for the topology type.
    pub fn code(self) -> (code: i32)
        ensures
            code == self.spec_code(),
    {
        match self {
            PrimitiveTopologyType::Undefined => 0,
            PrimitiveTopologyType::Point => 1,
            PrimitiveTopologyType::Line => 2,
            PrimitiveTopologyType::Triangle => 3,
            PrimitiveTopologyType::Patch => 4,
        }
    }
}

impl Mesh {
    /// A mesh of `primitive_topology` without positions, normals or indices.
    pub fn new(primitive_topology: PrimitiveTopologyType) -> (mesh: Self)
        ensures
            mesh.primitive_topology == primitive_topology,
            mesh.positions@ == Seq::<[Single; 3]>::empty(),
            mesh.normals is None,
            mesh.indices is None,
    {
        Mesh { primitive_topology, positions: Vec::new(), normals: None, indices: None }
    }

    /// Replaces the positions.
    pub fn insert_positions(&mut self, positions: Vec<[Single; 3]>)
        ensures
            final(self).positions == positions,
            final(self).primitive_topology == old(self).primitive_topology,
            final(self).normals == old(self).normals,
            final(self).indices == old(self).indices,
    {
        self.positions = positions;
    }

    /// Sets the normals.
    pub fn insert_normals(&mut self, normals: Vec<[Single; 3]>)
        ensures
            final(self).normals == Some(normals),
            final(self).primitive_topology == old(self).primitive_topology,
            final(self).positions == old(self).positions,
            final(self).indices == old(self).indices,
    {
        self.normals = Some(normals);
    }

    /// Sets the indices.
    pub fn insert_indices(&mut self, indices: Vec<u32>)
        ensures
            final(self).indices == Some(indices),
            final(self).primitive_topology == old(self).primitive_topology,
            final(self).positions == old(self).positions,
            final(self).normals == old(self).normals,
    {
        self.indices = Some(indices);
    }
}

} // verus!
