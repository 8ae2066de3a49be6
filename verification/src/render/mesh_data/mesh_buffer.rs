//! The GPU buffers that hold the scene's positions and indices.
//!
//! Positions and indices each have a buffer in GPU-local memory and a
//! staging buffer in upload memory, all of one fixed size. New data is
//! staged by the CPU, copied over by the GPU at the start of a frame, and
//! read by the shader through two shader-resource views.

use crate::bytes::{spec_u32s_le, u32s_to_le};
use crate::render::buffer::{committed_buffer, spec_committed_buffer, CommittedResource, HeapType};
use crate::single::Single;
use crate::render::command::{push_barrier, Command};
use crate::render::descriptor_heap::{
    lemma_cpu_handle_effect,
    CpuDescriptorHandle,
    DescriptorHeap,
    HeapError,
    ObjectId,
};
use crate::render::mesh_data::mesh_list::MeshData;
use crate::render::resource::{
    spec_transition_barrier,
    ResourceState,
    TrackedResource,
};
use vstd::prelude::*;

verus! {

/// Size of each of the four buffers, in bytes: 1 MiB.
pub const MESH_BUFFER_BYTES: u64 = 0x10_0000;

/// Bytes of one position: three single-precision numbers.
pub const POSITION_BYTES: u32 = 12;

/// Bytes of one index.
pub const INDEX_BYTES: u32 = 4;

/// The most positions a buffer holds.
pub const MOST_POSITIONS: usize = 87381;

/// The most indices a buffer holds.
pub const MOST_INDICES: usize = 262144;

/// Number of elements each shader-resource view exposes.
pub const SRV_ELEMENTS: u32 = 1024;

/// The view is one of a buffer.
pub const SRV_DIMENSION_BUFFER: i32 = 1;

/// Components are read in memory order.
pub const DEFAULT_SHADER_4_COMPONENT_MAPPING: u32 = 5768;

/// The four buffers of the scene's geometry.
#[derive(Clone, Copy, Debug, PartialEq, Eq, Structural)]
pub struct MeshBuffer {
    gpu_vertex_buffer: ObjectId,
    upload_vertex_buffer: ObjectId,
    gpu_index_buffer: ObjectId,
    upload_index_buffer: ObjectId,
}

/// The requests for the four buffers, and, once created, their identities.
#[derive(Clone, Copy, Debug, PartialEq, Eq, Structural)]
pub struct MeshBufferParts<T> {
    pub gpu_vertex_buffer: T,
    pub upload_vertex_buffer: T,
    pub gpu_index_buffer: T,
    pub upload_index_buffer: T,
}

/// Description of a view of a buffer as an array of structured elements.
#[derive(Clone, Copy, Debug, PartialEq, Eq, Structural)]
pub struct BufferSrvDesc {
    pub format: i32,
    pub view_dimension: i32,
    pub shader_4_component_mapping: u32,
    pub first_element: u64,
    pub num_elements: u32,
    pub structure_byte_stride: u32,
    pub flags: i32,
}

/// A shader-resource view to create: of which resource, how, and in which
/// slot.
#[derive(Clone, Copy, Debug, PartialEq, Eq, Structural)]
pub struct ShaderResourceView {
    pub resource: ObjectId,
    pub desc: BufferSrvDesc,
    pub handle: CpuDescriptorHandle,
}

/// What is to be copied to the start of each staging buffer.
#[derive(Clone, Debug, PartialEq, Eq)]
pub struct StagedMesh {
    /// The bytes for the vertex staging buffer.
    pub vertex_data: Vec<u8>,
    /// The bytes for the index staging buffer.
    pub index_data: Vec<u8>,
}

/// Why geometry could not be staged.
#[derive(Clone, Copy, Debug, PartialEq, Eq, Structural)]
pub enum MeshBufferError {
    /// The positions or the indices take more bytes than a buffer has.
    CapacityExceeded,
}

/// The view of a buffer as `SRV_ELEMENTS` elements of `stride` bytes.
pub open spec fn spec_buffer_srv_desc(stride: u32) -> BufferSrvDesc {
    BufferSrvDesc {
        format: 0,
        view_dimension: SRV_DIMENSION_BUFFER,
        shader_4_component_mapping: DEFAULT_SHADER_4_COMPONENT_MAPPING,
        first_element: 0,
        num_elements: SRV_ELEMENTS,
        structure_byte_stride: stride,
        flags: 0,
    }
}

/// The numbers of `positions` in a row, as bit patterns: x, y and z of the
/// first position, then of the second, and so on.
pub open spec fn spec_position_words(positions: Seq<[Single; 3]>) -> Seq<u32> {
    Seq::new(3 * positions.len(), |w: int| positions[w / 3]@[w % 3].bits)
}

/// Whether `positions` positions and `indices` indices fit the staging
/// buffers.
pub open spec fn spec_fits_buffers(positions: nat, indices: nat) -> bool {
    positions * POSITION_BYTES <= MESH_BUFFER_BYTES && indices * INDEX_BYTES <= MESH_BUFFER_BYTES
}

impl MeshBuffer {
    /// Identities of the four buffers.
    pub closed spec fn spec_parts(self) -> MeshBufferParts<ObjectId> {
        MeshBufferParts {
            gpu_vertex_buffer: self.gpu_vertex_buffer,
            upload_vertex_buffer: self.upload_vertex_buffer,
            gpu_index_buffer: self.gpu_index_buffer,
            upload_index_buffer: self.upload_index_buffer,
        }
    }

    /// The commands of `upload`: both GPU buffers become copy targets, each
    /// is overwritten from its staging buffer, and both become readable
    /// again.
    pub open spec fn spec_upload(self) -> Seq<Command> {
        let parts = self.spec_parts();
        seq![
            Command::ResourceBarrier(
                spec_transition_barrier(
                    parts.gpu_vertex_buffer,
                    ResourceState::GenericRead,
                    ResourceState::CopyDest,
                ),
            ),
            Command::ResourceBarrier(
                spec_transition_barrier(
                    parts.gpu_index_buffer,
                    ResourceState::GenericRead,
                    ResourceState::CopyDest,
                ),
            ),
            Command::CopyResource {
                destination: parts.gpu_vertex_buffer,
                source: parts.upload_vertex_buffer,
            },
            Command::CopyResource {
                destination: parts.gpu_index_buffer,
                source: parts.upload_index_buffer,
            },
            Command::ResourceBarrier(
                spec_transition_barrier(
                    parts.gpu_vertex_buffer,
                    ResourceState::CopyDest,
                    ResourceState::GenericRead,
                ),
            ),
            Command::ResourceBarrier(
                spec_transition_barrier(
                    parts.gpu_index_buffer,
                    ResourceState::CopyDest,
                    ResourceState::GenericRead,
                ),
            ),
        ]
    }

    /// The view of the positions in slot `handle`.
    pub open spec fn spec_srv_vertex(self, handle: CpuDescriptorHandle) -> ShaderResourceView {
        ShaderResourceView {
            resource: self.spec_parts().gpu_vertex_buffer,
            desc: spec_buffer_srv_desc(POSITION_BYTES),
            handle,
        }
    }

    /// The view of the indices in slot `handle`.
    pub open spec fn spec_srv_index(self, handle: CpuDescriptorHandle) -> ShaderResourceView {
        ShaderResourceView {
            resource: self.spec_parts().gpu_index_buffer,
            desc: spec_buffer_srv_desc(INDEX_BYTES),
            handle,
        }
    }

    /// The requests for the four buffers: each of 1 MiB; the GPU buffers in
    /// GPU-local memory with no particular usage, the staging buffers in
    /// upload memory, readable.
    pub fn allocations() -> (requests: MeshBufferParts<CommittedResource>)
        ensures
            requests.gpu_vertex_buffer == spec_committed_buffer(
                HeapType::Default,
                0,
                MESH_BUFFER_BYTES,
                ResourceState::Common,
            ),
            requests.upload_vertex_buffer == spec_committed_buffer(
                HeapType::Upload,
                0,
                MESH_BUFFER_BYTES,
                ResourceState::GenericRead,
            ),
            requests.gpu_index_buffer == requests.gpu_vertex_buffer,
            requests.upload_index_buffer == requests.upload_vertex_buffer,
    {
        let vertex_buffer_size: u64 = MESH_BUFFER_BYTES;
        let index_buffer_size: u64 = MESH_BUFFER_BYTES;
        MeshBufferParts {
            gpu_vertex_buffer: committed_buffer(
                HeapType::Default,
                0,
                vertex_buffer_size,
                ResourceState::Common,
            ),
            upload_vertex_buffer: committed_buffer(
                HeapType::Upload,
                0,
                vertex_buffer_size,
                ResourceState::GenericRead,
            ),
            gpu_index_buffer: committed_buffer(
                HeapType::Default,
                0,
                index_buffer_size,
                ResourceState::Common,
            ),
            upload_index_buffer: committed_buffer(
                HeapType::Upload,
                0,
                index_buffer_size,
                ResourceState::GenericRead,
            ),
        }
    }

    /// Takes over the buffers that the device created from `allocations()`.
    pub fn new(buffers: MeshBufferParts<ObjectId>) -> (created: Self)
        ensures
            created.spec_parts() == buffers,
    {
        MeshBuffer {
            gpu_vertex_buffer: buffers.gpu_vertex_buffer,
            upload_vertex_buffer: buffers.upload_vertex_buffer,
            gpu_index_buffer: buffers.gpu_index_buffer,
            upload_index_buffer: buffers.upload_index_buffer,
        }
    }

    /// Identities of the four buffers.
    pub fn parts(&self) -> (parts: MeshBufferParts<ObjectId>)
        ensures
            parts == self.spec_parts(),
    {
        MeshBufferParts {
            gpu_vertex_buffer: self.gpu_vertex_buffer,
            upload_vertex_buffer: self.upload_vertex_buffer,
            gpu_index_buffer: self.gpu_index_buffer,
            upload_index_buffer: self.upload_index_buffer,
        }
    }

    /// Stages `data`: returns the bytes of its positions for the start of
    /// the vertex staging buffer and the bytes of its indices for the start
    /// of the index staging buffer. A position is three single-precision
    /// numbers; numbers and indices are written least significant byte
    /// first.
    ///
    /// Fails with `CapacityExceeded` when either takes more than a buffer
    /// holds.
    pub fn set_new_data(&self, data: &MeshData) -> (staged: Result<StagedMesh, MeshBufferError>)
        ensures
            staged is Ok <==> spec_fits_buffers(
                data.spec_positions().len(),
                data.spec_indices().len(),
            ),
            staged is Ok ==> {
                &&& staged->Ok_0.vertex_data@ == spec_u32s_le(
                    spec_position_words(data.spec_positions()),
                )
                &&& staged->Ok_0.index_data@ == spec_u32s_le(data.spec_indices())
                &&& staged->Ok_0.vertex_data@.len() == data.spec_positions().len()
                    * POSITION_BYTES
                &&& staged->Ok_0.index_data@.len() == data.spec_indices().len() * INDEX_BYTES
            },
            staged is Err ==> staged->Err_0 == MeshBufferError::CapacityExceeded,
    {
        let positions: &Vec<[Single; 3]> = data.positions();
        let indices: &Vec<u32> = data.indices();
        let position_count: usize = positions.len();
        let index_count: usize = indices.len();
        if position_count > MOST_POSITIONS || index_count > MOST_INDICES {
            return Err(MeshBufferError::CapacityExceeded);
        }
        let mut words: Vec<u32> = Vec::new();
        let mut i: usize = 0;
        while i < positions.len()
            invariant
                i <= positions@.len(),
                words@.len() == 3 * i,
                forall|w: int| 0 <= w < 3 * i ==> words@[w] == positions@[w / 3]@[w % 3].bits,
            decreases positions@.len() - i,
        {
            let position: [Single; 3] = positions[i];
            words.push(position[0].bits);
            words.push(position[1].bits);
            words.push(position[2].bits);
            i = i + 1;
        }
        proof {
            assert(words@ =~= spec_position_words(positions@));
        }
        let vertex_data = u32s_to_le(&words);
        let index_data = u32s_to_le(indices);
        Ok(StagedMesh { vertex_data, index_data })
    }

    /// The commands that bring the staged data to the GPU buffers. They are
    /// to be recorded once per frame, after staging and before the draw that
    /// reads the buffers.
    pub fn upload(&self) -> (commands: Vec<Command>)
        ensures
            commands@ == self.spec_upload(),
    {
        let mut vertices = TrackedResource::new(self.gpu_vertex_buffer, ResourceState::GenericRead);
        let mut indices = TrackedResource::new(self.gpu_index_buffer, ResourceState::GenericRead);
        let mut commands: Vec<Command> = Vec::new();
        push_barrier(&mut commands, &mut vertices, ResourceState::CopyDest);
        push_barrier(&mut commands, &mut indices, ResourceState::CopyDest);
        commands.push(
            Command::CopyResource {
                destination: self.gpu_vertex_buffer,
                source: self.upload_vertex_buffer,
            },
        );
        commands.push(
            Command::CopyResource {
                destination: self.gpu_index_buffer,
                source: self.upload_index_buffer,
            },
        );
        push_barrier(&mut commands, &mut vertices, ResourceState::GenericRead);
        push_barrier(&mut commands, &mut indices, ResourceState::GenericRead);
        proof {
            assert(commands@ =~= self.spec_upload());
        }
        commands
    }

    /// Takes the next slot of `descriptor_heap` for the view of the
    /// positions. Fails as `cpu_handle` does.
    pub fn srv_vertex(&self, descriptor_heap: &mut DescriptorHeap) -> (view: Result<
        ShaderResourceView,
        HeapError,
    >)
        requires
            old(descriptor_heap).wf(),
        ensures
            final(descriptor_heap).wf(),
            *final(descriptor_heap) == old(descriptor_heap).spec_cpu_handle().0,
            final(descriptor_heap).spec_capacity() == old(descriptor_heap).spec_capacity(),
            final(descriptor_heap).spec_stride() == old(descriptor_heap).spec_stride(),
            final(descriptor_heap).spec_start() == old(descriptor_heap).spec_start(),
            final(descriptor_heap).spec_heap() == old(descriptor_heap).spec_heap(),
            final(descriptor_heap).spec_allocated() == old(descriptor_heap).spec_allocated() + (
            if old(descriptor_heap).spec_allocated() < old(descriptor_heap).spec_capacity() {
                1nat
            } else {
                0nat
            }),
            match old(descriptor_heap).spec_cpu_handle().1 {
                Ok(handle) => view == Ok::<ShaderResourceView, HeapError>(
                    self.spec_srv_vertex(handle),
                ),
                Err(error) => view == Err::<ShaderResourceView, HeapError>(error),
            },
    {
        match descriptor_heap.cpu_handle() {
            Ok(handle) => Ok(
                ShaderResourceView {
                    resource: self.gpu_vertex_buffer,
                    desc: buffer_srv_desc(POSITION_BYTES),
                    handle,
                },
            ),
            Err(error) => Err(error),
        }
    }

    /// Takes the next slot of `descriptor_heap` for the view of the indices.
    /// Fails as `cpu_handle` does.
    pub fn srv_index(&self, descriptor_heap: &mut DescriptorHeap) -> (view: Result<
        ShaderResourceView,
        HeapError,
    >)
        requires
            old(descriptor_heap).wf(),
        ensures
            final(descriptor_heap).wf(),
            *final(descriptor_heap) == old(descriptor_heap).spec_cpu_handle().0,
            final(descriptor_heap).spec_capacity() == old(descriptor_heap).spec_capacity(),
            final(descriptor_heap).spec_stride() == old(descriptor_heap).spec_stride(),
            final(descriptor_heap).spec_start() == old(descriptor_heap).spec_start(),
            final(descriptor_heap).spec_heap() == old(descriptor_heap).spec_heap(),
            final(descriptor_heap).spec_allocated() == old(descriptor_heap).spec_allocated() + (
            if old(descriptor_heap).spec_allocated() < old(descriptor_heap).spec_capacity() {
                1nat
            } else {
                0nat
            }),
            match old(descriptor_heap).spec_cpu_handle().1 {
                Ok(handle) => view == Ok::<ShaderResourceView, HeapError>(
                    self.spec_srv_index(handle),
                ),
                Err(error) => view == Err::<ShaderResourceView, HeapError>(error),
            },
    {
        match descriptor_heap.cpu_handle() {
            Ok(handle) => Ok(
                ShaderResourceView {
                    resource: self.gpu_index_buffer,
                    desc: buffer_srv_desc(INDEX_BYTES),
                    handle,
                },
            ),
            Err(error) => Err(error),
        }
    }

    /// Takes the next two slots of `descriptor_heap` for the views of the
    /// positions and of the indices, in this order, and returns the views to
    /// create.
    ///
    /// Fails with `CapacityExceeded`, leaving the heap as it was, when the
    /// heap has fewer than two free slots.
    pub fn write_to_descriptor_heap(&self, descriptor_heap: &mut DescriptorHeap) -> (views: Result<
        Vec<ShaderResourceView>,
        HeapError,
    >)
        requires
            old(descriptor_heap).wf(),
        ensures
            final(descriptor_heap).wf(),
            final(descriptor_heap).spec_capacity() == old(descriptor_heap).spec_capacity(),
            final(descriptor_heap).spec_stride() == old(descriptor_heap).spec_stride(),
            final(descriptor_heap).spec_start() == old(descriptor_heap).spec_start(),
            final(descriptor_heap).spec_heap() == old(descriptor_heap).spec_heap(),
            old(descriptor_heap).spec_allocated() + 2 <= old(descriptor_heap).spec_capacity()
                ==> {
                &&& views is Ok
                &&& views->Ok_0@ == seq![
                    self.spec_srv_vertex(
                        CpuDescriptorHandle {
                            ptr: old(descriptor_heap).spec_slot(
                                old(descriptor_heap).spec_allocated(),
                            ) as usize,
                        },
                    ),
                    self.spec_srv_index(
                        CpuDescriptorHandle {
                            ptr: old(descriptor_heap).spec_slot(
                                old(descriptor_heap).spec_allocated() + 1,
                            ) as usize,
                        },
                    ),
                ]
                &&& *final(descriptor_heap) == old(descriptor_heap).spec_after(2)
                &&& final(descriptor_heap).spec_allocated() == old(
                    descriptor_heap,
                ).spec_allocated() + 2
            },
            old(descriptor_heap).spec_allocated() + 2 > old(descriptor_heap).spec_capacity() ==> {
                &&& views is Err
                &&& views->Err_0 == HeapError::CapacityExceeded
                &&& *final(descriptor_heap) == *old(descriptor_heap)
            },
    {
        if descriptor_heap.remaining() < 2 {
            return Err(HeapError::CapacityExceeded);
        }
        proof {
            lemma_cpu_handle_effect(*old(descriptor_heap));
            lemma_cpu_handle_effect(old(descriptor_heap).spec_cpu_handle().0);
            assert(old(descriptor_heap).spec_after(1) == old(descriptor_heap).spec_after(
                0,
            ).spec_cpu_handle().0);
            assert(old(descriptor_heap).spec_after(2) == old(descriptor_heap).spec_after(
                1,
            ).spec_cpu_handle().0);
        }
        let mut views: Vec<ShaderResourceView> = Vec::new();
        match self.srv_vertex(descriptor_heap) {
            Ok(view) => {
                views.push(view);
            },
            Err(error) => {
                return Err(error);
            },
        }
        match self.srv_index(descriptor_heap) {
            Ok(view) => {
                views.push(view);
            },
            Err(error) => {
                return Err(error);
            },
        }
        proof {
            assert(views@ =~= seq![views@[0], views@[1]]);
        }
        Ok(views)
    }
}

/// Builds the view of a buffer as `SRV_ELEMENTS` elements of `stride`
/// bytes.
pub fn buffer_srv_desc(stride: u32) -> (desc: BufferSrvDesc)
    ensures
        desc == spec_buffer_srv_desc(stride),
{
    BufferSrvDesc {
        format: 0,
        view_dimension: SRV_DIMENSION_BUFFER,
        shader_4_component_mapping: DEFAULT_SHADER_4_COMPONENT_MAPPING,
        first_element: 0,
        num_elements: SRV_ELEMENTS,
        structure_byte_stride: stride,
        flags: 0,
    }
}

} // verus!
