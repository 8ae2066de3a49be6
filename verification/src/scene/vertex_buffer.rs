//! Vertex buffers with fixed contents: the quad that covers the screen and
//! the demonstration triangle.

use crate::bytes::{spec_u32s_le, u32s_to_le};
use crate::render::buffer::{committed_buffer, spec_committed_buffer, CommittedResource, HeapType};
use crate::render::command::VertexBufferView;
use crate::render::descriptor_heap::ObjectId;
use crate::render::resource::ResourceState;
use vstd::prelude::*;

verus! {

/// Bit pattern of `1.0`.
pub const POS: u32 = 0x3f80_0000;

/// Bit pattern of `-1.0`.
pub const NEG: u32 = 0xbf80_0000;

/// Bit pattern of `0.25`.
pub const QUARTER: u32 = 0x3e80_0000;

/// Bit pattern of `-0.25`.
pub const NEG_QUARTER: u32 = 0xbe80_0000;

/// Bytes of one vertex of the quad: a position of three and a texture
/// coordinate of two single-precision numbers.
pub const QUAD_VERTEX_STRIDE: u32 = 20;

/// Bytes of the six vertices of the quad.
pub const QUAD_VERTEX_BYTES: u32 = 120;

/// Bytes of one vertex of the triangle: a position of three and a colour of
/// four single-precision numbers.
pub const TRIANGLE_VERTEX_STRIDE: u32 = 28;

/// Bytes of the three vertices of the triangle.
pub const TRIANGLE_VERTEX_BYTES: u32 = 84;

/// A vertex buffer and the view through which it is bound.
pub struct VertexBuffer {
    _buffer: ObjectId,
    view: VertexBufferView,
}

/// The six vertices of two triangles that cover the screen, as bit patterns
/// of single-precision numbers: for each vertex x, y, z, then u, v. Texture
/// coordinates have their origin at the top left.
pub open spec fn spec_fullscreen_quad_words() -> Seq<u32> {
    seq![
        NEG, NEG, 0, 0, POS,
        NEG, POS, 0, 0, 0,
        POS, NEG, 0, POS, POS,
        POS, NEG, 0, POS, POS,
        NEG, POS, 0, 0, 0,
        POS, POS, 0, POS, 0,
    ]
}

/// The three vertices of the demonstration triangle, as bit patterns of
/// single-precision numbers: for each vertex x, y, z, then red, green, blue,
/// alpha.
pub open spec fn spec_triangle_words() -> Seq<u32> {
    seq![
        0, QUARTER, 0, POS, 0, 0, POS,
        QUARTER, NEG_QUARTER, 0, 0, POS, 0, POS,
        NEG_QUARTER, NEG_QUARTER, 0, 0, 0, POS, POS,
    ]
}

/// The view of a buffer at `gpu_address` that holds `size_in_bytes` bytes of
/// vertices of `stride_in_bytes` bytes each.
pub open spec fn spec_vertex_buffer_view(
    gpu_address: u64,
    size_in_bytes: u32,
    stride_in_bytes: u32,
) -> VertexBufferView {
    VertexBufferView { buffer_location: gpu_address, size_in_bytes, stride_in_bytes }
}

impl VertexBuffer {
    /// Identity of the buffer resource.
    pub closed spec fn spec_buffer(&self) -> ObjectId {
        self._buffer
    }

    /// The view through which the buffer is bound.
    pub closed spec fn spec_view(&self) -> VertexBufferView {
        self.view
    }

    /// The view through which the buffer is bound.
    pub fn view(&self) -> (view: &VertexBufferView)
        ensures
            *view == self.spec_view(),
    {
        &self.view
    }

    /// Identity of the buffer resource.
    pub fn buffer(&self) -> (buffer: ObjectId)
        ensures
            buffer == self.spec_buffer(),
    {
        self._buffer
    }

    /// The request for the quad's memory: 120 bytes of upload memory,
    /// readable from the start.
    pub fn fullscreen_quad_allocation() -> (request: CommittedResource)
        ensures
            request == spec_committed_buffer(
                HeapType::Upload,
                0,
                QUAD_VERTEX_BYTES as u64,
                ResourceState::GenericRead,
            ),
    {
        committed_buffer(HeapType::Upload, 0, QUAD_VERTEX_BYTES as u64, ResourceState::GenericRead)
    }

    /// The bytes to copy into the quad's memory.
    pub fn fullscreen_quad_data() -> (bytes: Vec<u8>)
        ensures
            bytes@ == spec_u32s_le(spec_fullscreen_quad_words()),
            bytes@.len() == QUAD_VERTEX_BYTES,
    {
        let words: Vec<u32> = vec![
            NEG, NEG, 0, 0, POS,
            NEG, POS, 0, 0, 0,
            POS, NEG, 0, POS, POS,
            POS, NEG, 0, POS, POS,
            NEG, POS, 0, 0, 0,
            POS, POS, 0, POS, 0,
        ];
        proof {
            assert(words@ =~= spec_fullscreen_quad_words());
        }
        u32s_to_le(&words)
    }

    /// The quad's vertex buffer, around the buffer that the device created
    /// from `fullscreen_quad_allocation()` and placed at `gpu_address`.
    pub fn fullscreen_quad(buffer: ObjectId, gpu_address: u64) -> (quad: Self)
        ensures
            quad.spec_buffer() == buffer,
            quad.spec_view() == spec_vertex_buffer_view(
                gpu_address,
                QUAD_VERTEX_BYTES,
                QUAD_VERTEX_STRIDE,
            ),
    {
        VertexBuffer {
            _buffer: buffer,
            view: VertexBufferView {
                buffer_location: gpu_address,
                size_in_bytes: QUAD_VERTEX_BYTES,
                stride_in_bytes: QUAD_VERTEX_STRIDE,
            },
        }
    }

    /// The request for the triangle's memory: 84 bytes of upload memory,
    /// readable from the start.
    pub fn triangle_allocation() -> (request: CommittedResource)
        ensures
            request == spec_committed_buffer(
                HeapType::Upload,
                0,
                TRIANGLE_VERTEX_BYTES as u64,
                ResourceState::GenericRead,
            ),
    {
        committed_buffer(
            HeapType::Upload,
            0,
            TRIANGLE_VERTEX_BYTES as u64,
            ResourceState::GenericRead,
        )
    }

    /// The bytes to copy into the triangle's memory.
    pub fn triangle_data() -> (bytes: Vec<u8>)
        ensures
            bytes@ == spec_u32s_le(spec_triangle_words()),
            bytes@.len() == TRIANGLE_VERTEX_BYTES,
    {
        let words: Vec<u32> = vec![
            0, QUARTER, 0, POS, 0, 0, POS,
            QUARTER, NEG_QUARTER, 0, 0, POS, 0, POS,
            NEG_QUARTER, NEG_QUARTER, 0, 0, 0, POS, POS,
        ];
        proof {
            assert(words@ =~= spec_triangle_words());
        }
        u32s_to_le(&words)
    }

    /// The triangle's vertex buffer, around the buffer that the device
    /// created from `triangle_allocation()` and placed at `gpu_address`.
    pub fn triangle(buffer: ObjectId, gpu_address: u64) -> (triangle: Self)
        ensures
            triangle.spec_buffer() == buffer,
            triangle.spec_view() == spec_vertex_buffer_view(
                gpu_address,
                TRIANGLE_VERTEX_BYTES,
                TRIANGLE_VERTEX_STRIDE,
            ),
    {
        VertexBuffer {
            _buffer: buffer,
            view: VertexBufferView {
                buffer_location: gpu_address,
                size_in_bytes: TRIANGLE_VERTEX_BYTES,
                stride_in_bytes: TRIANGLE_VERTEX_STRIDE,
            },
        }
    }
}

} // verus!
