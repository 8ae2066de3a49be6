//! The constants the shaders read: the camera and the size of the scene.

use crate::bytes::{lemma_u32s_le_len, spec_u32s_le, u32s_to_le};
use crate::render::constant_buffer::ConstantData;
use crate::scene::camera::Camera;
use crate::single::Single;
use vstd::prelude::*;

verus! {

/// The camera as the shader reads it: the inverse of the view matrix, column
/// after column, the aspect ratio, the field of view, and two words that
/// fill the structure up to a multiple of sixteen bytes.
#[derive(Clone, Copy, Debug)]
pub struct CameraData {
    inverse_view_matrix: [[Single; 4]; 4],
    aspect_ratio: Single,
    fov: Single,
    __padding: [u32; 2],
}

/// The size of the scene as the shader reads it: the number of vertices, and
/// three words that fill the structure up to sixteen bytes.
#[derive(Clone, Copy, Debug)]
pub struct MeshInfo {
    vertex_count: u32,
    __padding: [u32; 3],
}

impl CameraData {
    /// The sixteen numbers of the matrix, in the order they lie in memory.
    pub closed spec fn spec_matrix(&self) -> Seq<Single> {
        Seq::new(16, |i: int| self.inverse_view_matrix@[i / 4]@[i % 4])
    }

    /// The aspect ratio.
    pub closed spec fn spec_aspect_ratio(&self) -> Single {
        self.aspect_ratio
    }

    /// The field of view.
    pub closed spec fn spec_fov(&self) -> Single {
        self.fov
    }

    /// The twenty words of the structure: matrix, aspect ratio, field of
    /// view, and two zeros.
    pub open spec fn spec_words(&self) -> Seq<u32> {
        Seq::new(16, |i: int| self.spec_matrix()[i].bits) + seq![
            self.spec_aspect_ratio().bits,
            self.spec_fov().bits,
            0u32,
            0u32,
        ]
    }

    /// The camera data for `camera` seen through the view whose inverse is
    /// `inverse_view_matrix`, given column after column.
    pub fn new(inverse_view_matrix: [[Single; 4]; 4], camera: &Camera) -> (data: Self)
        ensures
            data.spec_matrix() == Seq::new(16, |i: int| inverse_view_matrix@[i / 4]@[i % 4]),
            data.spec_aspect_ratio() == camera.aspect_ratio,
            data.spec_fov() == camera.fov,
    {
        CameraData {
            inverse_view_matrix,
            aspect_ratio: camera.aspect_ratio,
            fov: camera.fov,
            __padding: [0, 0],
        }
    }
}

impl ConstantData for CameraData {
    open spec fn spec_size() -> nat {
        80
    }

    open spec fn spec_bytes(&self) -> Seq<u8> {
        spec_u32s_le(self.spec_words())
    }

    proof fn lemma_bytes_len(&self) {
        lemma_u32s_le_len(self.spec_words());
    }

    fn size() -> (size: usize) {
        80
    }

    fn to_bytes(&self) -> (bytes: Vec<u8>) {
        let mut words: Vec<u32> = Vec::new();
        let mut column: usize = 0;
        while column < 4
            invariant
                column <= 4,
                words@.len() == 4 * column,
                forall|i: int|
                    0 <= i < 4 * column ==> words@[i] == self.inverse_view_matrix@[i / 4]@[i
                        % 4].bits,
            decreases 4 - column,
        {
            let mut row: usize = 0;
            while row < 4
                invariant
                    column < 4,
                    row <= 4,
                    words@.len() == 4 * column + row,
                    forall|i: int|
                        0 <= i < 4 * column + row ==> words@[i] == self.inverse_view_matrix@[i
                            / 4]@[i % 4].bits,
                decreases 4 - row,
            {
                words.push(self.inverse_view_matrix[column][row].bits);
                row = row + 1;
            }
            column = column + 1;
        }
        words.push(self.aspect_ratio.bits);
        words.push(self.fov.bits);
        words.push(0);
        words.push(0);
        proof {
            assert(words@ =~= self.spec_words());
        }
        u32s_to_le(&words)
    }
}

impl MeshInfo {
    /// The number of vertices.
    pub closed spec fn spec_vertex_count(&self) -> u32 {
        self.vertex_count
    }

    /// The four words of the structure: the number of vertices and three
    /// zeros.
    pub open spec fn spec_words(&self) -> Seq<u32> {
        seq![self.spec_vertex_count(), 0u32, 0u32, 0u32]
    }

    /// The mesh info of a scene of `vertex_count` vertices.
    pub fn new(vertex_count: u32) -> (info: Self)
        ensures
            info.spec_vertex_count() == vertex_count,
    {
        MeshInfo { vertex_count, __padding: [0, 0, 0] }
    }
}

impl ConstantData for MeshInfo {
    open spec fn spec_size() -> nat {
        16
    }

    open spec fn spec_bytes(&self) -> Seq<u8> {
        spec_u32s_le(self.spec_words())
    }

    proof fn lemma_bytes_len(&self) {
        lemma_u32s_le_len(self.spec_words());
    }

    fn size() -> (size: usize) {
        16
    }

    fn to_bytes(&self) -> (bytes: Vec<u8>) {
        let mut words: Vec<u32> = Vec::new();
        words.push(self.vertex_count);
        words.push(0);
        words.push(0);
        words.push(0);
        proof {
            assert(words@ =~= self.spec_words());
        }
        u32s_to_le(&words)
    }
}

} // verus!
