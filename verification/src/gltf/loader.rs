//! Decoding of what a glTF file holds: primitive modes, buffers and vertex
//! attributes.

use crate::bytes::{read_u32_le, spec_u32_from_le};
use crate::scene::mesh::PrimitiveTopologyType;
use crate::single::Single;
use vstd::prelude::*;
use vstd::string::StringExecFns;

verus! {

/// Bytes of one component of an attribute: a single-precision number.
pub const COMPONENT_BYTES: usize = 4;

/// Distance between two elements of an attribute whose view names none:
/// three components without a gap.
pub const DEFAULT_STRIDE: usize = 12;

/// How the vertices of a primitive are connected.
#[derive(Clone, Copy, Debug, PartialEq, Eq, Structural)]
pub enum PrimitiveMode {
    Points,
    Lines,
    LineLoop,
    LineStrip,
    Triangles,
    TriangleStrip,
    TriangleFan,
}

/// Where the bytes of a buffer are.
#[derive(Clone, Copy, Debug, PartialEq, Eq, Structural)]
pub enum BufferSource {
    /// In the binary chunk of the file.
    Bin,
    /// In another file.
    Uri,
}

/// The part of a buffer an accessor reads.
#[derive(Clone, Copy, Debug, PartialEq, Eq, Structural)]
pub struct BufferView {
    /// Number of the buffer.
    pub buffer: usize,
    /// Where in the buffer the view starts.
    pub offset: usize,
    /// Number of bytes of the view.
    pub length: usize,
    /// Distance between two elements, if they are not tightly packed.
    pub stride: Option<usize>,
}

/// Why a glTF file could not be loaded.
#[derive(Debug)]
pub enum GltfError {
    /// A buffer that is stored in a way that is not supported.
    UnsupportedBufferFormat(String),
    /// A buffer refers to the binary chunk, and the file has none.
    MissingBlob,
    /// A primitive of a mode that is not supported.
    UnsupportedPrimitive { mode: PrimitiveMode },
    /// The nodes do not form trees; these nodes lie on or above a cycle or
    /// have several parents.
    CircularChildren(Vec<usize>),
}

/// The topology for a primitive mode: points, lines and triangles are
/// supported, loops, strips and fans are not.
pub open spec fn spec_primitive_topology(mode: PrimitiveMode) -> Option<PrimitiveTopologyType> {
    match mode {
        PrimitiveMode::Points => Some(PrimitiveTopologyType::Point),
        PrimitiveMode::Lines => Some(PrimitiveTopologyType::Line),
        PrimitiveMode::Triangles => Some(PrimitiveTopologyType::Triangle),
        _ => None,
    }
}

/// The topology type with which primitives of `mode` are drawn.
///
/// Fails with `UnsupportedPrimitive` for loops, strips and fans.
pub fn get_primitive_topology(mode: PrimitiveMode) -> (topology: Result<
    PrimitiveTopologyType,
    GltfError,
>)
    ensures
        match spec_primitive_topology(mode) {
            Some(supported) => topology is Ok && topology->Ok_0 == supported,
            None => topology is Err && topology->Err_0 == (GltfError::UnsupportedPrimitive {
                mode,
            }),
        },
{
    match mode {
        PrimitiveMode::Points => Ok(PrimitiveTopologyType::Point),
        PrimitiveMode::Lines => Ok(PrimitiveTopologyType::Line),
        PrimitiveMode::Triangles => Ok(PrimitiveTopologyType::Triangle),
        mode => Err(GltfError::UnsupportedPrimitive { mode }),
    }
}

/// Whether the first `count` of `sources` are all in the binary chunk.
pub open spec fn spec_all_bin(sources: Seq<BufferSource>, count: int) -> bool {
    forall|i: int| 0 <= i < count ==> sources[i] == BufferSource::Bin
}

/// The data of the buffers of a file whose binary chunk is `blob`: every
/// buffer that is in the binary chunk holds the chunk.
///
/// Fails at the first buffer that cannot be had: with
/// `UnsupportedBufferFormat` if it is in another file, with `MissingBlob` if
/// it is in the binary chunk and there is none.
pub fn load_buffers(sources: &Vec<BufferSource>, blob: Option<&Vec<u8>>) -> (buffers: Result<
    Vec<Vec<u8>>,
    GltfError,
>)
    ensures
        spec_all_bin(sources@, sources@.len() as int) && (blob is Some || sources@.len() == 0)
            ==> {
            &&& buffers is Ok
            &&& buffers->Ok_0@.len() == sources@.len()
            &&& forall|i: int|
                0 <= i < sources@.len() ==> (#[trigger] buffers->Ok_0@[i])@ == blob->Some_0@
        },
        !(spec_all_bin(sources@, sources@.len() as int) && (blob is Some || sources@.len() == 0))
            ==> buffers is Err,
        buffers is Err ==> exists|first: int|
            {
                &&& 0 <= first < sources@.len()
                &&& spec_all_bin(sources@, first)
                &&& (blob is Some || first == 0)
                &&& match #[trigger] sources@[first] {
                    BufferSource::Bin => blob is None && buffers->Err_0 == GltfError::MissingBlob,
                    BufferSource::Uri => buffers->Err_0 is UnsupportedBufferFormat
                        && buffers->Err_0->UnsupportedBufferFormat_0@ == "URI"@,
                }
            },
{
    let mut buffer_data: Vec<Vec<u8>> = Vec::new();
    let mut i: usize = 0;
    while i < sources.len()
        invariant
            i <= sources@.len(),
            spec_all_bin(sources@, i as int),
            blob is Some || i == 0,
            buffer_data@.len() == i,
            forall|j: int| 0 <= j < i ==> (#[trigger] buffer_data@[j])@ == blob->Some_0@,
        decreases sources@.len() - i,
    {
        match sources[i] {
            BufferSource::Bin => {
                match blob {
                    Some(bytes) => {
                        buffer_data.push(copy_bytes(bytes));
                    },
                    None => {
                        return Err(GltfError::MissingBlob);
                    },
                }
            },
            BufferSource::Uri => {
                return Err(GltfError::UnsupportedBufferFormat(String::from_str("URI")));
            },
        }
        i = i + 1;
    }
    Ok(buffer_data)
}

/// A copy of `bytes`.
pub fn copy_bytes(bytes: &Vec<u8>) -> (copy: Vec<u8>)
    ensures
        copy@ == bytes@,
{
    let mut copy: Vec<u8> = Vec::new();
    let mut i: usize = 0;
    while i < bytes.len()
        invariant
            i <= bytes@.len(),
            copy@ == bytes@.subrange(0, i as int),
        decreases bytes@.len() - i,
    {
        copy.push(bytes[i]);
        proof {
            assert(copy@ =~= bytes@.subrange(0, i + 1));
        }
        i = i + 1;
    }
    proof {
        assert(bytes@.subrange(0, bytes@.len() as int) =~= bytes@);
    }
    copy
}

impl BufferView {
    /// The distance between two elements: the view's stride, or that of
    /// tightly packed elements of three components.
    pub open spec fn spec_stride(self) -> nat {
        match self.stride {
            Some(stride) => stride as nat,
            None => DEFAULT_STRIDE as nat,
        }
    }

    /// Whether `count` elements of three components can be read through the
    /// view from `data`: the view names a buffer, lies within it, and the
    /// last element ends within the view.
    pub open spec fn spec_admits(self, count: nat, data: Seq<Vec<u8>>) -> bool {
        &&& self.buffer < data.len()
        &&& self.offset + self.length <= data[self.buffer as int]@.len()
        &&& count > 0 ==> (count - 1) * self.spec_stride() + 3 * COMPONENT_BYTES <= self.length
    }

    /// Where in the buffer component `component` of element `element`
    /// starts.
    pub open spec fn spec_component_start(self, element: nat, component: nat) -> nat {
        (self.offset + element * self.spec_stride() + component * COMPONENT_BYTES) as nat
    }

    /// The component `component` of element `element`, read from `data`
    /// least significant byte first.
    pub open spec fn spec_component(
        self,
        element: nat,
        component: nat,
        data: Seq<Vec<u8>>,
    ) -> Single {
        Single {
            bits: spec_u32_from_le(
                data[self.buffer as int]@.subrange(
                    self.spec_component_start(element, component) as int,
                    self.spec_component_start(element, component) + COMPONENT_BYTES,
                ),
            ),
        }
    }

    /// The three components of element `element`, read from `data`.
    pub open spec fn spec_element(self, element: nat, data: Seq<Vec<u8>>) -> Seq<Single> {
        seq![
            self.spec_component(element, 0, data),
            self.spec_component(element, 1, data),
            self.spec_component(element, 2, data),
        ]
    }

    /// Whether `count` elements of three components can be read through the
    /// view from `data`.
    pub fn admits(&self, count: usize, data: &Vec<Vec<u8>>) -> (admitted: bool)
        ensures
            admitted == self.spec_admits(count as nat, data@),
    {
        if self.buffer >= data.len() {
            return false;
        }
        let size: usize = data[self.buffer].len();
        if self.offset > size || self.length > size - self.offset {
            return false;
        }
        if count == 0 {
            return true;
        }
        let stride: usize = match self.stride {
            Some(stride) => stride,
            None => DEFAULT_STRIDE,
        };
        if self.length < 3 * COMPONENT_BYTES {
            return false;
        }
        let room: usize = self.length - 3 * COMPONENT_BYTES;
        if stride == 0 {
            proof {
                assert((count - 1) * 0 == 0) by (nonlinear_arith);
            }
            return true;
        }
        let fits: bool = count - 1 <= room / stride;
        proof {
            let steps = (count - 1) as int;
            let span = stride as int;
            let space = room as int;
            assert(steps <= space / span <==> steps * span <= space) by (nonlinear_arith)
                requires
                    span > 0,
                    steps >= 0,
                    space >= 0,
            ;
        }
        fits
    }
}

/// Reads `count` elements of three single-precision numbers each through
/// `view` from `data`. Element `i` starts `i` strides into the view; its
/// components follow each other without a gap, least significant byte
/// first.
pub fn read_attributes(view: &BufferView, count: usize, data: &Vec<Vec<u8>>) -> (attributes: Vec<
    [Single; 3],
>)
    requires
        view.spec_admits(count as nat, data@),
    ensures
        attributes@.len() == count,
        forall|i: int|
            0 <= i < count ==> (#[trigger] attributes@[i])@ == view.spec_element(i as nat, data@),
{
    let buffer: &Vec<u8> = &data[view.buffer];
    let size: usize = buffer.len();
    let start: usize = view.offset;
    let stride: usize = match view.stride {
        Some(stride) => stride,
        None => DEFAULT_STRIDE,
    };
    let mut attributes: Vec<[Single; 3]> = Vec::new();
    let mut i: usize = 0;
    while i < count
        invariant
            i <= count,
            view.spec_admits(count as nat, data@),
            stride == view.spec_stride(),
            start == view.offset,
            buffer@ == data@[view.buffer as int]@,
            size == buffer@.len(),
            attributes@.len() == i,
            forall|k: int|
                0 <= k < i ==> (#[trigger] attributes@[k])@ == view.spec_element(
                    k as nat,
                    data@,
                ),
        decreases count - i,
    {
        proof {
            let steps = i as int;
            let last = (count - 1) as int;
            let span = stride as int;
            assert(steps * span <= last * span) by (nonlinear_arith)
                requires
                    0 <= steps <= last,
                    span >= 0,
            ;
            assert(last * span + 3 * COMPONENT_BYTES <= view.length);
            assert(view.offset + view.length <= buffer@.len());
        }
        let offset: usize = start + i * stride;
        let x = Single::from_bits(read_u32_le(buffer, offset));
        let y = Single::from_bits(read_u32_le(buffer, offset + COMPONENT_BYTES));
        let z = Single::from_bits(read_u32_le(buffer, offset + 2 * COMPONENT_BYTES));
        let element: [Single; 3] = [x, y, z];
        proof {
            assert(view.spec_component_start(i as nat, 0) == offset);
            assert(view.spec_component_start(i as nat, 1) == offset + COMPONENT_BYTES);
            assert(view.spec_component_start(i as nat, 2) == offset + 2 * COMPONENT_BYTES);
            assert(element@ =~= view.spec_element(i as nat, data@));
        }
        attributes.push(element);
        i = i + 1;
    }
    attributes
}

} // verus!
