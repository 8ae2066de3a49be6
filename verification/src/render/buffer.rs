//! Requests for buffer memory.
//!
//! The device creates a buffer from a description of the resource, of the
//! heap it is to live in, and of the usage it starts in. The descriptions are
//! plain values here, field for field as the device takes them.

use crate::render::resource::ResourceState;
use vstd::prelude::*;

verus! {

/// The resource is a buffer.
pub const RESOURCE_DIMENSION_BUFFER: i32 = 1;

/// The resource's data is laid out row by row.
pub const TEXTURE_LAYOUT_ROW_MAJOR: i32 = 1;

/// The resource has no texel format.
pub const FORMAT_UNKNOWN: i32 = 0;

/// The kind of memory a resource lives in.
#[derive(Clone, Copy, Debug, PartialEq, Eq, Structural)]
pub enum HeapType {
    /// Memory local to the GPU, which the CPU cannot map.
    Default,
    /// Memory the CPU writes and the GPU reads.
    Upload,
}

/// Where the memory of a resource is to come from.
#[derive(Clone, Copy, Debug, PartialEq, Eq, Structural)]
pub struct HeapProperties {
    pub heap_type: HeapType,
    pub cpu_page_property: i32,
    pub memory_pool_preference: i32,
    pub creation_node_mask: u32,
    pub visible_node_mask: u32,
}

/// Description of a resource.
#[derive(Clone, Copy, Debug, PartialEq, Eq, Structural)]
pub struct ResourceDesc {
    pub dimension: i32,
    pub alignment: u64,
    pub width: u64,
    pub height: u32,
    pub depth_or_array_size: u16,
    pub mip_levels: u16,
    pub format: i32,
    pub sample_count: u32,
    pub sample_quality: u32,
    pub layout: i32,
    pub flags: i32,
}

/// A request for a resource with memory of its own.
#[derive(Clone, Copy, Debug, PartialEq, Eq, Structural)]
pub struct CommittedResource {
    pub heap_properties: HeapProperties,
    pub heap_flags: i32,
    pub desc: ResourceDesc,
    pub initial_state: ResourceState,
}

impl HeapType {
    /// The device's number for the heap type.
    pub open spec fn spec_code(self) -> i32 {
        match self {
            HeapType::Default => 1i32,
            HeapType::Upload => 2i32,
        }
    }

    /// The device's number for the heap type.
    pub fn code(self) -> (code: i32)
        ensures
            code == self.spec_code(),
    {
        match self {
            HeapType::Default => 1,
            HeapType::Upload => 2,
        }
    }
}

/// Heap properties for `heap_type` with unknown page property and pool, on
/// the nodes of `node_mask`.
pub open spec fn spec_heap_properties(heap_type: HeapType, node_mask: u32) -> HeapProperties {
    HeapProperties {
        heap_type,
        cpu_page_property: 0,
        memory_pool_preference: 0,
        creation_node_mask: node_mask,
        visible_node_mask: node_mask,
    }
}

/// The description of a buffer of `width` bytes: one row, one layer, one
/// level, no format, not multisampled, row-major, no flags.
pub open spec fn spec_buffer_desc(width: u64) -> ResourceDesc {
    ResourceDesc {
        dimension: RESOURCE_DIMENSION_BUFFER,
        alignment: 0,
        width,
        height: 1,
        depth_or_array_size: 1,
        mip_levels: 1,
        format: FORMAT_UNKNOWN,
        sample_count: 1,
        sample_quality: 0,
        layout: TEXTURE_LAYOUT_ROW_MAJOR,
        flags: 0,
    }
}

/// The request for a buffer of `width` bytes in a heap of `heap_type` on the
/// nodes of `node_mask`, starting in `initial_state`.
pub open spec fn spec_committed_buffer(
    heap_type: HeapType,
    node_mask: u32,
    width: u64,
    initial_state: ResourceState,
) -> CommittedResource {
    CommittedResource {
        heap_properties: spec_heap_properties(heap_type, node_mask),
        heap_flags: 0,
        desc: spec_buffer_desc(width),
        initial_state,
    }
}

/// Builds heap properties for `heap_type` on the nodes of `node_mask`.
pub fn heap_properties(heap_type: HeapType, node_mask: u32) -> (properties: HeapProperties)
    ensures
        properties == spec_heap_properties(heap_type, node_mask),
{
    HeapProperties {
        heap_type,
        cpu_page_property: 0,
        memory_pool_preference: 0,
        creation_node_mask: node_mask,
        visible_node_mask: node_mask,
    }
}

/// Builds the description of a buffer of `width` bytes.
pub fn buffer_desc(width: u64) -> (desc: ResourceDesc)
    ensures
        desc == spec_buffer_desc(width),
{
    ResourceDesc {
        dimension: RESOURCE_DIMENSION_BUFFER,
        alignment: 0,
        width,
        height: 1,
        depth_or_array_size: 1,
        mip_levels: 1,
        format: FORMAT_UNKNOWN,
        sample_count: 1,
        sample_quality: 0,
        layout: TEXTURE_LAYOUT_ROW_MAJOR,
        flags: 0,
    }
}

/// Builds the request for a buffer of `width` bytes.
pub fn committed_buffer(
    heap_type: HeapType,
    node_mask: u32,
    width: u64,
    initial_state: ResourceState,
) -> (request: CommittedResource)
    ensures
        request == spec_committed_buffer(heap_type, node_mask, width, initial_state),
{
    CommittedResource {
        heap_properties: heap_properties(heap_type, node_mask),
        heap_flags: 0,
        desc: buffer_desc(width),
        initial_state,
    }
}

} // verus!
