use bevy_arca::render::buffer::{
    HeapType, FORMAT_UNKNOWN, RESOURCE_DIMENSION_BUFFER, TEXTURE_LAYOUT_ROW_MAJOR,
};
use bevy_arca::render::command::PRIMITIVE_TOPOLOGY_TRIANGLELIST;
use bevy_arca::render::descriptor_heap::{DescriptorHeapDesc, DescriptorHeapKind};
use bevy_arca::render::gpu::{
    COMMAND_LIST_TYPE_DIRECT, CREATE_FACTORY_DEBUG, FEATURE_LEVEL_12_2,
    GPU_PREFERENCE_HIGH_PERFORMANCE,
};
use bevy_arca::render::mesh_data::mesh_buffer::{
    DEFAULT_SHADER_4_COMPONENT_MAPPING, SRV_DIMENSION_BUFFER,
};
use bevy_arca::render::pipelines::description::{
    APPEND_ALIGNED_ELEMENT, BLEND_ONE, BLEND_OP_ADD, BLEND_ZERO, COLOR_WRITE_ENABLE_ALL,
    COMPILE_DEBUG, COMPILE_SKIP_OPTIMIZATION, CULL_MODE_NONE, DESCRIPTOR_RANGE_OFFSET_APPEND,
    DESCRIPTOR_RANGE_TYPE_SRV, FILL_MODE_SOLID, FORMAT_R32G32B32_FLOAT, FORMAT_R32G32_FLOAT,
    LOGIC_OP_NOOP, ROOT_SIGNATURE_FLAG_ALLOW_INPUT_ASSEMBLER_INPUT_LAYOUT,
    ROOT_SIGNATURE_VERSION_1, SHADER_VISIBILITY_PIXEL,
};
use bevy_arca::render::render_target::{
    ALPHA_MODE_IGNORE, FORMAT_R8G8B8A8_UNORM, SCALING_STRETCH,
    SWAP_CHAIN_FLAG_FRAME_LATENCY_WAITABLE_OBJECT, SWAP_EFFECT_FLIP_DISCARD,
    USAGE_RENDER_TARGET_OUTPUT,
};
use bevy_arca::render::resource::{ResourceState, ALL_SUBRESOURCES};
use bevy_arca::scene::mesh::PrimitiveTopologyType;

#[test]
fn resource_states_have_the_device_masks() {
    assert_eq!(ResourceState::Common.bits(), 0);
    assert_eq!(ResourceState::CopyDest.bits(), 1024);
    assert_eq!(ResourceState::GenericRead.bits(), 2755);
    assert_eq!(ResourceState::RenderTarget.bits(), 4);
    assert_eq!(ResourceState::Present.bits(), 0);
    assert_eq!(ALL_SUBRESOURCES, 4294967295);
}

#[test]
fn descriptor_heap_numbers_are_the_device_numbers() {
    assert_eq!(DescriptorHeapKind::CbvSrvUav.code(), 0);
    assert_eq!(DescriptorHeapKind::Sampler.code(), 1);
    assert_eq!(DescriptorHeapKind::Rtv.code(), 2);
    assert_eq!(DescriptorHeapKind::Dsv.code(), 3);
    let hidden = DescriptorHeapDesc::new(DescriptorHeapKind::Rtv, 2, false);
    let visible = DescriptorHeapDesc::new(DescriptorHeapKind::CbvSrvUav, 2, true);
    assert_eq!(hidden.flags(), 0);
    assert_eq!(visible.flags(), 1);
}

#[test]
fn swapchain_numbers_are_the_device_numbers() {
    assert_eq!(FORMAT_R8G8B8A8_UNORM, 28);
    assert_eq!(USAGE_RENDER_TARGET_OUTPUT, 32);
    assert_eq!(SCALING_STRETCH, 0);
    assert_eq!(SWAP_EFFECT_FLIP_DISCARD, 4);
    assert_eq!(ALPHA_MODE_IGNORE, 3);
    assert_eq!(
        SWAP_CHAIN_FLAG_FRAME_LATENCY_WAITABLE_OBJECT,
        64
    );
}

#[test]
fn buffer_numbers_are_the_device_numbers() {
    assert_eq!(RESOURCE_DIMENSION_BUFFER, 1);
    assert_eq!(TEXTURE_LAYOUT_ROW_MAJOR, 1);
    assert_eq!(FORMAT_UNKNOWN, 0);
    assert_eq!(HeapType::Default.code(), 1);
    assert_eq!(HeapType::Upload.code(), 2);
    assert_eq!(SRV_DIMENSION_BUFFER, 1);
    assert_eq!(DEFAULT_SHADER_4_COMPONENT_MAPPING, 5768);
}

#[test]
fn pipeline_numbers_are_the_device_numbers() {
    assert_eq!(DESCRIPTOR_RANGE_TYPE_SRV, 0);
    assert_eq!(DESCRIPTOR_RANGE_OFFSET_APPEND, 4294967295);
    assert_eq!(SHADER_VISIBILITY_PIXEL, 5);
    assert_eq!(
        ROOT_SIGNATURE_FLAG_ALLOW_INPUT_ASSEMBLER_INPUT_LAYOUT,
        1
    );
    assert_eq!(ROOT_SIGNATURE_VERSION_1, 1);
    assert_eq!(FORMAT_R32G32B32_FLOAT, 6);
    assert_eq!(FORMAT_R32G32_FLOAT, 16);
    assert_eq!(APPEND_ALIGNED_ELEMENT, 4294967295);
    assert_eq!(FILL_MODE_SOLID, 3);
    assert_eq!(CULL_MODE_NONE, 1);
    assert_eq!(BLEND_ONE, 2);
    assert_eq!(BLEND_ZERO, 1);
    assert_eq!(BLEND_OP_ADD, 1);
    assert_eq!(LOGIC_OP_NOOP, 4);
    assert_eq!(COLOR_WRITE_ENABLE_ALL, 15);
    assert_eq!(COMPILE_DEBUG, 1);
    assert_eq!(COMPILE_SKIP_OPTIMIZATION, 4);
    assert_eq!(PRIMITIVE_TOPOLOGY_TRIANGLELIST, 4);
}

#[test]
fn topology_types_have_the_device_numbers() {
    assert_eq!(PrimitiveTopologyType::Undefined.code(), 0);
    assert_eq!(PrimitiveTopologyType::Point.code(), 1);
    assert_eq!(PrimitiveTopologyType::Line.code(), 2);
    assert_eq!(PrimitiveTopologyType::Triangle.code(), 3);
    assert_eq!(PrimitiveTopologyType::Patch.code(), 4);
}

#[test]
fn initialization_numbers_are_the_device_numbers() {
    assert_eq!(FEATURE_LEVEL_12_2, 49664);
    assert_eq!(CREATE_FACTORY_DEBUG, 1);
    assert_eq!(GPU_PREFERENCE_HIGH_PERFORMANCE, 2);
    assert_eq!(COMMAND_LIST_TYPE_DIRECT, 0);
}
