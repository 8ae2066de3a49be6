use bevy_arca::gpu_types::TextureFormat as T;
use bevy_arca::gpu_types::{
    Extent3d, ImageAddressMode, ImageFilterMode, ImageSampler, ImageSamplerDescriptor,
    TextureDimension, TextureFormat,
};
use wgpu_types::TextureFormat as W;

fn extent(width: u32, height: u32, depth_or_array_layers: u32) -> Extent3d {
    Extent3d { width, height, depth_or_array_layers }
}

fn pairs() -> Vec<(TextureFormat, wgpu_types::TextureFormat)> {
    vec![
        (T::R8Unorm, W::R8Unorm),
        (T::R8Snorm, W::R8Snorm),
        (T::R8Uint, W::R8Uint),
        (T::R8Sint, W::R8Sint),
        (T::R16Uint, W::R16Uint),
        (T::R16Sint, W::R16Sint),
        (T::R16Unorm, W::R16Unorm),
        (T::R16Snorm, W::R16Snorm),
        (T::R16Float, W::R16Float),
        (T::Rg8Unorm, W::Rg8Unorm),
        (T::Rg8Snorm, W::Rg8Snorm),
        (T::Rg8Uint, W::Rg8Uint),
        (T::Rg8Sint, W::Rg8Sint),
        (T::R32Uint, W::R32Uint),
        (T::R32Sint, W::R32Sint),
        (T::R32Float, W::R32Float),
        (T::Rg16Uint, W::Rg16Uint),
        (T::Rg16Sint, W::Rg16Sint),
        (T::Rg16Unorm, W::Rg16Unorm),
        (T::Rg16Snorm, W::Rg16Snorm),
        (T::Rg16Float, W::Rg16Float),
        (T::Rgba8Unorm, W::Rgba8Unorm),
        (T::Rgba8UnormSrgb, W::Rgba8UnormSrgb),
        (T::Rgba8Snorm, W::Rgba8Snorm),
        (T::Rgba8Uint, W::Rgba8Uint),
        (T::Rgba8Sint, W::Rgba8Sint),
        (T::Bgra8Unorm, W::Bgra8Unorm),
        (T::Bgra8UnormSrgb, W::Bgra8UnormSrgb),
        (T::Rgb9e5Ufloat, W::Rgb9e5Ufloat),
        (T::Rgb10a2Uint, W::Rgb10a2Uint),
        (T::Rgb10a2Unorm, W::Rgb10a2Unorm),
        (T::Rg11b10Float, W::Rg11b10Float),
        (T::Rg32Uint, W::Rg32Uint),
        (T::Rg32Sint, W::Rg32Sint),
        (T::Rg32Float, W::Rg32Float),
        (T::Rgba16Uint, W::Rgba16Uint),
        (T::Rgba16Sint, W::Rgba16Sint),
        (T::Rgba16Unorm, W::Rgba16Unorm),
        (T::Rgba16Snorm, W::Rgba16Snorm),
        (T::Rgba16Float, W::Rgba16Float),
        (T::Rgba32Uint, W::Rgba32Uint),
        (T::Rgba32Sint, W::Rgba32Sint),
        (T::Rgba32Float, W::Rgba32Float),
        (T::Stencil8, W::Stencil8),
        (T::Depth16Unorm, W::Depth16Unorm),
        (T::Depth24Plus, W::Depth24Plus),
        (T::Depth24PlusStencil8, W::Depth24PlusStencil8),
        (T::Depth32Float, W::Depth32Float),
        (T::Depth32FloatStencil8, W::Depth32FloatStencil8),
        (T::NV12, W::NV12),
        (T::Bc1RgbaUnorm, W::Bc1RgbaUnorm),
        (T::Bc1RgbaUnormSrgb, W::Bc1RgbaUnormSrgb),
        (T::Bc2RgbaUnorm, W::Bc2RgbaUnorm),
        (T::Bc2RgbaUnormSrgb, W::Bc2RgbaUnormSrgb),
        (T::Bc3RgbaUnorm, W::Bc3RgbaUnorm),
        (T::Bc3RgbaUnormSrgb, W::Bc3RgbaUnormSrgb),
        (T::Bc4RUnorm, W::Bc4RUnorm),
        (T::Bc4RSnorm, W::Bc4RSnorm),
        (T::Bc5RgUnorm, W::Bc5RgUnorm),
        (T::Bc5RgSnorm, W::Bc5RgSnorm),
        (T::Bc6hRgbUfloat, W::Bc6hRgbUfloat),
        (T::Bc6hRgbFloat, W::Bc6hRgbFloat),
        (T::Bc7RgbaUnorm, W::Bc7RgbaUnorm),
        (T::Bc7RgbaUnormSrgb, W::Bc7RgbaUnormSrgb),
        (T::Etc2Rgb8Unorm, W::Etc2Rgb8Unorm),
        (T::Etc2Rgb8UnormSrgb, W::Etc2Rgb8UnormSrgb),
        (T::Etc2Rgb8A1Unorm, W::Etc2Rgb8A1Unorm),
        (T::Etc2Rgb8A1UnormSrgb, W::Etc2Rgb8A1UnormSrgb),
        (T::Etc2Rgba8Unorm, W::Etc2Rgba8Unorm),
        (T::Etc2Rgba8UnormSrgb, W::Etc2Rgba8UnormSrgb),
        (T::EacR11Unorm, W::EacR11Unorm),
        (T::EacR11Snorm, W::EacR11Snorm),
        (T::EacRg11Unorm, W::EacRg11Unorm),
        (T::EacRg11Snorm, W::EacRg11Snorm),
    ]
}

fn dimensions() -> Vec<(TextureDimension, wgpu_types::TextureDimension)> {
    vec![
        (TextureDimension::D1, wgpu_types::TextureDimension::D1),
        (TextureDimension::D2, wgpu_types::TextureDimension::D2),
        (TextureDimension::D3, wgpu_types::TextureDimension::D3),
    ]
}

fn sides() -> Vec<u32> {
    vec![0, 1, 2, 3, 4, 5, 7, 8, 9, 255, 256, 257, 800, 1023, 1024, 65535, 65536, 0x7fff_ffff, 0x8000_0000, u32::MAX - 4]
}

#[test]
fn block_dimensions_of_uncompressed_formats_are_one_by_one() {
    assert_eq!(TextureFormat::Rgba8UnormSrgb.block_dimensions(), (1, 1));
    assert_eq!(TextureFormat::Depth32Float.block_dimensions(), (1, 1));
    assert_eq!(TextureFormat::NV12.block_dimensions(), (1, 1));
}

#[test]
fn block_dimensions_of_compressed_formats_are_four_by_four() {
    assert_eq!(TextureFormat::Bc1RgbaUnorm.block_dimensions(), (4, 4));
    assert_eq!(TextureFormat::Bc7RgbaUnormSrgb.block_dimensions(), (4, 4));
    assert_eq!(TextureFormat::Etc2Rgb8Unorm.block_dimensions(), (4, 4));
    assert_eq!(TextureFormat::EacRg11Snorm.block_dimensions(), (4, 4));
}

#[test]
fn block_dimensions_agree_with_wgpu_for_every_format() {
    let all = pairs();
    assert_eq!(all.len(), 74);
    for (ours, theirs) in all {
        assert_eq!(ours.block_dimensions(), theirs.block_dimensions(), "{:?}", ours);
    }
}

#[test]
fn physical_size_pads_to_whole_blocks() {
    let padded = extent(7, 7, 1).physical_size(TextureFormat::Bc1RgbaUnormSrgb);
    assert_eq!(padded, extent(8, 8, 1));
    let exact = extent(8, 12, 3).physical_size(TextureFormat::Bc1RgbaUnormSrgb);
    assert_eq!(exact, extent(8, 12, 3));
    let one_more = extent(9, 1, 5).physical_size(TextureFormat::Etc2Rgba8Unorm);
    assert_eq!(one_more, extent(12, 4, 5));
    let empty = extent(0, 0, 0).physical_size(TextureFormat::Bc5RgUnorm);
    assert_eq!(empty, extent(0, 0, 0));
}

#[test]
fn physical_size_keeps_uncompressed_extents() {
    let same = extent(7, 13, 2).physical_size(TextureFormat::Rgba8Unorm);
    assert_eq!(same, extent(7, 13, 2));
    let large = extent(u32::MAX - 1, u32::MAX - 1, 1).physical_size(TextureFormat::R8Unorm);
    assert_eq!(large, extent(u32::MAX - 1, u32::MAX - 1, 1));
}

#[test]
fn physical_size_agrees_with_wgpu() {
    for (ours, theirs) in pairs() {
        for &width in &sides() {
            for &height in &[0u32, 1, 5, 8, 600, u32::MAX - 4] {
                let mine = extent(width, height, 6).physical_size(ours);
                let reference = wgpu_types::Extent3d { width, height, depth_or_array_layers: 6 }
                    .physical_size(theirs);
                assert_eq!(
                    (mine.width, mine.height, mine.depth_or_array_layers),
                    (reference.width, reference.height, reference.depth_or_array_layers)
                );
            }
        }
    }
}

#[test]
fn max_mips_counts_halvings_of_the_largest_side() {
    assert_eq!(extent(1, 1, 1).max_mips(TextureDimension::D2), 1);
    assert_eq!(extent(2, 1, 1).max_mips(TextureDimension::D2), 2);
    assert_eq!(extent(3, 1, 1).max_mips(TextureDimension::D2), 2);
    assert_eq!(extent(4, 1, 1).max_mips(TextureDimension::D2), 3);
    assert_eq!(extent(800, 600, 1).max_mips(TextureDimension::D2), 10);
    assert_eq!(extent(600, 1024, 1).max_mips(TextureDimension::D2), 11);
    assert_eq!(extent(u32::MAX, 1, 1).max_mips(TextureDimension::D2), 32);
    assert_eq!(extent(0, 0, 0).max_mips(TextureDimension::D2), 0);
}

#[test]
fn max_mips_is_one_for_one_dimensional_textures() {
    assert_eq!(extent(4096, 1, 1).max_mips(TextureDimension::D1), 1);
    assert_eq!(extent(0, 0, 0).max_mips(TextureDimension::D1), 1);
}

#[test]
fn max_mips_counts_depth_only_in_three_dimensions() {
    assert_eq!(extent(4, 4, 256).max_mips(TextureDimension::D2), 3);
    assert_eq!(extent(4, 4, 256).max_mips(TextureDimension::D3), 9);
    assert_eq!(extent(4, 64, 2).max_mips(TextureDimension::D3), 7);
}

#[test]
fn max_mips_agrees_with_wgpu() {
    for (ours, theirs) in dimensions() {
        for &width in &sides() {
            for &height in &sides() {
                for &depth in &[0u32, 1, 6, 4096, u32::MAX] {
                    let mine = extent(width, height, depth).max_mips(ours);
                    let reference =
                        wgpu_types::Extent3d { width, height, depth_or_array_layers: depth }
                            .max_mips(theirs);
                    assert_eq!(mine, reference);
                }
            }
        }
    }
}

#[test]
fn mip_level_size_halves_each_side_down_to_one() {
    let base = extent(800, 600, 1);
    assert_eq!(base.mip_level_size(0, TextureDimension::D2), extent(800, 600, 1));
    assert_eq!(base.mip_level_size(1, TextureDimension::D2), extent(400, 300, 1));
    assert_eq!(base.mip_level_size(3, TextureDimension::D2), extent(100, 75, 1));
    assert_eq!(base.mip_level_size(4, TextureDimension::D2), extent(50, 37, 1));
    assert_eq!(base.mip_level_size(9, TextureDimension::D2), extent(1, 1, 1));
    assert_eq!(base.mip_level_size(31, TextureDimension::D2), extent(1, 1, 1));
}

#[test]
fn mip_level_size_treats_layers_by_dimension() {
    let base = extent(64, 32, 16);
    assert_eq!(base.mip_level_size(2, TextureDimension::D1), extent(16, 1, 1));
    assert_eq!(base.mip_level_size(2, TextureDimension::D2), extent(16, 8, 16));
    assert_eq!(base.mip_level_size(2, TextureDimension::D3), extent(16, 8, 4));
    assert_eq!(base.mip_level_size(5, TextureDimension::D3), extent(2, 1, 1));
}

#[test]
fn mip_level_size_agrees_with_wgpu() {
    for (ours, theirs) in dimensions() {
        for level in 0..32u32 {
            for &width in &sides() {
                for &height in &[0u32, 1, 600, 65536, u32::MAX] {
                    let mine = extent(width, height, 77).mip_level_size(level, ours);
                    let reference =
                        wgpu_types::Extent3d { width, height, depth_or_array_layers: 77 }
                            .mip_level_size(level, theirs);
                    assert_eq!(
                        (mine.width, mine.height, mine.depth_or_array_layers),
                        (reference.width, reference.height, reference.depth_or_array_layers)
                    );
                }
            }
        }
    }
}

#[test]
fn default_extent_is_one_texel() {
    assert_eq!(Extent3d::default(), extent(1, 1, 1));
}

#[test]
fn default_sampler_descriptor_clamps_and_takes_nearest() {
    let descriptor = ImageSamplerDescriptor::default();
    assert_eq!(descriptor.address_mode_u, ImageAddressMode::ClampToEdge);
    assert_eq!(descriptor.address_mode_v, ImageAddressMode::ClampToEdge);
    assert_eq!(descriptor.address_mode_w, ImageAddressMode::ClampToEdge);
    assert_eq!(descriptor.mag_filter, ImageFilterMode::Nearest);
    assert_eq!(descriptor.min_filter, ImageFilterMode::Nearest);
    assert_eq!(descriptor.mipmap_filter, ImageFilterMode::Nearest);
    assert_eq!(f32::from_bits(descriptor.lod_min_clamp.to_bits()), 0.0);
    assert_eq!(f32::from_bits(descriptor.lod_max_clamp.to_bits()), 32.0);
    assert_eq!(descriptor.compare, None);
    assert_eq!(descriptor.anisotropy_clamp, 1);
    assert_eq!(descriptor.border_color, None);
    assert_eq!(descriptor.label, None);
}

#[test]
fn linear_sampler_sets_all_three_filters() {
    let descriptor = ImageSamplerDescriptor::linear();
    assert_eq!(descriptor.mag_filter, ImageFilterMode::Linear);
    assert_eq!(descriptor.min_filter, ImageFilterMode::Linear);
    assert_eq!(descriptor.mipmap_filter, ImageFilterMode::Linear);
    assert_eq!(descriptor.address_mode_u, ImageAddressMode::ClampToEdge);
    assert_eq!(f32::from_bits(descriptor.lod_max_clamp.to_bits()), 32.0);
    match ImageSampler::linear() {
        ImageSampler::Descriptor(inner) => assert_eq!(inner.mag_filter, ImageFilterMode::Linear),
        ImageSampler::Default => panic!("a described sampler was asked for"),
    }
}

#[test]
fn nearest_sampler_is_the_default_descriptor() {
    let descriptor = ImageSamplerDescriptor::nearest();
    assert_eq!(descriptor.mag_filter, ImageFilterMode::Nearest);
    assert_eq!(descriptor.min_filter, ImageFilterMode::Nearest);
    assert_eq!(descriptor.mipmap_filter, ImageFilterMode::Nearest);
    match ImageSampler::nearest() {
        ImageSampler::Descriptor(inner) => assert_eq!(inner.min_filter, ImageFilterMode::Nearest),
        ImageSampler::Default => panic!("a described sampler was asked for"),
    }
    assert!(matches!(ImageSampler::default(), ImageSampler::Default));
}
