//! Images as the renderer keeps them: pixel data, the description of the
//! texture they become, and how they are sampled.

use crate::render::buffer::TEXTURE_LAYOUT_ROW_MAJOR;
use crate::render::render_target::FORMAT_R8G8B8A8_UNORM;
use crate::single::Single;
use vstd::prelude::*;

verus! {

/// The resource is a two-dimensional texture.
pub const RESOURCE_DIMENSION_TEXTURE2D: i32 = 3;

/// Four 8-bit channels, unsigned normalized, in sRGB.
pub const FORMAT_R8G8B8A8_UNORM_SRGB: i32 = 29;

/// Minification, magnification and mip level all take the nearest texel.
pub const FILTER_MIN_MAG_MIP_POINT: i32 = 0;

/// Coordinates outside the texture are clamped to its edge.
pub const TEXTURE_ADDRESS_MODE_CLAMP: i32 = 3;

/// The comparison that always passes.
pub const COMPARISON_FUNC_ALWAYS: i32 = 8;

/// Bit pattern of the largest finite single-precision number.
pub const MAX_LOD_BITS: u32 = 0x7f7f_ffff;

/// Number of bytes of one pixel.
pub const BYTES_PER_PIXEL: u32 = 4;

/// Width and height in pixels.
#[derive(Clone, Copy, PartialEq, Eq, Hash, Debug, Structural)]
pub struct Size {
    pub width: u32,
    pub height: u32,
}

/// Description of a sampler, field for field as the device takes it. The
/// border colour is given as red, green, blue and alpha.
#[derive(Clone, Copy, Debug)]
pub struct SamplerDesc {
    pub filter: i32,
    pub address_u: i32,
    pub address_v: i32,
    pub address_w: i32,
    pub mip_lod_bias: Single,
    pub max_anisotropy: u32,
    pub comparison_func: i32,
    pub border_color: [Single; 4],
    pub min_lod: Single,
    pub max_lod: Single,
}

/// How an image is sampled.
#[derive(Debug, Clone)]
pub struct Sampler {
    pub desc: SamplerDesc,
}

/// The region of a texture that one texel of sampler feedback stands for.
#[derive(Clone, Copy, Debug, PartialEq, Eq, Structural)]
pub struct MipRegion {
    pub width: u32,
    pub height: u32,
    pub depth: u32,
}

/// Description of a texture resource, field for field as the device takes
/// it.
#[derive(Clone, Copy, Debug, PartialEq, Eq, Structural)]
pub struct TextureResourceDesc {
    pub dimension: i32,
    pub alignment: u64,
    pub width: u64,
    pub height: u32,
    pub depth_or_array_size: u16,
    pub mip_levels: u16,
    pub format: i32,
    pub sample_count: u32,
    pub sample_quality: u32,
    pub layout: i32,
    pub flags: i32,
    pub sampler_feedback_mip_region: MipRegion,
}

/// An image: its pixels row by row, four bytes each; the texture it becomes;
/// its sampler; and the handle of its view, once it has one.
#[derive(Debug, Clone)]
pub struct Image {
    pub data: Vec<u8>,
    pub texture_descriptor: TextureResourceDesc,
    pub sampler: Sampler,
    pub texture_view_descriptor: Option<usize>,
}

/// The description of a texture of `width` by `height` texels in `format`:
/// one layer, one level, not multisampled, row-major, no flags.
pub open spec fn spec_texture_desc(
    dimension: i32,
    width: u64,
    height: u32,
    format: i32,
) -> TextureResourceDesc {
    TextureResourceDesc {
        dimension,
        alignment: 0,
        width,
        height,
        depth_or_array_size: 1,
        mip_levels: 1,
        format,
        sample_count: 1,
        sample_quality: 0,
        layout: TEXTURE_LAYOUT_ROW_MAJOR,
        flags: 0,
        sampler_feedback_mip_region: MipRegion { width: 1, height: 1, depth: 1 },
    }
}

/// The description of the default sampler: nearest texel, clamped to the
/// edge, no bias, no anisotropy, comparison always passes, transparent black
/// border, all levels of detail.
pub open spec fn spec_default_sampler_desc() -> SamplerDesc {
    SamplerDesc {
        filter: FILTER_MIN_MAG_MIP_POINT,
        address_u: TEXTURE_ADDRESS_MODE_CLAMP,
        address_v: TEXTURE_ADDRESS_MODE_CLAMP,
        address_w: TEXTURE_ADDRESS_MODE_CLAMP,
        mip_lod_bias: Single { bits: 0 },
        max_anisotropy: 1,
        comparison_func: COMPARISON_FUNC_ALWAYS,
        border_color: [Single { bits: 0 }, Single { bits: 0 }, Single { bits: 0 }, Single {
            bits: 0,
        }],
        min_lod: Single { bits: 0 },
        max_lod: Single { bits: MAX_LOD_BITS },
    }
}

/// Builds the description of a texture.
pub fn texture_desc(dimension: i32, width: u64, height: u32, format: i32) -> (desc:
    TextureResourceDesc)
    ensures
        desc == spec_texture_desc(dimension, width, height, format),
{
    TextureResourceDesc {
        dimension,
        alignment: 0,
        width,
        height,
        depth_or_array_size: 1,
        mip_levels: 1,
        format,
        sample_count: 1,
        sample_quality: 0,
        layout: TEXTURE_LAYOUT_ROW_MAJOR,
        flags: 0,
        sampler_feedback_mip_region: MipRegion { width: 1, height: 1, depth: 1 },
    }
}

impl Size {
    /// Number of pixels. It must fit in 32 bits.
    pub fn volume(&self) -> (volume: usize)
        requires
            self.width * self.height <= u32::MAX,
        ensures
            volume == self.width * self.height,
    {
        (self.width * self.height) as usize
    }
}

impl Default for Sampler {
    fn default() -> (sampler: Self)
        ensures
            sampler.desc == spec_default_sampler_desc(),
    {
        Sampler {
            desc: SamplerDesc {
                filter: FILTER_MIN_MAG_MIP_POINT,
                address_u: TEXTURE_ADDRESS_MODE_CLAMP,
                address_v: TEXTURE_ADDRESS_MODE_CLAMP,
                address_w: TEXTURE_ADDRESS_MODE_CLAMP,
                mip_lod_bias: Single::zero(),
                max_anisotropy: 1,
                comparison_func: COMPARISON_FUNC_ALWAYS,
                border_color: [Single::zero(), Single::zero(), Single::zero(), Single::zero()],
                min_lod: Single::zero(),
                max_lod: Single::from_bits(MAX_LOD_BITS),
            },
        }
    }
}

impl Image {
    /// One transparent white pixel, as a two-dimensional sRGB texture.
    pub fn new() -> (image: Self)
        ensures
            image.data@ == seq![255u8, 255u8, 255u8, 0u8],
            image.texture_descriptor == spec_texture_desc(
                RESOURCE_DIMENSION_TEXTURE2D,
                1,
                1,
                FORMAT_R8G8B8A8_UNORM_SRGB,
            ),
            image.sampler.desc == spec_default_sampler_desc(),
            image.texture_view_descriptor is None,
    {
        let format: i32 = FORMAT_R8G8B8A8_UNORM_SRGB;
        let mut data: Vec<u8> = Vec::new();
        data.push(255);
        data.push(255);
        data.push(255);
        data.push(0);
        proof {
            assert(data@ =~= seq![255u8, 255u8, 255u8, 0u8]);
        }
        Image {
            data,
            texture_descriptor: texture_desc(RESOURCE_DIMENSION_TEXTURE2D, 1, 1, format),
            sampler: Sampler::default(),
            texture_view_descriptor: None,
        }
    }

    /// The image of `size` whose pixels are `pixel`, four bytes each, row by
    /// row; as a texture of `dimension` in linear colour.
    pub fn from_buffer(size: Size, dimension: i32, pixel: &[u8]) -> (image: Self)
        requires
            pixel@.len() == size.width * size.height * BYTES_PER_PIXEL,
        ensures
            image.data@ == pixel@,
            image.texture_descriptor == spec_texture_desc(
                dimension,
                size.width as u64,
                size.height,
                FORMAT_R8G8B8A8_UNORM,
            ),
            image.sampler.desc == spec_default_sampler_desc(),
            image.texture_view_descriptor is None,
    {
        let mut data: Vec<u8> = Vec::new();
        let mut i: usize = 0;
        while i < pixel.len()
            invariant
                i <= pixel@.len(),
                data@ == pixel@.subrange(0, i as int),
            decreases pixel@.len() - i,
        {
            data.push(pixel[i]);
            proof {
                assert(data@ =~= pixel@.subrange(0, i + 1));
            }
            i = i + 1;
        }
        proof {
            assert(pixel@.subrange(0, pixel@.len() as int) =~= pixel@);
        }
        Image {
            data,
            texture_descriptor: texture_desc(
                dimension,
                size.width as u64,
                size.height,
                FORMAT_R8G8B8A8_UNORM,
            ),
            sampler: Sampler::default(),
            texture_view_descriptor: None,
        }
    }

    /// The width in texels: the low 32 bits of the described width.
    pub fn width(&self) -> (width: u32)
        ensures
            width == self.texture_descriptor.width % 0x1_0000_0000,
    {
        (self.texture_descriptor.width % 0x1_0000_0000) as u32
    }

    /// The height in texels.
    pub fn height(&self) -> (height: u32)
        ensures
            height == self.texture_descriptor.height,
    {
        self.texture_descriptor.height
    }
}

impl Default for Image {
    /// No pixels, and a description that is zero throughout.
    fn default() -> (image: Self)
        ensures
            image.data@ == Seq::<u8>::empty(),
            image.texture_descriptor == (TextureResourceDesc {
                dimension: 0,
                alignment: 0,
                width: 0,
                height: 0,
                depth_or_array_size: 0,
                mip_levels: 0,
                format: 0,
                sample_count: 0,
                sample_quality: 0,
                layout: 0,
                flags: 0,
                sampler_feedback_mip_region: MipRegion { width: 0, height: 0, depth: 0 },
            }),
            image.sampler.desc == spec_default_sampler_desc(),
            image.texture_view_descriptor is None,
    {
        Image {
            data: Vec::new(),
            texture_descriptor: TextureResourceDesc {
                dimension: 0,
                alignment: 0,
                width: 0,
                height: 0,
                depth_or_array_size: 0,
                mip_levels: 0,
                format: 0,
                sample_count: 0,
                sample_quality: 0,
                layout: 0,
                flags: 0,
                sampler_feedback_mip_region: MipRegion { width: 0, height: 0, depth: 0 },
            },
            sampler: Sampler::default(),
            texture_view_descriptor: None,
        }
    }
}

} // verus!
