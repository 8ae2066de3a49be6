//! Texture extents, formats and sampler settings.

use crate::single::Single;
use vstd::arithmetic::power2::{lemma2_to64, lemma_pow2_pos, lemma_pow2_unfold, pow2};
use vstd::bits::lemma_u32_shr_is_div;
use vstd::prelude::*;
use vstd::std_specs::bits::{axiom_u32_leading_zeros, u32_leading_zeros};

verus! {

/// Multisampling parameters of a texture.
#[derive(Debug, Clone)]
pub struct SampleDesc {
    pub count: u32,
    pub quality: u32,
}

/// What a texture is made of: its extent, dimensionality, texel format and
/// sampling.
#[derive(Debug, Clone)]
pub struct TextureDescriptor {
    pub size: Extent3d,
    pub dimension: TextureDimension,
    pub format: TextureFormat,
    pub sample_desc: SampleDesc,
}

/// Extent of a texture in texels.
#[derive(Clone, Copy, PartialEq, Eq, Hash, Debug, Structural)]
pub struct Extent3d {
    pub width: u32,
    pub height: u32,
    pub depth_or_array_layers: u32,
}

/// Dimensionality of a texture.
#[derive(Copy, Clone, Debug, Hash, Eq, PartialEq, Structural)]
pub enum TextureDimension {
    D1,
    D2,
    D3,
}

/// Settings of a texture view; there are none yet.
pub struct TextureViewDescriptor;

/// How texture coordinates outside `[0, 1]` are treated.
#[derive(Clone, Copy, Debug, PartialEq, Eq, Structural)]
pub enum ImageAddressMode {
    ClampToEdge,
    Repeat,
    MirrorRepeat,
    ClampToBorder,
}

/// How texels are combined when a texture is magnified or minified.
#[derive(Clone, Copy, Debug, PartialEq, Eq, Structural)]
pub enum ImageFilterMode {
    Nearest,
    Linear,
}

/// Comparison applied by a comparison sampler.
#[derive(Clone, Copy, Debug, PartialEq, Eq, Structural)]
pub enum ImageCompareFunction {
    Never,
    Less,
    Equal,
    LessEqual,
    Greater,
    NotEqual,
    GreaterEqual,
    Always,
}

/// Colour read outside the texture under `ImageAddressMode::ClampToBorder`.
#[derive(Clone, Copy, Debug, PartialEq, Eq, Structural)]
pub enum ImageSamplerBorderColor {
    TransparentBlack,
    OpaqueBlack,
    OpaqueWhite,
    Zero,
}

/// Full description of a sampler.
#[derive(Clone, Debug)]
pub struct ImageSamplerDescriptor {
    pub label: Option<String>,
    pub address_mode_u: ImageAddressMode,
    pub address_mode_v: ImageAddressMode,
    pub address_mode_w: ImageAddressMode,
    pub mag_filter: ImageFilterMode,
    pub min_filter: ImageFilterMode,
    pub mipmap_filter: ImageFilterMode,
    pub lod_min_clamp: Single,
    pub lod_max_clamp: Single,
    pub compare: Option<ImageCompareFunction>,
    pub anisotropy_clamp: u16,
    pub border_color: Option<ImageSamplerBorderColor>,
}

/// The sampler of an image: the renderer's default one, or one described in
/// full.
#[derive(Debug, Clone)]
pub enum ImageSampler {
    Default,
    Descriptor(ImageSamplerDescriptor),
}

/// Texel format of a texture.
#[derive(Copy, Clone, Debug, Hash, Eq, PartialEq, Structural)]
pub enum TextureFormat {
    R8Unorm,
    R8Snorm,
    R8Uint,
    R8Sint,
    R16Uint,
    R16Sint,
    R16Unorm,
    R16Snorm,
    R16Float,
    Rg8Unorm,
    Rg8Snorm,
    Rg8Uint,
    Rg8Sint,
    R32Uint,
    R32Sint,
    R32Float,
    Rg16Uint,
    Rg16Sint,
    Rg16Unorm,
    Rg16Snorm,
    Rg16Float,
    Rgba8Unorm,
    Rgba8UnormSrgb,
    Rgba8Snorm,
    Rgba8Uint,
    Rgba8Sint,
    Bgra8Unorm,
    Bgra8UnormSrgb,
    Rgb9e5Ufloat,
    Rgb10a2Uint,
    Rgb10a2Unorm,
    Rg11b10Float,
    Rg32Uint,
    Rg32Sint,
    Rg32Float,
    Rgba16Uint,
    Rgba16Sint,
    Rgba16Unorm,
    Rgba16Snorm,
    Rgba16Float,
    Rgba32Uint,
    Rgba32Sint,
    Rgba32Float,
    Stencil8,
    Depth16Unorm,
    Depth24Plus,
    Depth24PlusStencil8,
    Depth32Float,
    Depth32FloatStencil8,
    NV12,
    Bc1RgbaUnorm,
    Bc1RgbaUnormSrgb,
    Bc2RgbaUnorm,
    Bc2RgbaUnormSrgb,
    Bc3RgbaUnorm,
    Bc3RgbaUnormSrgb,
    Bc4RUnorm,
    Bc4RSnorm,
    Bc5RgUnorm,
    Bc5RgSnorm,
    Bc6hRgbUfloat,
    Bc6hRgbFloat,
    Bc7RgbaUnorm,
    Bc7RgbaUnormSrgb,
    Etc2Rgb8Unorm,
    Etc2Rgb8UnormSrgb,
    Etc2Rgb8A1Unorm,
    Etc2Rgb8A1UnormSrgb,
    Etc2Rgba8Unorm,
    Etc2Rgba8UnormSrgb,
    EacR11Unorm,
    EacR11Snorm,
    EacRg11Unorm,
    EacRg11Snorm,
}

/// Bit pattern of `32.0`, the largest level of detail a sampler clamps to by
/// default.
pub const DEFAULT_LOD_MAX_CLAMP_BITS: u32 = 0x4200_0000;

/// The least multiple of `block` that is not below `value`.
pub open spec fn spec_round_up(value: int, block: int) -> int
    recommends
        block > 0,
{
    ((value + block - 1) / block) * block
}

/// How many times `n` can be halved, rounding down, before it is zero: the
/// length of the mip chain of a texture whose largest side is `n`.
pub open spec fn spec_halvings(n: nat) -> nat
    decreases n,
{
    if n == 0 {
        0
    } else {
        1 + spec_halvings(n / 2)
    }
}

/// `n` shifted down by `level` mip levels, but at least 1.
pub open spec fn spec_mip_extent(n: u32, level: u32) -> int {
    let shrunk = (n as nat) / pow2(level as nat);
    if shrunk < 1 {
        1
    } else {
        shrunk as int
    }
}

/// `spec_round_up` gives a multiple of the block that is the least one not
/// below the value.
pub proof fn lemma_round_up_is_least_multiple(value: int, block: int)
    requires
        value >= 0,
        block > 0,
    ensures
        spec_round_up(value, block) % block == 0,
        value <= spec_round_up(value, block) < value + block,
{
    let q = (value + block - 1) / block;
    vstd::arithmetic::div_mod::lemma_fundamental_div_mod(value + block - 1, block);
    vstd::arithmetic::div_mod::lemma_mod_multiples_basic(q, block);
    vstd::arithmetic::div_mod::lemma_mod_bound(value + block - 1, block);
    assert(q * block == block * q) by (nonlinear_arith);
}

/// A number between `2^(k-1)` and `2^k` can be halved exactly `k` times.
pub proof fn lemma_halvings_of_range(n: nat, k: nat)
    requires
        k >= 1,
        pow2((k - 1) as nat) <= n < pow2(k),
    ensures
        spec_halvings(n) == k,
    decreases k,
{
    lemma2_to64();
    if k == 1 {
        assert(n == 1);
        assert(spec_halvings(1) == 1 + spec_halvings(0));
    } else {
        lemma_pow2_unfold(k);
        lemma_pow2_unfold((k - 1) as nat);
        lemma_halvings_of_range(n / 2, (k - 1) as nat);
    }
}

/// The position of the highest set bit, counted from one, is the number of
/// halvings.
pub proof fn lemma_halvings_from_leading_zeros(n: u32)
    ensures
        32 - u32_leading_zeros(n) == spec_halvings(n as nat),
{
    axiom_u32_leading_zeros(n);
    lemma2_to64();
    if n != 0 {
        let zeros: u32 = u32_leading_zeros(n);
        let k: u32 = (32 - zeros) as u32;
        let top: u32 = (k - 1) as u32;
        assert((n >> top) & 1u32 != 0u32);
        lemma_u32_shr_is_div(n, top);
        lemma_pow2_pos(top as nat);
        assert((n >> top) != 0u32) by (bit_vector)
            requires
                (n >> top) & 1u32 != 0u32,
        ;
        assert(n as nat >= pow2(top as nat)) by (nonlinear_arith)
            requires
                n as nat / pow2(top as nat) >= 1,
                pow2(top as nat) > 0,
        ;
        if k < 32 {
            lemma_u32_shr_is_div(n, k);
            lemma_pow2_pos(k as nat);
            assert((n as nat) < pow2(k as nat)) by (nonlinear_arith)
                requires
                    n as nat / pow2(k as nat) == 0,
                    pow2(k as nat) > 0,
            ;
        } else {
            vstd::arithmetic::power2::lemma2_to64_rest();
        }
        lemma_halvings_of_range(n as nat, k as nat);
    }
}

impl Default for Extent3d {
    /// One texel.
    fn default() -> (extent: Self)
        ensures
            extent == (Extent3d { width: 1, height: 1, depth_or_array_layers: 1 }),
    {
        Extent3d { width: 1, height: 1, depth_or_array_layers: 1 }
    }
}

impl Default for ImageAddressMode {
    fn default() -> (mode: Self)
        ensures
            mode == ImageAddressMode::ClampToEdge,
    {
        ImageAddressMode::ClampToEdge
    }
}

impl Default for ImageFilterMode {
    fn default() -> (mode: Self)
        ensures
            mode == ImageFilterMode::Nearest,
    {
        ImageFilterMode::Nearest
    }
}

impl TextureFormat {
    /// Whether texels are stored in compressed blocks of 4 by 4.
    pub open spec fn spec_is_block_compressed(self) -> bool {
        match self {
            TextureFormat::Bc1RgbaUnorm
            | TextureFormat::Bc1RgbaUnormSrgb
            | TextureFormat::Bc2RgbaUnorm
            | TextureFormat::Bc2RgbaUnormSrgb
            | TextureFormat::Bc3RgbaUnorm
            | TextureFormat::Bc3RgbaUnormSrgb
            | TextureFormat::Bc4RUnorm
            | TextureFormat::Bc4RSnorm
            | TextureFormat::Bc5RgUnorm
            | TextureFormat::Bc5RgSnorm
            | TextureFormat::Bc6hRgbUfloat
            | TextureFormat::Bc6hRgbFloat
            | TextureFormat::Bc7RgbaUnorm
            | TextureFormat::Bc7RgbaUnormSrgb
            | TextureFormat::Etc2Rgb8Unorm
            | TextureFormat::Etc2Rgb8UnormSrgb
            | TextureFormat::Etc2Rgb8A1Unorm
            | TextureFormat::Etc2Rgb8A1UnormSrgb
            | TextureFormat::Etc2Rgba8Unorm
            | TextureFormat::Etc2Rgba8UnormSrgb
            | TextureFormat::EacR11Unorm
            | TextureFormat::EacR11Snorm
            | TextureFormat::EacRg11Unorm
            | TextureFormat::EacRg11Snorm => true,
            _ => false,
        }
    }

    /// Width and height of one block of the format.
    pub open spec fn spec_block_dimensions(self) -> (u32, u32) {
        if self.spec_is_block_compressed() {
            (4u32, 4u32)
        } else {
            (1u32, 1u32)
        }
    }

    /// Width and height, in texels, of the blocks the format is stored in:
    /// 4 by 4 for the BC, ETC2 and EAC formats, 1 by 1 for all others.
    pub fn block_dimensions(&self) -> (dims: (u32, u32))
        ensures
            dims == self.spec_block_dimensions(),
    {
        match self {
            TextureFormat::Bc1RgbaUnorm
            | TextureFormat::Bc1RgbaUnormSrgb
            | TextureFormat::Bc2RgbaUnorm
            | TextureFormat::Bc2RgbaUnormSrgb
            | TextureFormat::Bc3RgbaUnorm
            | TextureFormat::Bc3RgbaUnormSrgb
            | TextureFormat::Bc4RUnorm
            | TextureFormat::Bc4RSnorm
            | TextureFormat::Bc5RgUnorm
            | TextureFormat::Bc5RgSnorm
            | TextureFormat::Bc6hRgbUfloat
            | TextureFormat::Bc6hRgbFloat
            | TextureFormat::Bc7RgbaUnorm
            | TextureFormat::Bc7RgbaUnormSrgb
            | TextureFormat::Etc2Rgb8Unorm
            | TextureFormat::Etc2Rgb8UnormSrgb
            | TextureFormat::Etc2Rgb8A1Unorm
            | TextureFormat::Etc2Rgb8A1UnormSrgb
            | TextureFormat::Etc2Rgba8Unorm
            | TextureFormat::Etc2Rgba8UnormSrgb
            | TextureFormat::EacR11Unorm
            | TextureFormat::EacR11Snorm
            | TextureFormat::EacRg11Unorm
            | TextureFormat::EacRg11Snorm => (4, 4),
            _ => (1, 1),
        }
    }
}

impl Extent3d {
    /// The extent padded to whole blocks of `format`.
    pub open spec fn spec_physical_size(self, format: TextureFormat) -> Extent3d {
        Extent3d {
            width: spec_round_up(
                self.width as int,
                format.spec_block_dimensions().0 as int,
            ) as u32,
            height: spec_round_up(
                self.height as int,
                format.spec_block_dimensions().1 as int,
            ) as u32,
            depth_or_array_layers: self.depth_or_array_layers,
        }
    }

    /// The largest of the sides that take part in mipmapping under `dim`.
    pub open spec fn spec_largest_side(self, dim: TextureDimension) -> u32 {
        let flat = if self.width >= self.height {
            self.width
        } else {
            self.height
        };
        match dim {
            TextureDimension::D1 => 1u32,
            TextureDimension::D2 => flat,
            TextureDimension::D3 => if flat >= self.depth_or_array_layers {
                flat
            } else {
                self.depth_or_array_layers
            },
        }
    }

    /// The extent of mip level `level`.
    pub open spec fn spec_mip_level_size(self, level: u32, dim: TextureDimension) -> Extent3d {
        Extent3d {
            width: spec_mip_extent(self.width, level) as u32,
            height: match dim {
                TextureDimension::D1 => 1u32,
                _ => spec_mip_extent(self.height, level) as u32,
            },
            depth_or_array_layers: match dim {
                TextureDimension::D1 => 1u32,
                TextureDimension::D2 => self.depth_or_array_layers,
                TextureDimension::D3 => spec_mip_extent(self.depth_or_array_layers, level) as u32,
            },
        }
    }

    /// The extent of the memory that backs a texture of this extent in
    /// `format`: width and height are padded to whole blocks, the depth is
    /// kept.
    ///
    /// Each side and the block size along it must together fit in 32 bits.
    pub fn physical_size(&self, format: TextureFormat) -> (padded: Self)
        requires
            self.width + format.spec_block_dimensions().0 <= u32::MAX,
            self.height + format.spec_block_dimensions().1 <= u32::MAX,
        ensures
            padded == self.spec_physical_size(format),
            padded.depth_or_array_layers == self.depth_or_array_layers,
            padded.width % format.spec_block_dimensions().0 == 0,
            padded.height % format.spec_block_dimensions().1 == 0,
            self.width <= padded.width < self.width + format.spec_block_dimensions().0,
            self.height <= padded.height < self.height + format.spec_block_dimensions().1,
    {
        let (block_width, block_height) = format.block_dimensions();
        proof {
            lemma_round_up_is_least_multiple(self.width as int, block_width as int);
            lemma_round_up_is_least_multiple(self.height as int, block_height as int);
        }
        let width: u32 = ((self.width + block_width - 1) / block_width) * block_width;
        let height: u32 = ((self.height + block_height - 1) / block_height) * block_height;

        Extent3d { width, height, depth_or_array_layers: self.depth_or_array_layers }
    }

    /// The largest possible number of mip levels: 1 for a one-dimensional
    /// texture, else the number of times the largest side can be halved
    /// before it vanishes. The depth counts as a side only for `D3`.
    pub fn max_mips(&self, dim: TextureDimension) -> (mips: u32)
        ensures
            dim == TextureDimension::D1 ==> mips == 1,
            dim != TextureDimension::D1 ==> mips == spec_halvings(
                self.spec_largest_side(dim) as nat,
            ),
            mips <= 32,
    {
        match dim {
            TextureDimension::D1 => 1,
            TextureDimension::D2 => {
                let max_dim: u32 = if self.width >= self.height {
                    self.width
                } else {
                    self.height
                };
                proof {
                    lemma_halvings_from_leading_zeros(max_dim);
                    axiom_u32_leading_zeros(max_dim);
                }
                32 - max_dim.leading_zeros()
            },
            TextureDimension::D3 => {
                let flat: u32 = if self.width >= self.height {
                    self.width
                } else {
                    self.height
                };
                let max_dim: u32 = if flat >= self.depth_or_array_layers {
                    flat
                } else {
                    self.depth_or_array_layers
                };
                proof {
                    lemma_halvings_from_leading_zeros(max_dim);
                    axiom_u32_leading_zeros(max_dim);
                }
                32 - max_dim.leading_zeros()
            },
        }
    }

    /// The extent at mip level `level`: each side that takes part in
    /// mipmapping is halved `level` times, rounding down, and is at least 1.
    /// A one-dimensional texture has height and depth 1; a two-dimensional one
    /// keeps its layer count.
    pub fn mip_level_size(&self, level: u32, dim: TextureDimension) -> (mip: Self)
        requires
            level < 32,
        ensures
            mip == self.spec_mip_level_size(level, dim),
            mip.width >= 1,
    {
        proof {
            lemma_u32_shr_is_div(self.width, level);
            lemma_u32_shr_is_div(self.height, level);
            lemma_u32_shr_is_div(self.depth_or_array_layers, level);
        }
        let width: u32 = at_least_one(self.width >> level);
        let height: u32 = match dim {
            TextureDimension::D1 => 1,
            _ => at_least_one(self.height >> level),
        };
        let depth_or_array_layers: u32 = match dim {
            TextureDimension::D1 => 1,
            TextureDimension::D2 => self.depth_or_array_layers,
            TextureDimension::D3 => at_least_one(self.depth_or_array_layers >> level),
        };
        Extent3d { width, height, depth_or_array_layers }
    }
}

fn at_least_one(n: u32) -> (r: u32)
    ensures
        r == if n < 1 { 1u32 } else { n },
{
    if n < 1 {
        1
    } else {
        n
    }
}

impl Default for ImageSamplerDescriptor {
    /// Clamp to the edge, nearest filtering, levels of detail from 0 to 32,
    /// no comparison, no anisotropy, no border colour, no label.
    fn default() -> (descriptor: Self)
        ensures
            descriptor == ImageSamplerDescriptor::spec_with_filter(ImageFilterMode::Nearest),
    {
        ImageSamplerDescriptor {
            address_mode_u: ImageAddressMode::ClampToEdge,
            address_mode_v: ImageAddressMode::ClampToEdge,
            address_mode_w: ImageAddressMode::ClampToEdge,
            mag_filter: ImageFilterMode::Nearest,
            min_filter: ImageFilterMode::Nearest,
            mipmap_filter: ImageFilterMode::Nearest,
            lod_min_clamp: Single { bits: 0 },
            lod_max_clamp: Single { bits: DEFAULT_LOD_MAX_CLAMP_BITS },
            compare: None,
            anisotropy_clamp: 1,
            border_color: None,
            label: None,
        }
    }
}

impl ImageSamplerDescriptor {
    /// The default descriptor with all three filters set to `filter`.
    pub open spec fn spec_with_filter(filter: ImageFilterMode) -> ImageSamplerDescriptor {
        ImageSamplerDescriptor {
            address_mode_u: ImageAddressMode::ClampToEdge,
            address_mode_v: ImageAddressMode::ClampToEdge,
            address_mode_w: ImageAddressMode::ClampToEdge,
            mag_filter: filter,
            min_filter: filter,
            mipmap_filter: filter,
            lod_min_clamp: Single { bits: 0 },
            lod_max_clamp: Single { bits: DEFAULT_LOD_MAX_CLAMP_BITS },
            compare: None,
            anisotropy_clamp: 1,
            border_color: None,
            label: None,
        }
    }

    /// A sampler that filters linearly in all three respects.
    pub fn linear() -> (descriptor: ImageSamplerDescriptor)
        ensures
            descriptor == ImageSamplerDescriptor::spec_with_filter(ImageFilterMode::Linear),
    {
        let mut descriptor = ImageSamplerDescriptor::default();
        descriptor.mag_filter = ImageFilterMode::Linear;
        descriptor.min_filter = ImageFilterMode::Linear;
        descriptor.mipmap_filter = ImageFilterMode::Linear;
        descriptor
    }

    /// A sampler that takes the nearest texel in all three respects.
    pub fn nearest() -> (descriptor: ImageSamplerDescriptor)
        ensures
            descriptor == ImageSamplerDescriptor::spec_with_filter(ImageFilterMode::Nearest),
    {
        ImageSamplerDescriptor::default()
    }
}

impl Default for ImageSampler {
    fn default() -> (sampler: Self)
        ensures
            sampler == ImageSampler::Default,
    {
        ImageSampler::Default
    }
}

impl ImageSampler {
    /// A sampler described as filtering linearly.
    pub fn linear() -> (sampler: ImageSampler)
        ensures
            sampler == ImageSampler::Descriptor(
                ImageSamplerDescriptor::spec_with_filter(ImageFilterMode::Linear),
            ),
    {
        ImageSampler::Descriptor(ImageSamplerDescriptor::linear())
    }

    /// A sampler described as taking the nearest texel.
    pub fn nearest() -> (sampler: ImageSampler)
        ensures
            sampler == ImageSampler::Descriptor(
                ImageSamplerDescriptor::spec_with_filter(ImageFilterMode::Nearest),
            ),
    {
        ImageSampler::Descriptor(ImageSamplerDescriptor::nearest())
    }
}

} // verus!
