use bevy_arca::scene::image::{
    texture_desc, Image, MipRegion, Sampler, Size, TextureResourceDesc,
};

#[test]
fn size_volume_is_the_number_of_pixels() {
    assert_eq!(Size { width: 800, height: 600 }.volume(), 480_000);
    assert_eq!(Size { width: 0, height: 600 }.volume(), 0);
    assert_eq!(Size { width: 65_535, height: 65_537 }.volume(), 4_294_967_295);
}

#[test]
fn default_sampler_takes_the_nearest_texel_clamped() {
    let desc = Sampler::default().desc;
    assert_eq!(desc.filter, 0);
    assert_eq!(desc.address_u, 3);
    assert_eq!(desc.address_v, 3);
    assert_eq!(desc.address_w, 3);
    assert_eq!(f32::from_bits(desc.mip_lod_bias.to_bits()), 0.0);
    assert_eq!(desc.max_anisotropy, 1);
    assert_eq!(desc.comparison_func, 8);
    for channel in desc.border_color {
        assert_eq!(f32::from_bits(channel.to_bits()), 0.0);
    }
    assert_eq!(f32::from_bits(desc.min_lod.to_bits()), 0.0);
    assert_eq!(f32::from_bits(desc.max_lod.to_bits()), f32::MAX);
}

#[test]
fn new_image_is_one_transparent_white_pixel() {
    let image = Image::new();
    assert_eq!(image.data, vec![255, 255, 255, 0]);
    assert_eq!(
        image.texture_descriptor,
        TextureResourceDesc {
            dimension: 3,
            alignment: 0,
            width: 1,
            height: 1,
            depth_or_array_size: 1,
            mip_levels: 1,
            format: 29,
            sample_count: 1,
            sample_quality: 0,
            layout: 1,
            flags: 0,
            sampler_feedback_mip_region: MipRegion { width: 1, height: 1, depth: 1 },
        }
    );
    assert_eq!(image.texture_view_descriptor, None);
    assert_eq!(image.width(), 1);
    assert_eq!(image.height(), 1);
}

#[test]
fn image_from_buffer_keeps_the_pixels() {
    let pixels: Vec<u8> = (0..24).collect();
    let image = Image::from_buffer(Size { width: 3, height: 2 }, 3, &pixels);
    assert_eq!(image.data, pixels);
    assert_eq!(image.texture_descriptor, texture_desc(3, 3, 2, 28));
    assert_eq!(image.width(), 3);
    assert_eq!(image.height(), 2);
    assert_eq!(image.texture_view_descriptor, None);
    let empty = Image::from_buffer(Size { width: 0, height: 7 }, 3, &[]);
    assert!(empty.data.is_empty());
    assert_eq!(empty.height(), 7);
}

#[test]
fn image_width_is_the_low_half_of_the_described_width() {
    let mut image = Image::new();
    image.texture_descriptor.width = 0x1_0000_0005;
    assert_eq!(image.width(), 5);
    image.texture_descriptor.width = u32::MAX as u64;
    assert_eq!(image.width(), u32::MAX);
}

#[test]
fn default_image_is_empty() {
    let image = Image::default();
    assert!(image.data.is_empty());
    assert_eq!(image.width(), 0);
    assert_eq!(image.height(), 0);
    assert_eq!(image.texture_descriptor.format, 0);
    assert_eq!(image.sampler.desc.comparison_func, 8);
}
