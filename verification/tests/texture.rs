use suzy::png::{png_upload_plan, PixelLayout};
use suzy::texture::{image_texture_dims, next_power_of_two, row_alignment, PopulateTextureUtil, TextureDims};
use suzy::texture_key::TextureCacheKey;

#[test]
fn powers_of_two() {
    assert_eq!(next_power_of_two(0), 1);
    assert_eq!(next_power_of_two(1), 1);
    assert_eq!(next_power_of_two(3), 4);
    assert_eq!(next_power_of_two(64), 64);
    assert_eq!(next_power_of_two(65), 128);
    assert_eq!(next_power_of_two(65535), 65536);
}

#[test]
fn texture_dims() {
    assert_eq!(
        image_texture_dims(100, 30),
        Ok(TextureDims { width: 100, height: 30, texture_width: 128, texture_height: 32 })
    );
    assert_eq!(image_texture_dims(65536, 1), Err("image was too wide"));
    assert_eq!(image_texture_dims(40000, 1), Err("image was too wide"));
    assert_eq!(image_texture_dims(1, 65536), Err("image was too tall"));
    assert_eq!(image_texture_dims(1, 40000), Err("image was too tall"));
    assert_eq!(image_texture_dims(70000, 70000), Err("image was too wide"));
}

#[test]
fn padded_data_len() {
    assert_eq!(PopulateTextureUtil::data_len(3, 2, 1, 1), 6);
    assert_eq!(PopulateTextureUtil::data_len(3, 2, 4, 1), 8);
    assert_eq!(PopulateTextureUtil::data_len(5, 3, 2, 3), 48);
    assert_eq!(PopulateTextureUtil::data_len(4, 4, 4, 4), 64);
    assert_eq!(PopulateTextureUtil::data_len(0, 7, 4, 4), 0);
}

#[test]
fn row_alignments() {
    assert_eq!(row_alignment(12, 12), Ok(1));
    assert_eq!(row_alignment(13, 14), Ok(2));
    assert_eq!(row_alignment(13, 16), Ok(4));
    assert_eq!(row_alignment(9, 16), Ok(8));
    assert_eq!(row_alignment(13, 20), Err("png had incompatible alignment"));
}

#[test]
fn pixel_layouts() {
    assert_eq!(PixelLayout::Grayscale.samples(), 1);
    assert_eq!(PixelLayout::GrayscaleAlpha.samples(), 2);
    assert_eq!(PixelLayout::Rgb.samples(), 3);
    assert_eq!(PixelLayout::Rgba.samples(), 4);
    assert_eq!(PixelLayout::Grayscale.gl_format(), 0x1909);
    assert_eq!(PixelLayout::GrayscaleAlpha.gl_format(), 0x190A);
    assert_eq!(PixelLayout::Rgb.gl_format(), 0x1907);
    assert_eq!(PixelLayout::Rgba.gl_format(), 0x1908);
}

#[test]
fn png_plans() {
    let plan = png_upload_plan(5, 4, PixelLayout::Rgb, 16).unwrap();
    assert_eq!(plan.dims, TextureDims { width: 5, height: 4, texture_width: 8, texture_height: 4 });
    assert_eq!(plan.format, 0x1907);
    assert_eq!(plan.alignment, 2);
    assert!(!plan.fills_texture());
    let plan = png_upload_plan(13, 2, PixelLayout::Grayscale, 16).unwrap();
    assert_eq!(plan.alignment, 4);
    assert_eq!(plan.format, 0x1909);
    let plan = png_upload_plan(4, 4, PixelLayout::Rgba, 16).unwrap();
    assert_eq!(plan.alignment, 1);
    assert!(plan.fills_texture());
    assert_eq!(png_upload_plan(5, 4, PixelLayout::Rgb, 17), Err("png had incompatible alignment"));
    assert_eq!(png_upload_plan(70000, 4, PixelLayout::Rgb, 17), Err("image was too wide"));
}

#[test]
fn cache_keys() {
    assert!(TextureCacheKey::error().is_error());
    assert!(!TextureCacheKey::default().is_error());
    assert_ne!(TextureCacheKey::default(), TextureCacheKey::error());
    let a = TextureCacheKey::from(String::from("images/a.png"));
    assert_eq!(a, TextureCacheKey::from_path(String::from("images/a.png")));
    assert_ne!(a, TextureCacheKey::from_path(String::from("images/b.png")));
    assert!(!a.is_error());
}
