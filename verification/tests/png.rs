use suzy::png::{load_png, png_frame_plan, PngFrame};
use suzy::texture::{TextureDims, UvRect};
use suzy::vertex::UvRectValues;

fn encode(width: u32, height: u32, color: png::ColorType, data: &[u8]) -> Vec<u8> {
    let mut out = Vec::new();
    {
        let mut encoder = png::Encoder::new(&mut out, width, height);
        encoder.set_color(color);
        encoder.set_depth(png::BitDepth::Eight);
        let mut writer = encoder.write_header().unwrap();
        writer.write_image_data(data).unwrap();
    }
    out
}

#[test]
fn loads_and_flips_rgb() {
    // 2x3 RGB: rows of 6 bytes
    let data: Vec<u8> = (0..18).collect();
    let bytes = encode(2, 3, png::ColorType::Rgb, &data);
    let (plan, size, pixels) = load_png(&bytes, false).unwrap();
    assert_eq!(plan.dims, TextureDims { width: 2, height: 3, texture_width: 2, texture_height: 4 });
    assert_eq!(plan.format, 0x1907);
    assert_eq!(plan.alignment, 1);
    assert_eq!(size.default_rect, UvRect::U16(UvRectValues { left: 0, right: 2, bottom: 0, top: 3 }));
    assert_eq!(size.uv_scale, [2, 4]);
    assert!(!size.is_sdf);
    let mut expected: Vec<u8> = (12..18).collect();
    expected.extend(6..12);
    expected.extend(0..6);
    assert_eq!(&pixels[..18], &expected[..]);
}

#[test]
fn loads_sdf_grayscale() {
    let bytes = encode(4, 1, png::ColorType::Grayscale, &[1, 2, 3, 4]);
    let (plan, size, pixels) = load_png(&bytes, true).unwrap();
    assert_eq!(plan.format, 0x1909);
    assert_eq!(plan.alignment, 1);
    assert!(size.is_sdf);
    assert_eq!(pixels, vec![1, 2, 3, 4]);
}

#[test]
fn rejects_bytes_that_do_not_decode() {
    assert!(load_png(b"not a png", false).is_err());
    assert!(load_png(&[], false).is_err());
}

#[test]
fn plans_decoded_frames() {
    let frame = PngFrame { width: 70000, height: 1, color_type: 6, bit_depth: 8, line_size: 280000, pixels: vec![] };
    assert_eq!(png_frame_plan(frame, false).map(|_| ()), Err(String::from("image was too wide")));
    let frame = PngFrame { width: 2, height: 2, color_type: 4, bit_depth: 8, line_size: 4, pixels: vec![1, 2, 3, 4, 5, 6, 7, 8] };
    let (_, _, pixels) = png_frame_plan(frame, false).unwrap();
    assert_eq!(pixels, vec![5, 6, 7, 8, 1, 2, 3, 4]);
}
