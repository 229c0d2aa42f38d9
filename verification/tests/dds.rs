use suzy::dds::{
    check_data_len, dds_dims, dds_upload_plan, dx10_format, flip_for_format, format_for_four_cc,
    parse_dds_header, parse_dds_header_dx10, read_le_u32, DdsHeaderDxt10, Fmt, FourCcFormat,
    FOUR_CC_DX10, FOUR_CC_DXT1, FOUR_CC_DXT3, FOUR_CC_DXT5,
};
use suzy::flip::{flip_bc1, flip_bc2, flip_bc3};
use suzy::texture::TextureDims;

fn put(h: &mut [u8], at: usize, v: u32) {
    h[at..at + 4].copy_from_slice(&v.to_le_bytes());
}

fn header(width: u32, height: u32, len: u32, pf_flags: u32, four_cc: &[u8; 4]) -> Vec<u8> {
    let mut h = vec![0u8; 128];
    h[0..4].copy_from_slice(b"DDS ");
    put(&mut h, 4, 124);
    put(&mut h, 12, height);
    put(&mut h, 16, width);
    put(&mut h, 20, len);
    put(&mut h, 28, 1);
    put(&mut h, 76, 32);
    put(&mut h, 80, pf_flags);
    h[84..88].copy_from_slice(four_cc);
    h
}

#[test]
fn four_cc_constants_spell_names() {
    assert_eq!(FOUR_CC_DXT1, u32::from_le_bytes(*b"DXT1"));
    assert_eq!(FOUR_CC_DXT3, u32::from_le_bytes(*b"DXT3"));
    assert_eq!(FOUR_CC_DXT5, u32::from_le_bytes(*b"DXT5"));
    assert_eq!(FOUR_CC_DX10, u32::from_le_bytes(*b"DX10"));
}

#[test]
fn reads_little_endian_words() {
    assert_eq!(read_le_u32(&[1, 2, 3, 4, 5], 1), 0x05040302);
}

#[test]
fn parses_header() {
    let h = parse_dds_header(&header(64, 32, 1024, 4, b"DXT5")).unwrap();
    assert_eq!(h.width, 64);
    assert_eq!(h.height, 32);
    assert_eq!(h.pitch_or_data_len, 1024);
    assert_eq!(h.mipmap_count, 1);
    assert_eq!(h.four_cc, FOUR_CC_DXT5);
}

#[test]
fn rejects_bad_headers() {
    let mut h = header(4, 4, 8, 4, b"DXT1");
    h[0] = b'X';
    assert_eq!(parse_dds_header(&h), Err("not a dds file"));
    let mut h = header(4, 4, 8, 4, b"DXT1");
    put(&mut h, 4, 100);
    assert_eq!(parse_dds_header(&h), Err("not a dds file"));
    let mut h = header(4, 4, 8, 4, b"DXT1");
    put(&mut h, 76, 31);
    assert_eq!(parse_dds_header(&h), Err("not a dds file"));
    let h = header(4, 4, 8, 0x40, b"DXT1");
    assert_eq!(parse_dds_header(&h), Err("unsupported texture format"));
}

#[test]
fn parses_dx10_header() {
    let mut h = vec![0u8; 20];
    put(&mut h, 0, 71);
    put(&mut h, 4, 3);
    put(&mut h, 8, 0);
    put(&mut h, 12, 1);
    put(&mut h, 16, 3);
    let d = parse_dds_header_dx10(&h);
    assert_eq!(
        d,
        DdsHeaderDxt10 {
            dxgi_format: 71,
            resource_dimension: 3,
            misc_flag: 0,
            array_size: 1,
            misc_flags2: 3
        }
    );
    assert_eq!(dx10_format(&d), Ok(Fmt::Bc1Opaque));
}

#[test]
fn four_cc_formats() {
    assert_eq!(format_for_four_cc(FOUR_CC_DXT1), Ok(FourCcFormat::Known(Fmt::Bc1)));
    assert_eq!(format_for_four_cc(FOUR_CC_DXT3), Ok(FourCcFormat::Known(Fmt::Bc2)));
    assert_eq!(format_for_four_cc(FOUR_CC_DXT5), Ok(FourCcFormat::Known(Fmt::Bc3)));
    assert_eq!(format_for_four_cc(FOUR_CC_DX10), Ok(FourCcFormat::NeedsDx10));
    assert_eq!(
        format_for_four_cc(u32::from_le_bytes(*b"ATI2")),
        Err("DDS texture data was in an unsupported format")
    );
}

fn dx10(dxgi_format: u32, resource_dimension: u32, misc_flags2: u32) -> DdsHeaderDxt10 {
    DdsHeaderDxt10 { dxgi_format, resource_dimension, misc_flag: 0, array_size: 1, misc_flags2 }
}

#[test]
fn dx10_formats() {
    assert_eq!(dx10_format(&dx10(70, 3, 0)), Ok(Fmt::Bc1));
    assert_eq!(dx10_format(&dx10(72, 3, 3)), Ok(Fmt::Bc1Opaque));
    assert_eq!(dx10_format(&dx10(72, 3, 11)), Ok(Fmt::Bc1Opaque));
    assert_eq!(dx10_format(&dx10(73, 3, 3)), Ok(Fmt::Bc2));
    assert_eq!(dx10_format(&dx10(78, 3, 0)), Ok(Fmt::Bc3));
    assert_eq!(dx10_format(&dx10(69, 3, 0)), Err("DDS texture data was in an unsupported format"));
    assert_eq!(dx10_format(&dx10(79, 3, 0)), Err("DDS texture data was in an unsupported format"));
    assert_eq!(dx10_format(&dx10(71, 2, 0)), Err("only 2D textures are supported"));
}

#[test]
fn gl_formats() {
    assert_eq!(Fmt::Bc1Opaque.gl_format(), 0x83F0);
    assert_eq!(Fmt::Bc1.gl_format(), 0x83F1);
    assert_eq!(Fmt::Bc2.gl_format(), 0x83F2);
    assert_eq!(Fmt::Bc3.gl_format(), 0x83F3);
}

#[test]
fn data_len_checks() {
    assert_eq!(check_data_len(Fmt::Bc1, 4, 4, 8), Ok(()));
    assert_eq!(check_data_len(Fmt::Bc1, 5, 4, 16), Ok(()));
    assert_eq!(check_data_len(Fmt::Bc3, 8, 8, 64), Ok(()));
    assert_eq!(
        check_data_len(Fmt::Bc2, 8, 8, 63),
        Err("DDS data len did not match the expected length")
    );
}

#[test]
fn dims_of_headers() {
    let h = parse_dds_header(&header(100, 64, 0, 4, b"DXT1")).unwrap();
    assert_eq!(
        dds_dims(&h),
        Ok(TextureDims { width: 100, height: 64, texture_width: 128, texture_height: 64 })
    );
    let h = parse_dds_header(&header(40000, 64, 0, 4, b"DXT1")).unwrap();
    assert_eq!(dds_dims(&h), Err("image was too wide"));
    let h = parse_dds_header(&header(64, 70000, 0, 4, b"DXT1")).unwrap();
    assert_eq!(dds_dims(&h), Err("image was too tall"));
}

#[test]
fn upload_plans() {
    let dims = TextureDims { width: 8, height: 8, texture_width: 8, texture_height: 8 };
    let plan = dds_upload_plan(dims, Fmt::Bc3, 64, &[0x83F0, 0x83F3]).unwrap();
    assert_eq!(plan.gl_format, 0x83F3);
    assert_eq!(plan.data_len, 64);
    assert!(plan.fills_texture());
    assert_eq!(
        dds_upload_plan(dims, Fmt::Bc3, 64, &[0x83F0]),
        Err("gpu did not support this kind of compressed texture")
    );
    assert_eq!(
        dds_upload_plan(dims, Fmt::Bc3, 65, &[0x83F3]),
        Err("DDS data len did not match the expected length")
    );
    let dims = TextureDims { width: 6, height: 8, texture_width: 8, texture_height: 8 };
    let plan = dds_upload_plan(dims, Fmt::Bc1, 32, &[0x83F1]).unwrap();
    assert!(!plan.fills_texture());
}

#[test]
fn flips_bc1() {
    let mut data: Vec<u8> = (0..16).collect();
    flip_bc1(&mut data, 4);
    assert_eq!(data, vec![8, 9, 10, 11, 15, 14, 13, 12, 0, 1, 2, 3, 7, 6, 5, 4]);
    flip_bc1(&mut data, 4);
    assert_eq!(data, (0..16).collect::<Vec<u8>>());
}

#[test]
fn flips_bc2() {
    let mut data: Vec<u8> = (0..16).collect();
    flip_bc2(&mut data, 3);
    assert_eq!(data, vec![6, 7, 4, 5, 2, 3, 0, 1, 8, 9, 10, 11, 15, 14, 13, 12]);
}

#[test]
fn flips_bc3() {
    // alpha rows 0x123, 0x456, 0x789, 0xABC, packed little-endian
    let block = [1, 2, 0x23, 0x61, 0x45, 0x89, 0xC7, 0xAB, 8, 9, 10, 11, 12, 13, 14, 15];
    let mut data = block.to_vec();
    flip_bc3(&mut data, 4);
    assert_eq!(
        data,
        vec![1, 2, 0xBC, 0x9A, 0x78, 0x56, 0x34, 0x12, 8, 9, 10, 11, 15, 14, 13, 12]
    );
    flip_bc3(&mut data, 4);
    assert_eq!(data, block.to_vec());
}

#[test]
fn flips_rows_of_blocks() {
    // two blocks across, two rows of blocks, plus a trailing partial row
    let mut data: Vec<u8> = (0..36).collect();
    flip_for_format(Fmt::Bc1, &mut data, 8);
    let mut expected: Vec<u8> = Vec::new();
    for b in [2u8, 3, 0, 1] {
        let s = b * 8;
        expected.extend_from_slice(&[s, s + 1, s + 2, s + 3, s + 7, s + 6, s + 5, s + 4]);
    }
    expected.extend_from_slice(&[32, 33, 34, 35]);
    assert_eq!(data, expected);
}

#[test]
fn flip_dispatches_by_format() {
    let mut a: Vec<u8> = (0..32).collect();
    let mut b = a.clone();
    flip_for_format(Fmt::Bc2, &mut a, 4);
    flip_bc2(&mut b, 4);
    assert_eq!(a, b);
}

use suzy::dds::{dds_block_count_fits, dds_plan, needs_dx10_header};
use suzy::texture::UvRect;

#[test]
fn plans_from_bytes_in_order() {
    let supported = [0x83F1, 0x83F2, 0x83F3];
    let h = header(8, 4, 32, 4, b"DXT3");
    let plan = dds_plan(&h, None, &supported).unwrap();
    assert_eq!(plan.fmt, Fmt::Bc2);
    assert_eq!(plan.data_len, 32);
    let size = plan.texture_size();
    assert_eq!(size.default_rect, UvRect::U16(suzy::vertex::UvRectValues { left: 0, right: 8, bottom: 0, top: 4 }));
    assert_eq!(size.uv_scale, [8, 4]);
    assert!(!size.is_sdf);
    // the header is checked first
    let mut bad = header(40000, 4, 31, 4, b"ATI2");
    bad[0] = 0;
    assert_eq!(dds_plan(&bad, None, &supported), Err("not a dds file"));
    // then the size, before the format
    assert_eq!(dds_plan(&header(40000, 4, 31, 4, b"ATI2"), None, &supported), Err("image was too wide"));
    // then the format, before the data length
    assert_eq!(
        dds_plan(&header(8, 4, 31, 4, b"ATI2"), None, &supported),
        Err("DDS texture data was in an unsupported format")
    );
    // then the data length, before the GPU's support
    assert_eq!(
        dds_plan(&header(8, 4, 31, 4, b"DXT1"), None, &supported),
        Err("DDS data len did not match the expected length")
    );
    assert_eq!(
        dds_plan(&header(8, 4, 16, 4, b"DXT1"), None, &[0x83F2, 0x83F3]),
        Err("gpu did not support this kind of compressed texture")
    );
}

#[test]
fn plans_with_dx10_extension() {
    let h = header(4, 4, 8, 4, b"DX10");
    assert!(needs_dx10_header(&h));
    assert!(!needs_dx10_header(&header(4, 4, 8, 4, b"DXT1")));
    assert!(!needs_dx10_header(&header(40000, 4, 8, 4, b"DX10")));
    assert_eq!(dds_plan(&h, None, &[0x83F0]), Err("DDS file ended before its DX10 header"));
    let mut d = vec![0u8; 20];
    put(&mut d, 0, 71);
    put(&mut d, 4, 3);
    put(&mut d, 16, 3);
    let plan = dds_plan(&h, Some(&d), &[0x83F0]).unwrap();
    assert_eq!(plan.fmt, Fmt::Bc1Opaque);
    put(&mut d, 4, 2);
    assert_eq!(dds_plan(&h, Some(&d), &[0x83F0]), Err("only 2D textures are supported"));
}

#[test]
fn block_counts() {
    assert!(dds_block_count_fits(&header(1020, 1024, 0, 4, b"DXT1"), None));
    // 256 x 256 blocks do not fit 16 bits
    assert!(!dds_block_count_fits(&header(1024, 1024, 0, 4, b"DXT1"), None));
    // a header refused earlier never reaches the count
    assert!(dds_block_count_fits(&header(2048, 1024, 0, 4, b"ATI2"), None));
}
