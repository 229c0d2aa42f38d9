//! Loading of DDS (DirectDraw Surface) textures: header parsing, choice of
//! the compressed block format, size checks, and the vertical flip of the
//! block-compressed data (DDS has a top-left origin, the renderer a
//! bottom-left one).
//!
//! Reading the file and the OpenGL upload stand outside this module; they
//! hand the bytes they read to these functions and act on the plan they
//! return.

use vstd::prelude::*;
use crate::texture::{TextureDims, TextureSize, is_image_size, spec_dims_ok, spec_dims_error, spec_npot};
use crate::flip::{flip_bc1, flip_bc2, flip_bc3, spec_flip_bc1, spec_flip_bc2, spec_flip_bc3};

verus! {

/// The little-endian 32-bit word that starts at byte `i`.
pub open spec fn spec_le_u32(s: Seq<u8>, i: int) -> int {
    s[i] + s[i + 1] * 256 + s[i + 2] * 65536 + s[i + 3] * 16777216
}

/// The `k`th little-endian 32-bit word of a header.
pub open spec fn spec_word(s: Seq<u8>, k: int) -> int {
    spec_le_u32(s, 4 * k)
}

/// Reads the little-endian 32-bit word that starts at byte `i`.
pub fn read_le_u32(bytes: &[u8], i: usize) -> (r: u32)
    requires
        i + 4 <= bytes@.len(),
    ensures
        r == spec_le_u32(bytes@, i as int),
{
    let b0 = bytes[i] as u32;
    let b1 = bytes[i + 1] as u32;
    let b2 = bytes[i + 2] as u32;
    let b3 = bytes[i + 3] as u32;
    b0 + b1 * 256 + b2 * 65536 + b3 * 16777216
}

/// The fields of a DDS header that the loader uses.
#[derive(Clone, Copy, Debug, PartialEq, Eq, Structural)]
pub struct DdsHeader {
    /// Image width in pixels.
    pub width: u32,
    /// Image height in pixels.
    pub height: u32,
    /// For compressed data, the length in bytes of the top-level image.
    pub pitch_or_data_len: u32,
    /// Number of mipmap levels.
    pub mipmap_count: u32,
    /// The four-character code naming the pixel format.
    pub four_cc: u32,
}

/// The four bytes `"DDS "` open the header.
pub open spec fn spec_has_magic(s: Seq<u8>) -> bool {
    s[0] == 0x44 && s[1] == 0x44 && s[2] == 0x53 && s[3] == 0x20
}

/// The header is recognised as a DDS header: magic, a header size of 124,
/// and a pixel-format size of 32.
pub open spec fn spec_is_dds(s: Seq<u8>) -> bool {
    spec_has_magic(s) && spec_word(s, 1) == 124 && spec_word(s, 19) == 32
}

/// Parse the 128-byte header at the start of a DDS file.
///
/// Only headers whose pixel format is described by a four-character code
/// are supported.
pub fn parse_dds_header(header: &[u8]) -> (r: Result<DdsHeader, &'static str>)
    requires
        header@.len() == 128,
    ensures
        r is Ok <==> spec_is_dds(header@) && spec_word(header@, 20) == 4,
        r matches Ok(h) ==> {
            &&& h.height == spec_word(header@, 3)
            &&& h.width == spec_word(header@, 4)
            &&& h.pitch_or_data_len == spec_word(header@, 5)
            &&& h.mipmap_count == spec_word(header@, 7)
            &&& h.four_cc == spec_word(header@, 21)
        },
        r matches Err(e) ==> e@ == (if !spec_is_dds(header@) {
            "not a dds file"@
        } else {
            "unsupported texture format"@
        }),
{
    if !(header[0] == 0x44 && header[1] == 0x44 && header[2] == 0x53 && header[3] == 0x20) {
        return Err("not a dds file");
    }
    if read_le_u32(header, 4) != 124 {
        return Err("not a dds file");
    }
    let height = read_le_u32(header, 12);
    let width = read_le_u32(header, 16);
    let pitch_or_data_len = read_le_u32(header, 20);
    let mipmap_count = read_le_u32(header, 28);
    if read_le_u32(header, 76) != 32 {
        return Err("not a dds file");
    }
    let pf_flags = read_le_u32(header, 80);
    if pf_flags != 0x4 {
        return Err("unsupported texture format");
    }
    let four_cc = read_le_u32(header, 84);
    Ok(DdsHeader { width, height, pitch_or_data_len, mipmap_count, four_cc })
}

/// The fields of the extended DX10 header.
#[derive(Clone, Copy, Debug, PartialEq, Eq, Structural)]
pub struct DdsHeaderDxt10 {
    /// The DXGI format code.
    pub dxgi_format: u32,
    /// 3 for a 2D texture.
    pub resource_dimension: u32,
    /// Miscellaneous flags.
    pub misc_flag: u32,
    /// Number of textures in the array.
    pub array_size: u32,
    /// The low three bits give the alpha mode.
    pub misc_flags2: u32,
}

/// Parse the 20-byte DX10 header extension.
pub fn parse_dds_header_dx10(header: &[u8]) -> (r: DdsHeaderDxt10)
    requires
        header@.len() == 20,
    ensures
        r.dxgi_format == spec_word(header@, 0),
        r.resource_dimension == spec_word(header@, 1),
        r.misc_flag == spec_word(header@, 2),
        r.array_size == spec_word(header@, 3),
        r.misc_flags2 == spec_word(header@, 4),
{
    DdsHeaderDxt10 {
        dxgi_format: read_le_u32(header, 0),
        resource_dimension: read_le_u32(header, 4),
        misc_flag: read_le_u32(header, 8),
        array_size: read_le_u32(header, 12),
        misc_flags2: read_le_u32(header, 16),
    }
}

/// The block-compressed formats the loader understands.
#[derive(Clone, Copy, Debug, PartialEq, Eq, Structural)]
pub enum Fmt {
    /// BC1 (DXT1) without alpha.
    Bc1Opaque,
    /// BC1 (DXT1) with one-bit alpha.
    Bc1,
    /// BC2 (DXT3).
    Bc2,
    /// BC3 (DXT5).
    Bc3,
}

/// The OpenGL internal-format constant of each format.
pub open spec fn spec_gl_format(f: Fmt) -> u16 {
    match f {
        Fmt::Bc1Opaque => 0x83F0,
        Fmt::Bc1 => 0x83F1,
        Fmt::Bc2 => 0x83F2,
        Fmt::Bc3 => 0x83F3,
    }
}

/// Bytes per 4x4 block of each format.
pub open spec fn spec_block_size(f: Fmt) -> int {
    match f {
        Fmt::Bc1Opaque | Fmt::Bc1 => 8,
        Fmt::Bc2 | Fmt::Bc3 => 16,
    }
}

impl Fmt {
    /// The OpenGL internal-format constant
    /// (`COMPRESSED_RGB(A)_S3TC_DXT*_EXT`).
    pub fn gl_format(self) -> (r: u16)
        ensures
            r == spec_gl_format(self),
    {
        match self {
            Fmt::Bc1Opaque => 0x83F0,
            Fmt::Bc1 => 0x83F1,
            Fmt::Bc2 => 0x83F2,
            Fmt::Bc3 => 0x83F3,
        }
    }
}

/// The four-character code `"DXT1"`.
pub const FOUR_CC_DXT1: u32 = 0x31545844;
/// The four-character code `"DXT3"`.
pub const FOUR_CC_DXT3: u32 = 0x33545844;
/// The four-character code `"DXT5"`.
pub const FOUR_CC_DXT5: u32 = 0x35545844;
/// The four-character code `"DX10"`: a DX10 header extension follows.
pub const FOUR_CC_DX10: u32 = 0x30315844;

/// What the four-character code says of the format.
#[derive(Clone, Copy, Debug, PartialEq, Eq, Structural)]
pub enum FourCcFormat {
    /// The code names the format.
    Known(Fmt),
    /// The format is given in the DX10 header extension, which must be read.
    NeedsDx10,
}

/// The format a four-character code names, or whether the DX10 extension
/// must be read to find it.
pub fn format_for_four_cc(four_cc: u32) -> (r: Result<FourCcFormat, &'static str>)
    ensures
        four_cc == FOUR_CC_DXT1 ==> r == Ok::<FourCcFormat, &'static str>(FourCcFormat::Known(Fmt::Bc1)),
        four_cc == FOUR_CC_DXT3 ==> r == Ok::<FourCcFormat, &'static str>(FourCcFormat::Known(Fmt::Bc2)),
        four_cc == FOUR_CC_DXT5 ==> r == Ok::<FourCcFormat, &'static str>(FourCcFormat::Known(Fmt::Bc3)),
        four_cc == FOUR_CC_DX10 ==> r == Ok::<FourCcFormat, &'static str>(FourCcFormat::NeedsDx10),
        r is Err <==> (four_cc != FOUR_CC_DXT1 && four_cc != FOUR_CC_DXT3 && four_cc
            != FOUR_CC_DXT5 && four_cc != FOUR_CC_DX10),
        r matches Err(e) ==> e@ == "DDS texture data was in an unsupported format"@,
{
    if four_cc == FOUR_CC_DXT1 {
        Ok(FourCcFormat::Known(Fmt::Bc1))
    } else if four_cc == FOUR_CC_DXT3 {
        Ok(FourCcFormat::Known(Fmt::Bc2))
    } else if four_cc == FOUR_CC_DXT5 {
        Ok(FourCcFormat::Known(Fmt::Bc3))
    } else if four_cc == FOUR_CC_DX10 {
        Ok(FourCcFormat::NeedsDx10)
    } else {
        Err("DDS texture data was in an unsupported format")
    }
}

/// The alpha mode of a DX10 header: the low three bits of `misc_flags2`.
pub open spec fn spec_alpha_mode(info: DdsHeaderDxt10) -> int {
    (info.misc_flags2 % 8) as int
}

/// The format a DX10 header extension names.
pub fn dx10_format(info: &DdsHeaderDxt10) -> (r: Result<Fmt, &'static str>)
    ensures
        r is Ok <==> info.resource_dimension == 3 && 70 <= info.dxgi_format <= 78,
        info.resource_dimension != 3 ==> (r matches Err(e) && e@
            == "only 2D textures are supported"@),
        info.resource_dimension == 3 && !(70 <= info.dxgi_format <= 78) ==> (r matches Err(e)
            && e@ == "DDS texture data was in an unsupported format"@),
        r matches Ok(f) ==> f == (if info.dxgi_format <= 72 {
            if spec_alpha_mode(*info) == 3 {
                Fmt::Bc1Opaque
            } else {
                Fmt::Bc1
            }
        } else if info.dxgi_format <= 75 {
            Fmt::Bc2
        } else {
            Fmt::Bc3
        }),
{
    let flags2 = info.misc_flags2;
    let alpha_mode = flags2 & 0b111;
    assert(flags2 & 7 == flags2 % 8) by (bit_vector);
    if info.resource_dimension != 3 {
        return Err("only 2D textures are supported");
    }
    let d = info.dxgi_format;
    if 70 <= d && d <= 72 {
        if alpha_mode == 3 {
            Ok(Fmt::Bc1Opaque)
        } else {
            Ok(Fmt::Bc1)
        }
    } else if 73 <= d && d <= 75 {
        Ok(Fmt::Bc2)
    } else if 76 <= d && d <= 78 {
        Ok(Fmt::Bc3)
    } else {
        Err("DDS texture data was in an unsupported format")
    }
}

/// `ceil(n / 4)`: the number of 4-pixel blocks that cover `n` pixels.
pub open spec fn spec_blocks(n: int) -> int {
    (n + 3) / 4
}

/// Check that the data length matches the number of 4x4 blocks of the
/// image times the size of a block.
pub fn check_data_len(fmt: Fmt, width: u16, height: u16, data_len: u32) -> (r: Result<(), &'static str>)
    requires
        width <= 65532,
        height <= 65532,
        spec_blocks(width as int) * spec_blocks(height as int) <= 65535,
    ensures
        r is Ok <==> spec_blocks(width as int) * spec_blocks(height as int) * spec_block_size(fmt)
            == data_len,
        r matches Err(e) ==> e@ == "DDS data len did not match the expected length"@,
{
    let bw: u16 = (width + 3) / 4;
    let bh: u16 = (height + 3) / 4;
    let num_blocks: u16 = bw * bh;
    let block_size: u32 = match fmt {
        Fmt::Bc1Opaque | Fmt::Bc1 => 8,
        Fmt::Bc2 | Fmt::Bc3 => 16,
    };
    if (num_blocks as u32) * block_size != data_len {
        return Err("DDS data len did not match the expected length");
    }
    Ok(())
}

/// What the loader uploads: the format, the image and texture sizes, and
/// the length of the compressed data.
#[derive(Clone, Copy, Debug, PartialEq, Eq, Structural)]
pub struct DdsUploadPlan {
    /// The block format.
    pub fmt: Fmt,
    /// The OpenGL internal-format constant of `fmt`.
    pub gl_format: u16,
    /// Image and texture dimensions.
    pub dims: TextureDims,
    /// Length of the compressed data in bytes.
    pub data_len: i32,
}

/// Check the header sizes, returning the image size and the power-of-two
/// texture size that holds it.
pub fn dds_dims(info: &DdsHeader) -> (r: Result<TextureDims, &'static str>)
    ensures
        r is Ok <==> spec_dims_ok(info.width as int, info.height as int),
        r matches Err(e) ==> e@ == spec_dims_error(info.width as int, info.height as int),
        r matches Ok(d) ==> {
            &&& d.width == info.width
            &&& d.height == info.height
            &&& d.texture_width == spec_npot(info.width as int)
            &&& d.texture_height == spec_npot(info.height as int)
        },
{
    crate::texture::image_texture_dims(info.width, info.height)
}

/// Whether a format constant is among those the GPU reports.
pub open spec fn spec_supports(supported: Seq<i32>, gl_format: u16) -> bool {
    exists|i: int| 0 <= i < supported.len() && supported[i] == gl_format
}

/// Finish the plan for a DDS upload once the format is known: check the
/// data length, that the GPU supports the format, and that the length fits
/// an OpenGL size.
pub fn dds_upload_plan(
    dims: TextureDims,
    fmt: Fmt,
    data_len: u32,
    supported: &[i32],
) -> (r: Result<DdsUploadPlan, &'static str>)
    requires
        dims.width <= 65532,
        dims.height <= 65532,
        spec_blocks(dims.width as int) * spec_blocks(dims.height as int) <= 65535,
    ensures
        ({
            let len_ok = spec_blocks(dims.width as int) * spec_blocks(dims.height as int)
                * spec_block_size(fmt) == data_len;
            let supported_ok = spec_supports(supported@, spec_gl_format(fmt));
            &&& r is Ok <==> len_ok && supported_ok && data_len <= i32::MAX
            &&& r matches Err(e) ==> e@ == (if !len_ok {
                "DDS data len did not match the expected length"@
            } else if !supported_ok {
                "gpu did not support this kind of compressed texture"@
            } else {
                "image was too big"@
            })
            &&& r matches Ok(p) ==> p == DdsUploadPlan {
                fmt,
                gl_format: spec_gl_format(fmt),
                dims,
                data_len: data_len as i32,
            }
        }),
{
    check_data_len(fmt, dims.width, dims.height, data_len)?;
    let gl_format = fmt.gl_format();
    let mut found = false;
    let mut i: usize = 0;
    while i < supported.len()
        invariant
            i <= supported@.len(),
            found <==> exists|j: int| 0 <= j < i && supported@[j] == gl_format,
        decreases supported@.len() - i,
    {
        if supported[i] == gl_format as i32 {
            found = true;
        }
        i = i + 1;
    }
    if !found {
        return Err("gpu did not support this kind of compressed texture");
    }
    if data_len > 0x7fff_ffff {
        return Err("image was too big");
    }
    Ok(DdsUploadPlan { fmt, gl_format, dims, data_len: data_len as i32 })
}

/// The data flipped vertically as its block format requires.
pub open spec fn spec_flip_for(fmt: Fmt, s: Seq<u8>, width: int) -> Seq<u8> {
    match fmt {
        Fmt::Bc1Opaque | Fmt::Bc1 => spec_flip_bc1(s, width),
        Fmt::Bc2 => spec_flip_bc2(s, width),
        Fmt::Bc3 => spec_flip_bc3(s, width),
    }
}

/// Flip compressed image data from the top-left origin of DDS files to the
/// bottom-left origin of OpenGL textures.
pub fn flip_for_format(fmt: Fmt, data: &mut [u8], width: u16)
    requires
        width > 0,
    ensures
        final(data)@ == spec_flip_for(fmt, old(data)@, width as int),
{
    match fmt {
        Fmt::Bc1Opaque | Fmt::Bc1 => flip_bc1(data, width),
        Fmt::Bc2 => flip_bc2(data, width),
        Fmt::Bc3 => flip_bc3(data, width),
    }
}

impl DdsUploadPlan {
    /// Whether the image fills its texture, so that the data is uploaded
    /// as the whole texture rather than into a corner of a larger one.
    pub fn fills_texture(&self) -> (r: bool)
        ensures
            r == (self.dims.width == self.dims.texture_width && self.dims.height
                == self.dims.texture_height),
    {
        self.dims.width == self.dims.texture_width && self.dims.height == self.dims.texture_height
    }
}

impl DdsUploadPlan {
    /// The size the loaded texture reports: the image within a texture of
    /// its power-of-two size, not a distance field.
    pub fn texture_size(&self) -> (r: TextureSize)
        ensures
            is_image_size(r, self.dims, false),
    {
        TextureSize::for_image(self.dims, false)
    }
}

/// The header fields read from the 128 header bytes.
pub open spec fn spec_header(h: Seq<u8>) -> DdsHeader {
    DdsHeader {
        width: spec_word(h, 4) as u32,
        height: spec_word(h, 3) as u32,
        pitch_or_data_len: spec_word(h, 5) as u32,
        mipmap_count: spec_word(h, 7) as u32,
        four_cc: spec_word(h, 21) as u32,
    }
}

/// The DX10 header fields read from its 20 bytes.
pub open spec fn spec_dx10_header(d: Seq<u8>) -> DdsHeaderDxt10 {
    DdsHeaderDxt10 {
        dxgi_format: spec_word(d, 0) as u32,
        resource_dimension: spec_word(d, 1) as u32,
        misc_flag: spec_word(d, 2) as u32,
        array_size: spec_word(d, 3) as u32,
        misc_flags2: spec_word(d, 4) as u32,
    }
}

/// The image and texture size of an image whose size fits.
pub open spec fn spec_texture_dims(width: u32, height: u32) -> TextureDims {
    TextureDims {
        width: width as u16,
        height: height as u16,
        texture_width: spec_npot(width as int) as u16,
        texture_height: spec_npot(height as int) as u16,
    }
}

/// The format a DX10 header names, or the error for it.
pub open spec fn spec_dx10_format(info: DdsHeaderDxt10) -> Result<Fmt, Seq<char>> {
    if info.resource_dimension != 3 {
        Err("only 2D textures are supported"@)
    } else if !(70 <= info.dxgi_format <= 78) {
        Err("DDS texture data was in an unsupported format"@)
    } else if info.dxgi_format <= 72 {
        Ok(if spec_alpha_mode(info) == 3 { Fmt::Bc1Opaque } else { Fmt::Bc1 })
    } else if info.dxgi_format <= 75 {
        Ok(Fmt::Bc2)
    } else {
        Ok(Fmt::Bc3)
    }
}

/// The checks before the data length, in the order the loader makes them:
/// the header, the image size, the four-character code and, for `"DX10"`,
/// the extension header (`dx10`, when it could be read).  The result is the
/// sizes and the block format, or the first error.
pub open spec fn spec_dds_prefix(h: Seq<u8>, dx10: Option<Seq<u8>>) -> Result<(TextureDims, Fmt), Seq<char>> {
    let info = spec_header(h);
    if !spec_is_dds(h) {
        Err("not a dds file"@)
    } else if spec_word(h, 20) != 4 {
        Err("unsupported texture format"@)
    } else if !spec_dims_ok(info.width as int, info.height as int) {
        Err(spec_dims_error(info.width as int, info.height as int))
    } else {
        let dims = spec_texture_dims(info.width, info.height);
        if info.four_cc == FOUR_CC_DXT1 {
            Ok((dims, Fmt::Bc1))
        } else if info.four_cc == FOUR_CC_DXT3 {
            Ok((dims, Fmt::Bc2))
        } else if info.four_cc == FOUR_CC_DXT5 {
            Ok((dims, Fmt::Bc3))
        } else if info.four_cc == FOUR_CC_DX10 {
            match dx10 {
                None => Err("DDS file ended before its DX10 header"@),
                Some(d) => match spec_dx10_format(spec_dx10_header(d)) {
                    Ok(f) => Ok((dims, f)),
                    Err(e) => Err(e),
                },
            }
        } else {
            Err("DDS texture data was in an unsupported format"@)
        }
    }
}

/// The plan once the sizes and format are known, or the first error among
/// the data length, the GPU's support and the size of the data.
pub open spec fn spec_upload_plan(dims: TextureDims, fmt: Fmt, data_len: u32, supported: Seq<i32>) -> Result<DdsUploadPlan, Seq<char>> {
    if spec_blocks(dims.width as int) * spec_blocks(dims.height as int) * spec_block_size(fmt) != data_len {
        Err("DDS data len did not match the expected length"@)
    } else if !spec_supports(supported, spec_gl_format(fmt)) {
        Err("gpu did not support this kind of compressed texture"@)
    } else if data_len > i32::MAX {
        Err("image was too big"@)
    } else {
        Ok(DdsUploadPlan { fmt, gl_format: spec_gl_format(fmt), dims, data_len: data_len as i32 })
    }
}

/// The plan for a DDS file, or the first check it fails.
pub open spec fn spec_dds_plan(h: Seq<u8>, dx10: Option<Seq<u8>>, supported: Seq<i32>) -> Result<DdsUploadPlan, Seq<char>> {
    match spec_dds_prefix(h, dx10) {
        Err(e) => Err(e),
        Ok((dims, fmt)) => spec_upload_plan(dims, fmt, spec_header(h).pitch_or_data_len, supported),
    }
}

/// Whether bytes 84 to 87 of a header hold the four characters `c`.
pub open spec fn spec_four_cc_is(h: Seq<u8>, c: Seq<u8>) -> bool {
    h.subrange(84, 88) == c
}

/// What a planned DDS upload is, whenever the checks pass:
/// - its block format is the one the header's four-character code names:
///   `"DXT1"` BC1, `"DXT3"` BC2, `"DXT5"` BC3; for `"DX10"`, the DXGI
///   format of the extension: 70 to 72 BC1 (opaque for alpha mode 3), 73 to
///   75 BC2, 76 to 78 BC3;
/// - its OpenGL format is that block format's S3TC constant, one the GPU
///   reports;
/// - its size is the header's, its data length the header's, and that
///   length is the number of 4x4 blocks times 8 bytes (BC1) or 16 (BC2,
///   BC3).
pub proof fn lemma_dds_plan_law(h: Seq<u8>, dx10: Option<Seq<u8>>, supported: Seq<i32>)
    requires
        h.len() == 128,
        dx10 matches Some(d) ==> d.len() == 20,
    ensures
        spec_dds_plan(h, dx10, supported) matches Ok(p) ==> {
            let w = spec_word(h, 4);
            let ht = spec_word(h, 3);
            &&& spec_four_cc_is(h, seq![0x44u8, 0x58, 0x54, 0x31]) ==> p.fmt == Fmt::Bc1
            &&& spec_four_cc_is(h, seq![0x44u8, 0x58, 0x54, 0x33]) ==> p.fmt == Fmt::Bc2
            &&& spec_four_cc_is(h, seq![0x44u8, 0x58, 0x54, 0x35]) ==> p.fmt == Fmt::Bc3
            &&& spec_four_cc_is(h, seq![0x44u8, 0x58, 0x31, 0x30]) ==> (dx10 matches Some(d) && {
                let dxgi = spec_word(d, 0);
                let alpha_mode = spec_word(d, 4) % 8;
                &&& 70 <= dxgi <= 72 ==> p.fmt == (if alpha_mode == 3 {
                    Fmt::Bc1Opaque
                } else {
                    Fmt::Bc1
                })
                &&& 73 <= dxgi <= 75 ==> p.fmt == Fmt::Bc2
                &&& 76 <= dxgi <= 78 ==> p.fmt == Fmt::Bc3
                &&& 70 <= dxgi <= 78
            })
            &&& p.fmt == Fmt::Bc1Opaque ==> p.gl_format == 0x83F0
            &&& p.fmt == Fmt::Bc1 ==> p.gl_format == 0x83F1
            &&& p.fmt == Fmt::Bc2 ==> p.gl_format == 0x83F2
            &&& p.fmt == Fmt::Bc3 ==> p.gl_format == 0x83F3
            &&& exists|i: int| 0 <= i < supported.len() && supported[i] == p.gl_format
            &&& p.dims.width == w && p.dims.height == ht
            &&& p.data_len == spec_word(h, 5)
            &&& p.data_len == (w + 3) / 4 * ((ht + 3) / 4) * (if p.fmt == Fmt::Bc1 || p.fmt
                == Fmt::Bc1Opaque {
                8int
            } else {
                16int
            })
        },
{
    let four = h.subrange(84, 88);
    assert(four[0] == h[84] && four[1] == h[85] && four[2] == h[86] && four[3] == h[87]);
    if spec_four_cc_is(h, seq![0x44u8, 0x58, 0x54, 0x31]) {
        assert(spec_word(h, 21) == FOUR_CC_DXT1);
    }
    if spec_four_cc_is(h, seq![0x44u8, 0x58, 0x54, 0x33]) {
        assert(spec_word(h, 21) == FOUR_CC_DXT3);
    }
    if spec_four_cc_is(h, seq![0x44u8, 0x58, 0x54, 0x35]) {
        assert(spec_word(h, 21) == FOUR_CC_DXT5);
    }
    if spec_four_cc_is(h, seq![0x44u8, 0x58, 0x31, 0x30]) {
        assert(spec_word(h, 21) == FOUR_CC_DX10);
    }
}

/// Whether the checks reach the data length with sizes whose block count
/// fits 16 bits (the loader computes it in 16 bits).
pub open spec fn spec_block_count_fits(h: Seq<u8>, dx10: Option<Seq<u8>>) -> bool {
    spec_dds_prefix(h, dx10) matches Ok((dims, _)) ==> {
        &&& dims.width <= 65532
        &&& dims.height <= 65532
        &&& spec_blocks(dims.width as int) * spec_blocks(dims.height as int) <= 65535
    }
}

/// The checks before the data length, in the loader's order.
fn dds_prefix(header: &[u8], dx10: Option<&[u8]>) -> (r: Result<(TextureDims, Fmt), &'static str>)
    requires
        header@.len() == 128,
        dx10 matches Some(d) ==> d@.len() == 20,
    ensures
        ({
            let d = match dx10 {
                Some(d) => Some(d@),
                None => None,
            };
            &&& r is Ok <==> spec_dds_prefix(header@, d) is Ok
            &&& r matches Ok(p) ==> spec_dds_prefix(header@, d) == Ok::<(TextureDims, Fmt), Seq<char>>(p)
            &&& r matches Err(e) ==> spec_dds_prefix(header@, d) == Err::<(TextureDims, Fmt), Seq<char>>(e@)
        }),
{
    let info = match parse_dds_header(header) {
        Ok(info) => info,
        Err(e) => return Err(e),
    };
    let dims = match dds_dims(&info) {
        Ok(dims) => dims,
        Err(e) => return Err(e),
    };
    let fmt = match format_for_four_cc(info.four_cc) {
        Ok(FourCcFormat::Known(f)) => f,
        Ok(FourCcFormat::NeedsDx10) => match dx10 {
            None => return Err("DDS file ended before its DX10 header"),
            Some(d) => {
                let dx10_info = parse_dds_header_dx10(d);
                match dx10_format(&dx10_info) {
                    Ok(f) => f,
                    Err(e) => return Err(e),
                }
            },
        },
        Err(e) => return Err(e),
    };
    Ok((dims, fmt))
}

/// Whether the loader must read the 20-byte DX10 extension after the
/// header: the header, its size and its four-character code pass, and the
/// code is `"DX10"`.
pub fn needs_dx10_header(header: &[u8]) -> (r: bool)
    requires
        header@.len() == 128,
    ensures
        r == (spec_is_dds(header@) && spec_word(header@, 20) == 4 && spec_dims_ok(
            spec_header(header@).width as int,
            spec_header(header@).height as int,
        ) && spec_header(header@).four_cc == FOUR_CC_DX10),
{
    let info = match parse_dds_header(header) {
        Ok(info) => info,
        Err(_) => return false,
    };
    match dds_dims(&info) {
        Ok(_) => info.four_cc == FOUR_CC_DX10,
        Err(_) => false,
    }
}

/// Whether the block count of the image, which the loader computes in 16
/// bits, fits there once the checks before the data length pass.
pub fn dds_block_count_fits(header: &[u8], dx10: Option<&[u8]>) -> (r: bool)
    requires
        header@.len() == 128,
        dx10 matches Some(d) ==> d@.len() == 20,
    ensures
        r == spec_block_count_fits(
            header@,
            match dx10 {
                Some(d) => Some(d@),
                None => None,
            },
        ),
{
    match dds_prefix(header, dx10) {
        Ok((dims, _)) => {
            let bw = (dims.width as u32 + 3) / 4;
            let bh = (dims.height as u32 + 3) / 4;
            assert(bw * bh <= 16384 * 16384) by (nonlinear_arith)
                requires
                    bw <= 16384,
                    bh <= 16384,
            ;
            dims.width <= 65532 && dims.height <= 65532 && bw * bh <= 65535
        },
        Err(_) => true,
    }
}

/// Plan the upload of a DDS file from its 128 header bytes and, when the
/// format is given by a DX10 extension, the 20 bytes that follow (`None`
/// when they could not be read): every check in the loader's order, the
/// first failing one giving the error.
pub fn dds_plan(header: &[u8], dx10: Option<&[u8]>, supported: &[i32]) -> (r: Result<
    DdsUploadPlan,
    &'static str,
>)
    requires
        header@.len() == 128,
        dx10 matches Some(d) ==> d@.len() == 20,
        spec_block_count_fits(
            header@,
            match dx10 {
                Some(d) => Some(d@),
                None => None,
            },
        ),
    ensures
        ({
            let d = match dx10 {
                Some(d) => Some(d@),
                None => None,
            };
            &&& r is Ok <==> spec_dds_plan(header@, d, supported@) is Ok
            &&& r matches Ok(p) ==> spec_dds_plan(header@, d, supported@) == Ok::<DdsUploadPlan, Seq<char>>(p)
            &&& r matches Err(e) ==> spec_dds_plan(header@, d, supported@) == Err::<DdsUploadPlan, Seq<char>>(e@)
        }),
{
    let info = parse_dds_header(header);
    let (dims, fmt) = match dds_prefix(header, dx10) {
        Ok(p) => p,
        Err(e) => return Err(e),
    };
    let data_len = match info {
        Ok(h) => h.pitch_or_data_len,
        Err(_) => 0,
    };
    dds_upload_plan(dims, fmt, data_len, supported)
}

} // verus!
