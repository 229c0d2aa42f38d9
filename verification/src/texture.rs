//! Texture sizes: the power-of-two texture that holds an image, the length
//! of padded pixel data, and the row alignment of decoded images.

use vstd::prelude::*;
use crate::vertex::UvRectValues;

verus! {

/// Whether `n` is a power of two.
pub open spec fn spec_is_pow2(n: int) -> bool
    decreases n,
{
    if n <= 0 {
        false
    } else if n == 1 {
        true
    } else {
        n % 2 == 0 && spec_is_pow2(n / 2)
    }
}

/// `r` is the smallest power of two that is at least `n`.
pub open spec fn spec_is_npot(n: int, r: int) -> bool {
    spec_is_pow2(r) && n <= r && (r == 1 || r / 2 < n)
}

/// The smallest power of two that is at least `n`, for `n < 2^31`.
pub open spec fn spec_npot(n: int) -> int
    decreases n,
{
    if n <= 1 {
        1
    } else {
        2 * spec_npot((n + 1) / 2)
    }
}

/// `spec_npot` is the smallest power of two at least `n`.
pub proof fn lemma_npot(n: int)
    requires
        n >= 0,
    ensures
        spec_is_npot(n, spec_npot(n)),
    decreases n,
{
    if n > 1 {
        lemma_npot((n + 1) / 2);
        let h = spec_npot((n + 1) / 2);
        assert(spec_npot(n) == 2 * h);
        assert((2 * h) / 2 == h);
        assert(spec_is_pow2(2 * h));
    }
}

/// `spec_npot(n)` is at most `2n` (and 1 for `n <= 1`).
pub proof fn lemma_npot_bound(n: int)
    requires
        n >= 0,
    ensures
        spec_npot(n) >= 1,
        n >= 1 ==> spec_npot(n) <= 2 * n,
    decreases n,
{
    lemma_npot(n);
    if n > 1 {
        lemma_npot_bound((n + 1) / 2);
    }
}

/// The smallest power of two that is at least `n`.
pub fn next_power_of_two(n: u32) -> (r: u32)
    requires
        n <= 65535,
    ensures
        r == spec_npot(n as int),
        spec_is_npot(n as int, r as int),
{
    let mut p: u32 = 1;
    let mut k: u32 = n;
    proof {
        lemma_npot(n as int);
        lemma_npot_bound(n as int);
    }
    while k > 1
        invariant
            p >= 1,
            k <= 65535,
            p * spec_npot(k as int) == spec_npot(n as int),
            spec_npot(n as int) <= 131070,
        decreases k,
    {
        proof {
            lemma_npot_bound(((k + 1) / 2) as int);
            let h = spec_npot(((k + 1) / 2) as int);
            assert(spec_npot(k as int) == 2 * h);
            assert(p * (2 * h) == (2 * p) * h) by (nonlinear_arith);
            assert((2 * p) * h >= 2 * p) by (nonlinear_arith)
                requires
                    h >= 1,
                    p >= 1,
            ;
        }
        p = p * 2;
        k = (k + 1) / 2;
    }
    p
}

/// The size of an image and of the power-of-two texture that holds it.
#[derive(Clone, Copy, Debug, PartialEq, Eq, Structural)]
pub struct TextureDims {
    /// Image width in pixels.
    pub width: u16,
    /// Image height in pixels.
    pub height: u16,
    /// Texture width: the smallest power of two at least `width`.
    pub texture_width: u16,
    /// Texture height: the smallest power of two at least `height`.
    pub texture_height: u16,
}

/// An image of this size fits a texture whose sides fit 16 bits.
pub open spec fn spec_dims_ok(width: int, height: int) -> bool {
    &&& width <= 65535
    &&& height <= 65535
    &&& spec_npot(width) <= 65535
    &&& spec_npot(height) <= 65535
}

/// The message for an image too large for a texture, checking the width
/// first, then the height, then the width and height of the texture.
pub open spec fn spec_dims_error(width: int, height: int) -> Seq<char> {
    if width > 65535 {
        "image was too wide"@
    } else if height > 65535 {
        "image was too tall"@
    } else if spec_npot(width) > 65535 {
        "image was too wide"@
    } else {
        "image was too tall"@
    }
}

/// The image size as 16-bit values, and the power-of-two texture size that
/// holds it; an error if either does not fit 16 bits.
pub fn image_texture_dims(width: u32, height: u32) -> (r: Result<TextureDims, &'static str>)
    ensures
        r is Ok <==> spec_dims_ok(width as int, height as int),
        r matches Err(e) ==> e@ == spec_dims_error(width as int, height as int),
        r matches Ok(d) ==> {
            &&& d.width == width
            &&& d.height == height
            &&& d.texture_width == spec_npot(width as int)
            &&& d.texture_height == spec_npot(height as int)
        },
{
    if width > 65535 {
        return Err("image was too wide");
    }
    if height > 65535 {
        return Err("image was too tall");
    }
    let tw = next_power_of_two(width);
    if tw > 65535 {
        return Err("image was too wide");
    }
    let th = next_power_of_two(height);
    if th > 65535 {
        return Err("image was too tall");
    }
    Ok(TextureDims {
        width: width as u16,
        height: height as u16,
        texture_width: tw as u16,
        texture_height: th as u16,
    })
}

/// `n` rounded up to a multiple of `alignment`.
pub open spec fn spec_round_up(n: int, alignment: int) -> int {
    ((n + alignment - 1) / alignment) * alignment
}

/// Adding `(a - n % a) % a` to `n` rounds it up to a multiple of `a`.
proof fn lemma_padding_rounds_up(n: int, a: int)
    requires
        0 <= n,
        a == 1 || a == 2 || a == 4,
    ensures
        n + (a - n % a) % a == spec_round_up(n, a),
{
    if a == 1 {
        assert(n % 1 == 0);
        assert((n + 1 - 1) / 1 * 1 == n);
    } else if a == 2 {
        assert(n + (2 - n % 2) % 2 == (n + 1) / 2 * 2);
    } else {
        assert(n + (4 - n % 4) % 4 == (n + 3) / 4 * 4);
    }
}

/// This type provides some helper functions for common texture populator
/// needs.
pub struct PopulateTextureUtil;

impl PopulateTextureUtil {
    /// The length of pixel data for an image whose rows of
    /// `width * channels` bytes are each padded to a multiple of
    /// `alignment` (1, 2 or 4).
    pub fn data_len(width: u16, height: u16, alignment: u16, channels: u16) -> (r: usize)
        requires
            alignment == 1 || alignment == 2 || alignment == 4,
            width * channels <= 65535,
            spec_round_up(width * channels, alignment as int) <= 65535,
        ensures
            r == spec_round_up(width * channels, alignment as int) * height,
    {
        let pixel_row_len: u16 = width * channels;
        let padding: u16 = (alignment - (pixel_row_len % alignment)) % alignment;
        proof {
            lemma_padding_rounds_up(pixel_row_len as int, alignment as int);
        }
        let full_row_len: u16 = pixel_row_len + padding;
        assert(full_row_len * height <= 65535 * 65535) by (nonlinear_arith)
            requires
                full_row_len <= 65535,
                height <= 65535,
        ;
        (full_row_len as usize) * (height as usize)
    }
}

/// The OpenGL unpack alignment that matches decoded image rows: rows of
/// `row` bytes of pixels stored `line_size` bytes apart.
pub open spec fn spec_row_alignment(row: int, line_size: int) -> Option<i32> {
    if row == line_size {
        Some(1i32)
    } else if spec_round_up(row, 2) == line_size {
        Some(2i32)
    } else if spec_round_up(row, 4) == line_size {
        Some(4i32)
    } else if spec_round_up(row, 8) == line_size {
        Some(8i32)
    } else {
        None
    }
}

/// The unpack alignment for decoded image rows, or an error when the row
/// stride is not the pixel row rounded up to 1, 2, 4 or 8 bytes.
pub fn row_alignment(row: usize, line_size: usize) -> (r: Result<i32, &'static str>)
    requires
        row + 8 <= usize::MAX,
    ensures
        r is Ok <==> spec_row_alignment(row as int, line_size as int) is Some,
        r matches Ok(a) ==> spec_row_alignment(row as int, line_size as int) == Some(a),
        r matches Err(e) ==> e@ == "png had incompatible alignment"@,
{
    if row == line_size {
        Ok(1)
    } else if (row + 1) / 2 * 2 == line_size {
        Ok(2)
    } else if (row + 3) / 4 * 4 == line_size {
        Ok(4)
    } else if (row + 7) / 8 * 8 == line_size {
        Ok(8)
    } else {
        Err("png had incompatible alignment")
    }
}

/// The texture-coordinate rectangle a texture is drawn with by default:
/// whole texels, or the texel of a solid-colour texture.
#[derive(Clone, Copy, Debug, PartialEq, Eq)]
pub enum UvRect {
    /// Texel bounds.
    U16(UvRectValues<u16>),
    /// The texel at these coordinates.
    SolidColor(u16, u16),
}

/// What a texture's populator reports once the texture is loaded.
#[derive(Clone, Copy, Debug, PartialEq, Eq)]
pub struct TextureSize {
    /// In the absence of a crop, the rectangle to use: usually the image
    /// from (0, 0) to its width and height (not rounded up to the texture's
    /// power-of-two size).
    pub default_rect: UvRect,
    /// Texture coordinates are divided by these values: usually the size of
    /// the texture on the GPU.
    pub uv_scale: [u16; 2],
    /// Whether the texture is a signed distance field.
    pub is_sdf: bool,
}

/// The size of the solid-colour texture: a 2x2 texture whose default
/// rectangle is the texel at (0, 0), not a distance field.
pub open spec fn is_solid_color_size(s: TextureSize) -> bool {
    &&& s.default_rect == UvRect::SolidColor(0, 0)
    &&& s.uv_scale@ == seq![2u16, 2u16]
    &&& !s.is_sdf
}

/// The size of a texture holding a whole image of `dims`: the default
/// rectangle covers the image, coordinates are scaled by the texture size.
pub open spec fn is_image_size(s: TextureSize, dims: TextureDims, sdf: bool) -> bool {
    &&& s.default_rect == UvRect::U16(
        UvRectValues { left: 0u16, right: dims.width, bottom: 0u16, top: dims.height },
    )
    &&& s.uv_scale@ == seq![dims.texture_width, dims.texture_height]
    &&& s.is_sdf == sdf
}

impl TextureSize {
    /// The size of the solid-colour texture.
    pub fn solid_color() -> (r: Self)
        ensures
            is_solid_color_size(r),
    {
        let r = TextureSize { default_rect: UvRect::SolidColor(0, 0), uv_scale: [2, 2], is_sdf: false };
        assert(r.uv_scale@ =~= seq![2u16, 2u16]);
        r
    }

    /// The size of a texture holding a whole image of `dims`.
    pub fn for_image(dims: TextureDims, sdf: bool) -> (r: Self)
        ensures
            is_image_size(r, dims, sdf),
    {
        let r = TextureSize {
            default_rect: UvRect::U16(
                UvRectValues { left: 0, right: dims.width, bottom: 0, top: dims.height },
            ),
            uv_scale: [dims.texture_width, dims.texture_height],
            is_sdf: sdf,
        };
        assert(r.uv_scale@ =~= seq![dims.texture_width, dims.texture_height]);
        r
    }
}

/// The rectangle a texture is drawn with: its crop, if it has one, or else
/// the default rectangle of the loaded texture.
pub open spec fn spec_uv_rect(crop: Option<UvRect>, size: TextureSize) -> UvRect {
    match crop {
        Some(rect) => rect,
        None => size.default_rect,
    }
}

/// The rectangle a texture with crop `crop` is drawn with, once loaded with
/// size `size`.
pub fn get_uv_rect(crop: Option<UvRect>, size: &TextureSize) -> (r: UvRect)
    ensures
        r == spec_uv_rect(crop, *size),
{
    match crop {
        Some(rect) => rect,
        None => size.default_rect,
    }
}

} // verus!
