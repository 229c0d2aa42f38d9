//! Loading a PNG image: decoding it to 8-bit samples, planning its upload
//! (texture size, the row alignment OpenGL must unpack it with, the pixel
//! format), and turning its rows to a bottom-left origin.
//!
//! Decoding is done by the `png` crate; the decoder reports the image size,
//! the colour type and bit depth of its samples, the stride of its rows and
//! the pixels.

use vstd::prelude::*;
use crate::texture::{
    TextureDims, TextureSize, is_image_size, image_texture_dims, row_alignment, spec_dims_ok,
    spec_dims_error, spec_npot, spec_round_up, spec_row_alignment,
};
use crate::flip::{reverse_rows, spec_rows_reversed};

verus! {

/// The colour layout of decoded 8-bit pixels.
#[derive(Clone, Copy, Debug, PartialEq, Eq, Structural)]
pub enum PixelLayout {
    /// One luminance sample.
    Grayscale,
    /// Luminance and alpha.
    GrayscaleAlpha,
    /// Red, green and blue.
    Rgb,
    /// Red, green, blue and alpha.
    Rgba,
}

/// Samples per pixel of a layout.
pub open spec fn spec_samples(layout: PixelLayout) -> int {
    match layout {
        PixelLayout::Grayscale => 1,
        PixelLayout::GrayscaleAlpha => 2,
        PixelLayout::Rgb => 3,
        PixelLayout::Rgba => 4,
    }
}

/// The OpenGL format constant of a layout: `LUMINANCE`,
/// `LUMINANCE_ALPHA`, `RGB` or `RGBA`.
pub open spec fn spec_pixel_format(layout: PixelLayout) -> u16 {
    match layout {
        PixelLayout::Grayscale => 0x1909u16,
        PixelLayout::GrayscaleAlpha => 0x190Au16,
        PixelLayout::Rgb => 0x1907u16,
        PixelLayout::Rgba => 0x1908u16,
    }
}

impl PixelLayout {
    /// Samples per pixel.
    pub fn samples(self) -> (r: usize)
        ensures
            r == spec_samples(self),
    {
        match self {
            PixelLayout::Grayscale => 1,
            PixelLayout::GrayscaleAlpha => 2,
            PixelLayout::Rgb => 3,
            PixelLayout::Rgba => 4,
        }
    }

    /// The OpenGL format constant.
    pub fn gl_format(self) -> (r: u16)
        ensures
            r == spec_pixel_format(self),
    {
        match self {
            PixelLayout::Grayscale => 0x1909,
            PixelLayout::GrayscaleAlpha => 0x190A,
            PixelLayout::Rgb => 0x1907,
            PixelLayout::Rgba => 0x1908,
        }
    }
}

/// What the loader uploads for a PNG image.
#[derive(Clone, Copy, Debug, PartialEq, Eq, Structural)]
pub struct PngUploadPlan {
    /// Image and texture dimensions.
    pub dims: TextureDims,
    /// The OpenGL format constant of the pixels.
    pub format: u16,
    /// The unpack alignment of the rows: 1, 2, 4 or 8.
    pub alignment: i32,
}

impl PngUploadPlan {
    /// Whether the image fills its texture, so that it is uploaded as the
    /// whole texture rather than into a corner of a larger one.
    pub fn fills_texture(&self) -> (r: bool)
        ensures
            r == (self.dims.width == self.dims.texture_width && self.dims.height
                == self.dims.texture_height),
    {
        self.dims.width == self.dims.texture_width && self.dims.height == self.dims.texture_height
    }
}

/// Plan the upload of a decoded image `width` by `height` pixels, whose
/// rows are `line_size` bytes apart.  The size is checked first, then that
/// the row stride is the pixel row rounded up to 1, 2, 4 or 8 bytes.
pub fn png_upload_plan(width: u32, height: u32, layout: PixelLayout, line_size: usize) -> (r: Result<
    PngUploadPlan,
    &'static str,
>)
    ensures
        !spec_dims_ok(width as int, height as int) ==> (r matches Err(e) && e@ == spec_dims_error(
            width as int,
            height as int,
        )),
        spec_dims_ok(width as int, height as int) ==> {
            let row = width * spec_samples(layout);
            &&& r is Ok <==> spec_row_alignment(row, line_size as int) is Some
            &&& r matches Err(e) ==> e@ == "png had incompatible alignment"@
            &&& r matches Ok(p) ==> {
                &&& p.dims == (TextureDims {
                    width: width as u16,
                    height: height as u16,
                    texture_width: spec_npot(width as int) as u16,
                    texture_height: spec_npot(height as int) as u16,
                })
                &&& p.format == spec_pixel_format(layout)
                &&& Some(p.alignment) == spec_row_alignment(row, line_size as int)
            }
        },
{
    let dims = image_texture_dims(width, height)?;
    let row = (dims.width as usize) * layout.samples();
    let alignment = row_alignment(row, line_size)?;
    Ok(PngUploadPlan { dims, format: layout.gl_format(), alignment })
}

/// The plan `png_upload_plan` makes, or the error it gives.
pub open spec fn spec_png_plan(width: u32, height: u32, layout: PixelLayout, line_size: usize) -> Result<
    PngUploadPlan,
    Seq<char>,
> {
    if !spec_dims_ok(width as int, height as int) {
        Err(spec_dims_error(width as int, height as int))
    } else {
        match spec_row_alignment(width * spec_samples(layout), line_size as int) {
            None => Err("png had incompatible alignment"@),
            Some(a) => Ok(
                PngUploadPlan {
                    dims: TextureDims {
                        width: width as u16,
                        height: height as u16,
                        texture_width: spec_npot(width as int) as u16,
                        texture_height: spec_npot(height as int) as u16,
                    },
                    format: spec_pixel_format(layout),
                    alignment: a,
                },
            ),
        }
    }
}

/// A decoded frame as the decoder reports it: the size, the colour type
/// and bit depth codes of the PNG format, the stride of the rows, and the
/// pixels, top row first.
pub struct PngFrame {
    /// Width in pixels.
    pub width: u32,
    /// Height in pixels.
    pub height: u32,
    /// The PNG colour type: 0 grayscale, 2 RGB, 3 indexed, 4 grayscale
    /// with alpha, 6 RGBA.
    pub color_type: u8,
    /// Bits per sample.
    pub bit_depth: u8,
    /// Bytes from the start of one row to the next.
    pub line_size: usize,
    /// The pixel rows.
    pub pixels: Vec<u8>,
}

/// A frame's fields as plain values.
pub open spec fn frame_view(f: PngFrame) -> (u32, u32, u8, u8, usize, Seq<u8>) {
    (f.width, f.height, f.color_type, f.bit_depth, f.line_size, f.pixels@)
}

/// The frame the `png` crate decodes from `bytes` with its samples
/// normalized to 8-bit colour, or `None` when decoding fails.
pub uninterp spec fn png_decoded(bytes: Seq<u8>) -> Option<(u32, u32, u8, u8, usize, Seq<u8>)>;

/// Decodes `bytes` with the `png` crate: `Decoder::new` on the bytes,
/// `set_transformations(Transformations::normalize_to_color8())`,
/// `read_info`, a buffer of `output_buffer_size` bytes (its `None` is
/// reported as "image was too big"), and `next_frame`, whose `OutputInfo`
/// gives the size, colour type, bit depth and line size.  The result is a
/// function of the bytes alone; the decoder's error messages are not stated.
#[verifier::external_body]
fn decode_png(bytes: &[u8]) -> (r: Result<PngFrame, String>)
    ensures
        r is Ok <==> png_decoded(bytes@) is Some,
        r matches Ok(f) ==> png_decoded(bytes@) == Some(frame_view(f)),
{
    let mut decoder = png::Decoder::new(std::io::Cursor::new(bytes));
    decoder.set_transformations(png::Transformations::normalize_to_color8());
    let mut reader = decoder.read_info().map_err(|e| e.to_string())?;
    let mut pixels = vec![0; reader.output_buffer_size().ok_or("image was too big")?];
    let info = reader.next_frame(&mut pixels).map_err(|e| e.to_string())?;
    let (color_type, bit_depth) = (info.color_type as u8, info.bit_depth as u8);
    Ok(PngFrame { width: info.width, height: info.height, color_type, bit_depth, line_size: info.line_size, pixels })
}

/// The layout of 8-bit colour data of a PNG colour type; `None` for
/// indexed colour (and codes that are no colour type).
pub open spec fn spec_layout_of(color_type: u8) -> Option<PixelLayout> {
    if color_type == 0 {
        Some(PixelLayout::Grayscale)
    } else if color_type == 4 {
        Some(PixelLayout::GrayscaleAlpha)
    } else if color_type == 2 {
        Some(PixelLayout::Rgb)
    } else if color_type == 6 {
        Some(PixelLayout::Rgba)
    } else {
        None
    }
}

/// The layout of 8-bit colour data of a PNG colour type.
pub fn layout_of(color_type: u8) -> (r: Option<PixelLayout>)
    ensures
        r == spec_layout_of(color_type),
{
    if color_type == 0 {
        Some(PixelLayout::Grayscale)
    } else if color_type == 4 {
        Some(PixelLayout::GrayscaleAlpha)
    } else if color_type == 2 {
        Some(PixelLayout::Rgb)
    } else if color_type == 6 {
        Some(PixelLayout::Rgba)
    } else {
        None
    }
}

/// The PNG colour types the loader takes and their channels: grey (0) has
/// one sample per pixel and loads as `LUMINANCE`, grey with alpha (4) two
/// as `LUMINANCE_ALPHA`, RGB (2) three as `RGB`, RGBA (6) four as `RGBA`;
/// every other colour type (indexed colour) is refused.
pub proof fn lemma_layout_channels(color_type: u8)
    ensures
        spec_layout_of(color_type) is Some <==> (color_type == 0 || color_type == 2 || color_type == 4
            || color_type == 6),
        color_type == 0 ==> (spec_layout_of(color_type) matches Some(l) && spec_samples(l) == 1
            && spec_pixel_format(l) == 0x1909),
        color_type == 4 ==> (spec_layout_of(color_type) matches Some(l) && spec_samples(l) == 2
            && spec_pixel_format(l) == 0x190A),
        color_type == 2 ==> (spec_layout_of(color_type) matches Some(l) && spec_samples(l) == 3
            && spec_pixel_format(l) == 0x1907),
        color_type == 6 ==> spec_layout_of(color_type) == Some(PixelLayout::Rgba) && spec_samples(
            PixelLayout::Rgba,
        ) == 4 && spec_pixel_format(PixelLayout::Rgba) == 0x1908,
{
}

proof fn lemma_round_up_bounds(n: int, a: int)
    requires
        0 <= n,
        a == 2 || a == 4 || a == 8,
    ensures
        n <= spec_round_up(n, a) < n + a,
        spec_round_up(n, a) % a == 0,
{
    let q = (n + a - 1) / a;
    assert(q * a <= n + a - 1 < q * a + a) by (nonlinear_arith)
        requires
            a > 0,
            q == (n + a - 1) / a,
    ;
    assert((q * a) % a == 0) by (nonlinear_arith)
        requires
            a > 0,
    ;
}

/// What a loaded PNG frame is uploaded as: the pixel format of its colour
/// type (grey 0 `LUMINANCE`, grey with alpha 4 `LUMINANCE_ALPHA`, RGB 2
/// `RGB`, RGBA 6 `RGBA`), the image size of the frame, and an unpack
/// alignment of 1, 2, 4 or 8 to which the pixel row (the width times the
/// colour type's channel count: 1, 2, 3 or 4 bytes a pixel) rounds up to
/// give the row stride.
pub proof fn lemma_loaded_frame_layout(
    d: (u32, u32, u8, u8, usize, Seq<u8>),
    sdf: bool,
    r: Result<(PngUploadPlan, TextureSize, Vec<u8>), String>,
)
    requires
        spec_frame_usable(d),
        spec_frame_loaded(d, sdf, r),
    ensures
        r matches Ok((p, _, _)) ==> {
            let channels: int = if d.2 == 0 {
                1
            } else if d.2 == 4 {
                2
            } else if d.2 == 2 {
                3
            } else {
                4
            };
            let row = d.0 * channels;
            &&& (d.2 == 0 && p.format == 0x1909) || (d.2 == 4 && p.format == 0x190A) || (d.2 == 2
                && p.format == 0x1907) || (d.2 == 6 && p.format == 0x1908)
            &&& p.dims.width == d.0 && p.dims.height == d.1
            &&& p.alignment == 1 || p.alignment == 2 || p.alignment == 4 || p.alignment == 8
            &&& row <= d.4 < row + p.alignment
            &&& (d.4 as int) % (p.alignment as int) == 0
        },
{
    if let Ok((p, _, _)) = r {
        let l = spec_layout_of(d.2)->0;
        let row = d.0 * spec_samples(l);
        assert(row >= 0) by (nonlinear_arith)
            requires
                d.0 >= 0,
                spec_samples(l) >= 1,
                row == d.0 * spec_samples(l),
        ;
        if p.alignment == 2 {
            lemma_round_up_bounds(row, 2);
        } else if p.alignment == 4 {
            lemma_round_up_bounds(row, 4);
        } else if p.alignment == 8 {
            lemma_round_up_bounds(row, 8);
        }
    }
}

/// Whether the loader can use a decoded frame: 8-bit samples of a colour
/// layout, and rows of some length unless the plan is refused anyway.
pub open spec fn spec_frame_usable(d: (u32, u32, u8, u8, usize, Seq<u8>)) -> bool {
    &&& d.3 == 8
    &&& spec_layout_of(d.2) is Some
    &&& (d.4 > 0 || spec_png_plan(d.0, d.1, spec_layout_of(d.2)->0, d.4) is Err)
}

/// What loading a usable frame gives: the plan, or its error, with the
/// size the texture reports and the rows reversed to a bottom-left origin.
pub open spec fn spec_frame_loaded(
    d: (u32, u32, u8, u8, usize, Seq<u8>),
    sdf: bool,
    r: Result<(PngUploadPlan, TextureSize, Vec<u8>), String>,
) -> bool {
    match spec_png_plan(d.0, d.1, spec_layout_of(d.2)->0, d.4) {
        Err(e) => r matches Err(m) && m@ == e,
        Ok(p) => r matches Ok((q, size, pixels)) && q == p && is_image_size(size, p.dims, sdf)
            && pixels@ == spec_rows_reversed(d.5, d.4 as int),
    }
}

/// Plan the upload of a decoded frame and reverse its rows, which the
/// decoder gives top row first, to the bottom-left origin of textures;
/// `sdf` marks a signed distance field.
pub fn png_frame_plan(frame: PngFrame, sdf: bool) -> (r: Result<(PngUploadPlan, TextureSize, Vec<u8>), String>)
    requires
        spec_frame_usable(frame_view(frame)),
    ensures
        spec_frame_loaded(frame_view(frame), sdf, r),
{
    let layout = match layout_of(frame.color_type) {
        Some(l) => l,
        None => {
            return vstd::pervasive::unreached();
        },
    };
    let plan = match png_upload_plan(frame.width, frame.height, layout, frame.line_size) {
        Ok(p) => p,
        Err(e) => {
            return Err(e.to_owned());
        },
    };
    let size = TextureSize::for_image(plan.dims, sdf);
    let mut pixels = frame.pixels;
    reverse_rows(pixels.as_mut_slice(), frame.line_size);
    Ok((plan, size, pixels))
}

/// Decode a PNG file's bytes and plan the upload of its image, with its
/// rows turned to a bottom-left origin; `sdf` marks a signed distance
/// field.  Bytes that do not decode give the decoder's error; a frame that
/// is not 8-bit colour data (which the decoder's normalization rules out),
/// or an empty row stride where the plan is accepted, is an error too.
pub fn load_png(bytes: &[u8], sdf: bool) -> (r: Result<(PngUploadPlan, TextureSize, Vec<u8>), String>)
    ensures
        png_decoded(bytes@) is None ==> r is Err,
        png_decoded(bytes@) matches Some(d) ==> (if spec_frame_usable(d) {
            spec_frame_loaded(d, sdf, r)
        } else {
            r is Err
        }),
{
    let frame = match decode_png(bytes) {
        Ok(f) => f,
        Err(e) => return Err(e),
    };
    if frame.bit_depth != 8 {
        return Err("png crate didn't return eight-bit data despite normalize_to_color8".to_owned());
    }
    let layout = match layout_of(frame.color_type) {
        Some(l) => l,
        None => {
            return Err("png crate didn't return color data despite normalize_to_color8".to_owned());
        },
    };
    if frame.line_size == 0 {
        match png_upload_plan(frame.width, frame.height, layout, frame.line_size) {
            Ok(_) => return Err("chunk size must be non-zero".to_owned()),
            Err(_) => {},
        }
    }
    png_frame_plan(frame, sdf)
}

} // verus!
