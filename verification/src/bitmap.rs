//! Raw RGBA bitmaps, and the image-codec edge of the pipeline: decoding the
//! fetched avatar bytes, nearest-neighbor downscaling, and PNG encoding.
//! The codecs themselves come from the `image` crate and are trusted; what
//! surrounds them is verified.

use vstd::prelude::*;
use image::ImageEncoder;
use crate::errors::PipelineError;

verus! {

/// An RGBA bitmap held as its raw bytes, four per pixel, row by row.
#[derive(Debug)]
pub struct RgbaBitmap {
    pub pixels: Vec<u8>,
    pub width: u32,
    pub height: u32,
}

impl RgbaBitmap {
    /// The pixel buffer holds exactly four bytes per pixel.
    pub open spec fn wf(&self) -> bool {
        self.pixels@.len() == 4 * self.width * self.height
    }
}

/// What `image::load_from_memory` followed by `DynamicImage::as_rgba8`
/// yields for the given bytes: the raw pixels, width, and height of the
/// decoded RGBA image, or nothing when the bytes do not decode to one. The
/// decoders read the bytes alone, so the result is a function of them.
pub uninterp spec fn decoded_rgba(bytes: Seq<u8>) -> Option<(Seq<u8>, u32, u32)>;

/// Relies on `image::load_from_memory` to decode the bytes, and on
/// `DynamicImage::as_rgba8` to expose them as an 8-bit RGBA buffer (it
/// returns nothing for any other channel layout). An `ImageBuffer` always
/// holds exactly as many bytes as its dimensions ask for.
#[verifier::external_body]
fn load_rgba(bytes: &Vec<u8>) -> (r: Option<RgbaBitmap>)
    ensures
        r is Some <==> decoded_rgba(bytes@) is Some,
        r matches Some(b) ==> ({
            &&& b.wf()
            &&& decoded_rgba(bytes@) matches Some(d) && b.pixels@ == d.0 && b.width == d.1
                && b.height == d.2
        }),
{
    let img = match image::load_from_memory(bytes) {
        Ok(i) => i,
        Err(_) => return None,
    };
    let buf = match img.as_rgba8() {
        Some(b) => b,
        None => return None,
    };
    let (width, height) = buf.dimensions();
    Some(RgbaBitmap { pixels: buf.as_raw().clone(), width, height })
}

/// Decodes the avatar bytes fetched for a player into an RGBA bitmap.
/// Bytes that are not a decodable RGBA image are a decode failure.
pub fn decode_avatar(bytes: &Vec<u8>) -> (r: Result<RgbaBitmap, PipelineError>)
    ensures
        r is Ok <==> decoded_rgba(bytes@) is Some,
        r matches Ok(b) ==> ({
            &&& b.wf()
            &&& decoded_rgba(bytes@) matches Some(d) && b.pixels@ == d.0 && b.width == d.1
                && b.height == d.2
        }),
        r matches Err(e) ==> e == PipelineError::Decode,
{
    match load_rgba(bytes) {
        Some(b) => Ok(b),
        None => Err(PipelineError::Decode),
    }
}

/// What `image::imageops::resize` with the nearest-neighbor filter yields
/// for the given raw pixels and dimensions: the raw pixels of the resampled
/// image. The resampling reads its arguments alone.
pub uninterp spec fn nearest_scaled(
    pixels: Seq<u8>,
    width: u32,
    height: u32,
    new_width: u32,
    new_height: u32,
) -> Seq<u8>;

/// Relies on `image::imageops::resize` with `FilterType::Nearest`: it
/// returns an image of exactly the requested dimensions. Zero extents are
/// kept out: the resampler divides by them.
#[verifier::external_body]
pub(crate) fn resize_rgba(bmp: &RgbaBitmap, new_width: u32, new_height: u32) -> (r: RgbaBitmap)
    requires
        bmp.wf(),
        bmp.width > 0,
        bmp.height > 0,
        new_width > 0,
        new_height > 0,
    ensures
        r.width == new_width,
        r.height == new_height,
        r.wf(),
        r.pixels@ == nearest_scaled(bmp.pixels@, bmp.width, bmp.height, new_width, new_height),
{
    let img = image::RgbaImage::from_raw(bmp.width, bmp.height, bmp.pixels.clone())
        .expect("a well-formed bitmap fits its dimensions");
    let out = image::imageops::resize(&img, new_width, new_height, image::imageops::FilterType::Nearest);
    RgbaBitmap { pixels: out.into_raw(), width: new_width, height: new_height }
}

/// What `PngEncoder::write_image` writes for the given raw pixels and
/// dimensions: the PNG encoding of the image. The encoder reads its
/// arguments alone.
pub uninterp spec fn png_encoding(pixels: Seq<u8>, width: u32, height: u32) -> Seq<u8>;

/// Relies on `image::codecs::png::PngEncoder::write_image` with the 8-bit
/// RGBA color type, writing into a growable buffer. It panics unless the
/// buffer holds exactly four bytes per pixel, and its only error cases are
/// a zero width or height — an in-memory write cannot fail, and the image
/// data is emitted in chunks below the chunk-size cap. So only well-formed,
/// nonempty bitmaps are let in, and the encoding always comes back.
#[verifier::external_body]
pub(crate) fn encode_png_rgba(bmp: &RgbaBitmap) -> (r: Vec<u8>)
    requires
        bmp.wf(),
        bmp.width > 0,
        bmp.height > 0,
    ensures
        r@ == png_encoding(bmp.pixels@, bmp.width, bmp.height),
{
    let mut out = Vec::new();
    let enc = image::codecs::png::PngEncoder::new(&mut out);
    enc.write_image(&bmp.pixels, bmp.width, bmp.height, image::ColorType::Rgba8)
        .expect("failed to encode image");
    out
}

} // verus!
