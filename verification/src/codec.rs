//! Decoding thumbnail bytes to plain RGBA pixels, and the shared encode
//! step: PNG serialization followed by base64. The codecs themselves are
//! outside work; the pipeline around them is verified.

use vstd::prelude::*;
use crate::raster::{
    clamp_len, crop_flat, pad_fits, pad_flat, side_of, logo_crop, pad_to_square, Raster,
    LOGO_CROP_H, LOGO_CROP_W, LOGO_CROP_X, LOGO_CROP_Y,
};
use image::ImageEncoder;
use base64::Engine;

verus! {

/// What the image decoder yields for a byte stream: `None` when the bytes
/// are not a decodable image, otherwise the width, height and 8-bit RGBA
/// pixel buffer. A function of the bytes alone.
pub uninterp spec fn decoded_of(bytes: Seq<u8>) -> Option<(u32, u32, Seq<u8>)>;

/// The PNG stream that encoding an RGBA buffer of the given dimensions
/// yields. A function of the pixel data alone.
pub uninterp spec fn png_of(w: u32, h: u32, data: Seq<u8>) -> Seq<u8>;

/// The standard-alphabet, padded base64 rendering of a byte stream.
pub uninterp spec fn b64_of(bytes: Seq<u8>) -> Seq<char>;

/// Relies on image::guess_format and image::load_from_memory_with_format,
/// followed by conversion to 8-bit RGBA. This pinned path uses only the
/// crate's built-in signatures and decoders — never its runtime-registered
/// format or decoding hooks — so whether the bytes decode, and to which
/// pixels, depends on the bytes alone; the resulting buffer holds four
/// bytes per pixel.
#[verifier::external_body]
fn decode_rgba(bytes: &Vec<u8>) -> (r: Option<Raster>)
    ensures
        r is Some <==> decoded_of(bytes@) is Some,
        r matches Some(img) ==> (decoded_of(bytes@) == Some((img.width, img.height, img.data@))
            && img.wf()),
{
    let format = match image::guess_format(bytes.as_slice()) {
        Ok(f) => f,
        Err(_) => return None,
    };
    let rgba = match image::load_from_memory_with_format(bytes.as_slice(), format) {
        Ok(decoded) => decoded.into_rgba8(),
        Err(_) => return None,
    };
    let (width, height) = (rgba.width(), rgba.height());
    Some(Raster { width, height, data: rgba.into_raw() })
}

/// Relies on image's PNG encoder (PngEncoder::write_image): the stream
/// depends on the pixels alone, and encoding an in-memory RGBA buffer
/// succeeds exactly when both dimensions are nonzero.
#[verifier::external_body]
fn png_encode(img: &Raster) -> (r: Option<Vec<u8>>)
    requires
        img.wf(),
    ensures
        r is Some <==> (img.width > 0 && img.height > 0),
        r matches Some(b) ==> b@ == png_of(img.width, img.height, img.data@),
{
    let mut buf: Vec<u8> = Vec::new();
    let encoder = image::codecs::png::PngEncoder::new(&mut buf);
    match encoder.write_image(&img.data, img.width, img.height, image::ExtendedColorType::Rgba8) {
        Ok(()) => Some(buf),
        Err(_) => None,
    }
}

/// Relies on base64's standard engine (Engine::encode with the standard
/// alphabet and padding): four output characters for every three input
/// bytes, rounded up. The length bound keeps the encoded size within
/// memory, under which the call cannot panic.
#[verifier::external_body]
fn b64_encode(bytes: &Vec<u8>) -> (r: String)
    requires
        bytes@.len() <= usize::MAX / 4,
    ensures
        r@ == b64_of(bytes@),
        r@.len() == 4 * ((bytes@.len() + 2) / 3),
{
    base64::engine::general_purpose::STANDARD.encode(bytes.as_slice())
}

/// The encode step on a transformed image: absent for an empty image, or
/// when the PNG stream would be too large to render as base64; otherwise
/// the base64 rendering of the PNG stream.
pub open spec fn spec_encode_step(w: int, h: int, d: Seq<u8>) -> Option<Seq<char>> {
    if w == 0 || h == 0 {
        None
    } else {
        let p = png_of(w as u32, h as u32, d);
        if p.len() <= usize::MAX / 4 {
            Some(b64_of(p))
        } else {
            None
        }
    }
}

/// The whole thumbnail pipeline as a value: decode, transform (fixed
/// logo-crop when `crop` is set, square-pad otherwise), then PNG + base64.
/// Absent when the bytes do not decode, when the padded canvas would not
/// fit in memory, or when the encode step yields nothing.
pub open spec fn spec_thumb(bytes: Seq<u8>, crop: bool) -> Option<Seq<char>> {
    match decoded_of(bytes) {
        Option::None => None,
        Option::Some(dec) => {
            let w = dec.0 as int;
            let h = dec.1 as int;
            let d = dec.2;
            if crop {
                spec_encode_step(
                    clamp_len(w, LOGO_CROP_X as int, LOGO_CROP_W as int),
                    clamp_len(h, LOGO_CROP_Y as int, LOGO_CROP_H as int),
                    crop_flat(
                        w,
                        h,
                        d,
                        LOGO_CROP_X as int,
                        LOGO_CROP_Y as int,
                        LOGO_CROP_W as int,
                        LOGO_CROP_H as int,
                    ),
                )
            } else {
                if pad_fits(w, h) {
                    spec_encode_step(side_of(w, h), side_of(w, h), pad_flat(w, h, d))
                } else {
                    None
                }
            }
        },
    }
}

/// Normalize raw thumbnail bytes into the self-describing encoded image
/// string: decode, apply the chosen transform, encode as PNG, render as
/// base64. Returns `None` exactly when the pipeline value is absent —
/// undecodable bytes, an empty result image, or one too large to hold.
pub fn process_thumbnail(bytes: &Vec<u8>, crop: bool) -> (r: Option<String>)
    ensures
        r.deep_view() == spec_thumb(bytes@, crop),
{
    let img = match decode_rgba(bytes) {
        Some(i) => i,
        None => {
            return None;
        },
    };
    let transformed: Raster;
    if crop {
        transformed = logo_crop(&img);
    } else {
        let s: u32 = if img.width >= img.height {
            img.width
        } else {
            img.height
        };
        proof {
            assert((s as int) * (s as int) <= 0xFFFF_FFFFu32 * 0xFFFF_FFFFu32) by (nonlinear_arith)
                requires 0 <= (s as int), (s as int) <= 0xFFFF_FFFFu32;
        }
        let sq: u128 = (s as u128) * (s as u128);
        if !(4 * sq <= usize::MAX as u128) {
            return None;
        }
        transformed = pad_to_square(&img);
    }
    if transformed.width == 0 || transformed.height == 0 {
        return None;
    }
    let png = match png_encode(&transformed) {
        Some(p) => p,
        None => {
            return None;
        },
    };
    if !(png.len() <= usize::MAX / 4) {
        return None;
    }
    Some(b64_encode(&png))
}

} // verus!
