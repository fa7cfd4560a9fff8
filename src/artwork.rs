//! Turning downloaded image bytes into an RGBA bitmap the render layer can
//! upload.
use vstd::prelude::*;
use crate::catalog::CatalogError;

verus! {

/// Message of the error given for image bytes that do not decode to a
/// well-formed bitmap.
pub const UNDECODABLE_IMAGE: &'static str = "image bytes do not decode";

/// What the image decoder makes of `bytes`: width, height and RGBA pixels,
/// or nothing where the format is not recognised or the data is corrupt.
pub uninterp spec fn rgba_of(bytes: Seq<u8>) -> Option<(u32, u32, Seq<u8>)>;

/// Relies on `image::load_from_memory` (format sniffed from the bytes)
/// followed by `DynamicImage::to_rgba8` and `ImageBuffer::into_raw`: the
/// result depends on the bytes alone.
#[verifier::external_body]
fn decode_rgba(bytes: &[u8]) -> (r: Option<(u32, u32, Vec<u8>)>)
    ensures
        match r {
            Some((w, h, p)) => rgba_of(bytes@) == Some((w, h, p@)),
            None => rgba_of(bytes@) is None,
        },
{
    match image::load_from_memory(bytes) {
        Ok(img) => {
            let rgba = img.to_rgba8();
            Some((rgba.width(), rgba.height(), rgba.into_raw()))
        },
        Err(_) => None,
    }
}

/// An image as rows of RGBA pixels, four bytes each.
pub struct Bitmap {
    pub width: u32,
    pub height: u32,
    pub pixels: Vec<u8>,
}

/// Whether `pixels` holds exactly four bytes for each of `width * height`
/// pixels.
pub open spec fn is_rgba_frame(width: u32, height: u32, pixels: Seq<u8>) -> bool {
    pixels.len() == 4 * (width as int) * (height as int)
}

/// The bitmap for a decoder's output: present and of exactly four bytes per
/// pixel, else a decode error.
pub fn bitmap_from_decoded(decoded: Option<(u32, u32, Vec<u8>)>) -> (r: Result<Bitmap, CatalogError>)
    ensures
        match decoded {
            Some((w, h, p)) => if is_rgba_frame(w, h, p@) {
                r matches Ok(b) && b.width == w && b.height == h && b.pixels@ == p@
            } else {
                r matches Err(CatalogError::Decode(m)) && m@ == UNDECODABLE_IMAGE@
            },
            None => r matches Err(CatalogError::Decode(m)) && m@ == UNDECODABLE_IMAGE@,
        },
{
    match decoded {
        Some((w, h, p)) => {
            assert((w as int) * (h as int) <= 0xffff_ffffu128 * 0xffff_ffffu128) by (nonlinear_arith)
                requires
                    w <= 0xffff_ffffu32,
                    h <= 0xffff_ffffu32,
            ;
            let area: u128 = (w as u128) * (h as u128);
            assert(area * 4 == 4 * (w as int) * (h as int)) by (nonlinear_arith)
                requires
                    area == (w as int) * (h as int),
            ;
            let n = p.len();
            if (n as u128) == area * 4 {
                Ok(Bitmap { width: w, height: h, pixels: p })
            } else {
                Err(CatalogError::Decode(String::from_str(UNDECODABLE_IMAGE)))
            }
        },
        None => Err(CatalogError::Decode(String::from_str(UNDECODABLE_IMAGE))),
    }
}

/// Decodes downloaded image bytes into a bitmap; bytes the decoder rejects,
/// or whose output is not a whole RGBA frame, give a decode error.
pub fn decode_printing_image(bytes: &[u8]) -> (r: Result<Bitmap, CatalogError>)
    ensures
        match rgba_of(bytes@) {
            Some((w, h, p)) => if is_rgba_frame(w, h, p) {
                r matches Ok(b) && b.width == w && b.height == h && b.pixels@ == p
            } else {
                r matches Err(CatalogError::Decode(m)) && m@ == UNDECODABLE_IMAGE@
            },
            None => r matches Err(CatalogError::Decode(m)) && m@ == UNDECODABLE_IMAGE@,
        },
{
    bitmap_from_decoded(decode_rgba(bytes))
}

} // verus!
