//! Thumbnail previews.
//!
//! A preview is a small resampled copy of a raster, re-encoded as PNG and
//! embedded in a `data:` URI, so the consumer can display it without any
//! further decoding. Generating one is a pure function of the raster; a
//! caller-supplied scratch buffer is reused across a batch and cleared
//! before each use.

use vstd::prelude::*;
use vstd::string::StringExecFns;

use base64::Engine;

use crate::raster::{Raster, RasterView};

verus! {

/// The PNG bytes of the preview: the raster resampled to fit a 64-by-64
/// square, then PNG-encoded; `None` when the PNG encoder refuses the
/// resampled image. Depends on the raster alone.
pub uninterp spec fn thumbnail_png(r: RasterView) -> Option<Seq<u8>>;

/// The text that the standard base64 alphabet, with padding, encodes a byte
/// buffer to. Depends on the bytes alone.
pub uninterp spec fn base64_std(bytes: Seq<u8>) -> Seq<char>;

/// The complete preview `data:` URI of a raster whose preview renders.
pub open spec fn preview_uri(r: RasterView) -> Seq<char> {
    "data:image/png;base64,"@ + base64_std(thumbnail_png(r).unwrap())
}

/// Relies on DynamicImage::resize (Lanczos3 filter, bounded by 64 by 64,
/// aspect ratio kept) and DynamicImage::write_to with the PNG format:
/// whether rendering succeeds, and to which bytes, depends on the raster
/// alone, and writing starts at the front of the buffer, so an empty
/// buffer ends up holding exactly those bytes.
#[verifier::external_body]
fn render_thumbnail(r: &Raster, buffer: &mut Vec<u8>) -> (ok: bool)
    requires
        old(buffer)@.len() == 0,
    ensures
        ok <==> thumbnail_png(r@) is Some,
        ok ==> Some(final(buffer)@) == thumbnail_png(r@),
{
    let resized = r.image_handle().resize(64, 64, image::imageops::FilterType::Lanczos3);
    let mut cursor = std::io::Cursor::new(&mut *buffer);
    resized.write_to(&mut cursor, image::ImageFormat::Png).is_ok()
}

/// Relies on base64's STANDARD engine encode: the text depends on the input
/// bytes alone, and no bytes encode to no text.
#[verifier::external_body]
fn base64_encode(bytes: &Vec<u8>) -> (r: String)
    ensures
        r@ == base64_std(bytes@),
        bytes@.len() == 0 ==> r@.len() == 0,
{
    base64::engine::general_purpose::STANDARD.encode(bytes)
}

/// Renders the preview of a raster as a self-describing `data:` URI.
///
/// The scratch buffer is cleared before use and left holding the preview's
/// PNG bytes; callers reusing it across a batch must not assume its
/// contents persist. Succeeds exactly when the preview renders, which
/// depends on the raster alone; `None` comes back only when the PNG
/// encoder refuses the resampled image.
pub fn generate_sample_image(img: &Raster, buffer: &mut Vec<u8>) -> (r: Option<String>)
    ensures
        r is Some <==> thumbnail_png(img@) is Some,
        r matches Some(uri) ==> {
            &&& uri@ == preview_uri(img@)
            &&& Some(final(buffer)@) == thumbnail_png(img@)
        },
{
    buffer.clear();
    if !render_thumbnail(img, buffer) {
        return None;
    }
    let encoded = base64_encode(buffer);
    let mut uri = String::new();
    uri.append("data:image/png;base64,");
    uri.append(encoded.as_str());
    Some(uri)
}

} // verus!
