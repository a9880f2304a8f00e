//! The conversion engine: encodes a raster into a chosen target format.
//!
//! Each supported target format has its own encoder in the imaging library,
//! reached through one trusted wrapper per encoder. Whether an encoder
//! accepts a raster, and (for every format but OpenEXR, whose writer
//! compresses blocks in parallel and emits them in completion order) which
//! bytes it emits, depend on the raster alone; each wrapper pins both to a
//! named encoding of the raster's view, so [`convert`]'s contract says
//! exactly when conversion succeeds and which bytes come back.

use vstd::prelude::*;

use image::ImageEncoder;

use crate::raster::{sniffed_format, Raster, RasterView};
use crate::format::Format;

verus! {

/// Why a conversion produced no bytes.
#[derive(Clone, Copy, PartialEq, Eq, Structural, Debug)]
pub enum ConversionError {
    /// The target format is exposed to the caller but has no wired encoder.
    Unsupported,
    /// The target format's encoder refused the raster.
    Encoder,
}

pub uninterp spec fn png_encoding(r: RasterView) -> Option<Seq<u8>>;

pub uninterp spec fn jpeg_encoding(r: RasterView) -> Option<Seq<u8>>;

pub uninterp spec fn gif_encoding(r: RasterView) -> Option<Seq<u8>>;

pub uninterp spec fn pnm_encoding(r: RasterView) -> Option<Seq<u8>>;

pub uninterp spec fn tiff_encoding(r: RasterView) -> Option<Seq<u8>>;

pub uninterp spec fn tga_encoding(r: RasterView) -> Option<Seq<u8>>;

pub uninterp spec fn bmp_encoding(r: RasterView) -> Option<Seq<u8>>;

pub uninterp spec fn ico_encoding(r: RasterView) -> Option<Seq<u8>>;

pub uninterp spec fn hdr_encoding(r: RasterView) -> Option<Seq<u8>>;

pub uninterp spec fn farbfeld_encoding(r: RasterView) -> Option<Seq<u8>>;

pub uninterp spec fn avif_encoding(r: RasterView) -> Option<Seq<u8>>;

pub uninterp spec fn qoi_encoding(r: RasterView) -> Option<Seq<u8>>;

/// Whether the OpenEXR writer accepts a raster. Acceptance depends on the
/// raster alone; the emitted bytes do not (see [`encode_exr`]), so only
/// acceptance carries a name.
pub uninterp spec fn exr_encodes(r: RasterView) -> bool;

/// Whether the target format's encoder accepts the raster.
pub open spec fn encoder_accepts(r: RasterView, target: Format) -> bool {
    match target {
        Format::Png => png_encoding(r) is Some,
        Format::Jpeg => jpeg_encoding(r) is Some,
        Format::Gif => gif_encoding(r) is Some,
        Format::Pnm => pnm_encoding(r) is Some,
        Format::Tiff => tiff_encoding(r) is Some,
        Format::Tga => tga_encoding(r) is Some,
        Format::Bmp => bmp_encoding(r) is Some,
        Format::Ico => ico_encoding(r) is Some,
        Format::Hdr => hdr_encoding(r) is Some,
        Format::OpenExr => exr_encodes(r),
        Format::Farbfeld => farbfeld_encoding(r) is Some,
        Format::Avif => avif_encoding(r) is Some,
        Format::Qoi => qoi_encoding(r) is Some,
        Format::WebP => false,
    }
}

/// When converting a raster to a target format succeeds: the format has a
/// wired encoder and that encoder accepts the raster.
pub open spec fn conversion_succeeds(r: RasterView, target: Format) -> bool {
    target.encodable() && encoder_accepts(r, target)
}

/// The bytes a successful conversion yields. Meaningful whenever
/// `conversion_succeeds` holds, except for OpenEXR, whose bytes are not a
/// function of the raster; that arm, like the encoderless one, is never
/// relied upon.
pub open spec fn encoding_of(r: RasterView, target: Format) -> Seq<u8> {
    match target {
        Format::Png => png_encoding(r).unwrap(),
        Format::Jpeg => jpeg_encoding(r).unwrap(),
        Format::Gif => gif_encoding(r).unwrap(),
        Format::Pnm => pnm_encoding(r).unwrap(),
        Format::Tiff => tiff_encoding(r).unwrap(),
        Format::Tga => tga_encoding(r).unwrap(),
        Format::Bmp => bmp_encoding(r).unwrap(),
        Format::Ico => ico_encoding(r).unwrap(),
        Format::Hdr => hdr_encoding(r).unwrap(),
        Format::OpenExr => Seq::<u8>::empty(),
        Format::Farbfeld => farbfeld_encoding(r).unwrap(),
        Format::Avif => avif_encoding(r).unwrap(),
        Format::Qoi => qoi_encoding(r).unwrap(),
        Format::WebP => Seq::<u8>::empty(),
    }
}

/// Relies on image's PngEncoder::write_image: acceptance and output depend
/// on the raster's pixels, dimensions and color type alone; the output
/// starts with the PNG signature, which content sniffing detects.
#[verifier::external_body]
fn encode_png(r: &Raster) -> (res: Result<Vec<u8>, ()>)
    ensures
        res is Ok <==> png_encoding(r@) is Some,
        res matches Ok(b) ==> {
            &&& Some(b@) == png_encoding(r@)
            &&& b@.len() > 0
            &&& sniffed_format(b@) == Some(Format::Png)
        },
{
    let mut buffer = Vec::new();
    let img = r.image_handle();
    let enc = image::codecs::png::PngEncoder::new(std::io::Cursor::new(&mut buffer));
    let color = image::ExtendedColorType::from(img.color());
    match enc.write_image(img.as_bytes(), img.width(), img.height(), color) {
        Ok(()) => Ok(buffer),
        Err(_) => Err(()),
    }
}

/// Relies on image's JpegEncoder::write_image after DynamicImage::to_rgb8:
/// the raster is coerced to 8-bit RGB first, silently dropping any alpha
/// channel; acceptance and output depend on the raster alone; the output
/// starts with the JPEG start-of-image marker, which sniffing detects.
#[verifier::external_body]
fn encode_jpeg(r: &Raster) -> (res: Result<Vec<u8>, ()>)
    ensures
        res is Ok <==> jpeg_encoding(r@) is Some,
        res matches Ok(b) ==> {
            &&& Some(b@) == jpeg_encoding(r@)
            &&& b@.len() > 0
            &&& sniffed_format(b@) == Some(Format::Jpeg)
        },
{
    let mut buffer = Vec::new();
    let rgb = r.image_handle().to_rgb8();
    let enc = image::codecs::jpeg::JpegEncoder::new(std::io::Cursor::new(&mut buffer));
    match enc.write_image(&rgb, rgb.width(), rgb.height(), image::ExtendedColorType::Rgb8) {
        Ok(()) => Ok(buffer),
        Err(_) => Err(()),
    }
}

/// Relies on image's GifEncoder::encode: acceptance (dimensions fit in 16
/// bits, supported color) and output depend on the raster alone; the output
/// starts with the GIF header, which sniffing detects.
#[verifier::external_body]
fn encode_gif(r: &Raster) -> (res: Result<Vec<u8>, ()>)
    ensures
        res is Ok <==> gif_encoding(r@) is Some,
        res matches Ok(b) ==> {
            &&& Some(b@) == gif_encoding(r@)
            &&& b@.len() > 0
            &&& sniffed_format(b@) == Some(Format::Gif)
        },
{
    let mut buffer = Vec::new();
    let img = r.image_handle();
    let color = image::ExtendedColorType::from(img.color());
    let res = {
        let mut enc = image::codecs::gif::GifEncoder::new(std::io::Cursor::new(&mut buffer));
        enc.encode(img.as_bytes(), img.width(), img.height(), color)
    };
    match res {
        Ok(()) => Ok(buffer),
        Err(_) => Err(()),
    }
}

/// Relies on image's PnmEncoder::write_image: acceptance and output depend
/// on the raster alone; the output starts with a PNM magic number, which
/// sniffing detects.
#[verifier::external_body]
fn encode_pnm(r: &Raster) -> (res: Result<Vec<u8>, ()>)
    ensures
        res is Ok <==> pnm_encoding(r@) is Some,
        res matches Ok(b) ==> {
            &&& Some(b@) == pnm_encoding(r@)
            &&& b@.len() > 0
            &&& sniffed_format(b@) == Some(Format::Pnm)
        },
{
    let mut buffer = Vec::new();
    let img = r.image_handle();
    let enc = image::codecs::pnm::PnmEncoder::new(std::io::Cursor::new(&mut buffer));
    let color = image::ExtendedColorType::from(img.color());
    match enc.write_image(img.as_bytes(), img.width(), img.height(), color) {
        Ok(()) => Ok(buffer),
        Err(_) => Err(()),
    }
}

/// Relies on image's TiffEncoder::write_image: acceptance and output depend
/// on the raster alone; the output starts with the TIFF byte-order mark,
/// which sniffing detects.
#[verifier::external_body]
fn encode_tiff(r: &Raster) -> (res: Result<Vec<u8>, ()>)
    ensures
        res is Ok <==> tiff_encoding(r@) is Some,
        res matches Ok(b) ==> {
            &&& Some(b@) == tiff_encoding(r@)
            &&& b@.len() > 0
            &&& sniffed_format(b@) == Some(Format::Tiff)
        },
{
    let mut buffer = Vec::new();
    let img = r.image_handle();
    let enc = image::codecs::tiff::TiffEncoder::new(std::io::Cursor::new(&mut buffer));
    let color = image::ExtendedColorType::from(img.color());
    match enc.write_image(img.as_bytes(), img.width(), img.height(), color) {
        Ok(()) => Ok(buffer),
        Err(_) => Err(()),
    }
}

/// Relies on image's TgaEncoder::write_image: acceptance and output depend
/// on the raster alone. TGA has no magic bytes, so nothing is said of
/// sniffing its output.
#[verifier::external_body]
fn encode_tga(r: &Raster) -> (res: Result<Vec<u8>, ()>)
    ensures
        res is Ok <==> tga_encoding(r@) is Some,
        res matches Ok(b) ==> {
            &&& Some(b@) == tga_encoding(r@)
            &&& b@.len() > 0
        },
{
    let mut buffer = Vec::new();
    let img = r.image_handle();
    let enc = image::codecs::tga::TgaEncoder::new(std::io::Cursor::new(&mut buffer));
    let color = image::ExtendedColorType::from(img.color());
    match enc.write_image(img.as_bytes(), img.width(), img.height(), color) {
        Ok(()) => Ok(buffer),
        Err(_) => Err(()),
    }
}

/// Relies on image's BmpEncoder::write_image: acceptance and output depend
/// on the raster alone; the output starts with the BMP header, which
/// sniffing detects.
#[verifier::external_body]
fn encode_bmp(r: &Raster) -> (res: Result<Vec<u8>, ()>)
    ensures
        res is Ok <==> bmp_encoding(r@) is Some,
        res matches Ok(b) ==> {
            &&& Some(b@) == bmp_encoding(r@)
            &&& b@.len() > 0
            &&& sniffed_format(b@) == Some(Format::Bmp)
        },
{
    let mut buffer = Vec::new();
    let img = r.image_handle();
    let mut cursor = std::io::Cursor::new(&mut buffer);
    let enc = image::codecs::bmp::BmpEncoder::new(&mut cursor);
    let color = image::ExtendedColorType::from(img.color());
    match enc.write_image(img.as_bytes(), img.width(), img.height(), color) {
        Ok(()) => Ok(buffer),
        Err(_) => Err(()),
    }
}

/// Relies on image's IcoEncoder::write_image: acceptance (dimensions up to
/// 256) and output depend on the raster alone; the output starts with the
/// ICO magic bytes, which sniffing detects.
#[verifier::external_body]
fn encode_ico(r: &Raster) -> (res: Result<Vec<u8>, ()>)
    ensures
        res is Ok <==> ico_encoding(r@) is Some,
        res matches Ok(b) ==> {
            &&& Some(b@) == ico_encoding(r@)
            &&& b@.len() > 0
            &&& sniffed_format(b@) == Some(Format::Ico)
        },
{
    let mut buffer = Vec::new();
    let img = r.image_handle();
    let enc = image::codecs::ico::IcoEncoder::new(std::io::Cursor::new(&mut buffer));
    let color = image::ExtendedColorType::from(img.color());
    match enc.write_image(img.as_bytes(), img.width(), img.height(), color) {
        Ok(()) => Ok(buffer),
        Err(_) => Err(()),
    }
}

/// Relies on image's HdrEncoder::write_image: acceptance (32-bit float RGB
/// only) and output depend on the raster alone; the output starts with the
/// radiance signature, which sniffing detects.
#[verifier::external_body]
fn encode_hdr(r: &Raster) -> (res: Result<Vec<u8>, ()>)
    ensures
        res is Ok <==> hdr_encoding(r@) is Some,
        res matches Ok(b) ==> {
            &&& Some(b@) == hdr_encoding(r@)
            &&& b@.len() > 0
            &&& sniffed_format(b@) == Some(Format::Hdr)
        },
{
    let mut buffer = Vec::new();
    let img = r.image_handle();
    let enc = image::codecs::hdr::HdrEncoder::new(std::io::Cursor::new(&mut buffer));
    let color = image::ExtendedColorType::from(img.color());
    match enc.write_image(img.as_bytes(), img.width(), img.height(), color) {
        Ok(()) => Ok(buffer),
        Err(_) => Err(()),
    }
}

/// Relies on image's OpenExrEncoder::write_image. Acceptance (32-bit float
/// color only) depends on the raster alone, and the output starts with the
/// OpenEXR magic number, which sniffing detects; but the writer compresses
/// blocks in parallel and emits them in completion order, so the emitted
/// bytes are not a function of the raster and carry no name.
#[verifier::external_body]
fn encode_exr(r: &Raster) -> (res: Result<Vec<u8>, ()>)
    ensures
        res is Ok <==> exr_encodes(r@),
        res matches Ok(b) ==> {
            &&& b@.len() > 0
            &&& sniffed_format(b@) == Some(Format::OpenExr)
        },
{
    let mut buffer = Vec::new();
    let img = r.image_handle();
    let enc = image::codecs::openexr::OpenExrEncoder::new(std::io::Cursor::new(&mut buffer));
    let color = image::ExtendedColorType::from(img.color());
    match enc.write_image(img.as_bytes(), img.width(), img.height(), color) {
        Ok(()) => Ok(buffer),
        Err(_) => Err(()),
    }
}

/// Relies on image's FarbfeldEncoder::write_image: acceptance (16-bit RGBA
/// only) and output depend on the raster alone; the output starts with the
/// farbfeld magic bytes, which sniffing detects.
#[verifier::external_body]
fn encode_farbfeld(r: &Raster) -> (res: Result<Vec<u8>, ()>)
    ensures
        res is Ok <==> farbfeld_encoding(r@) is Some,
        res matches Ok(b) ==> {
            &&& Some(b@) == farbfeld_encoding(r@)
            &&& b@.len() > 0
            &&& sniffed_format(b@) == Some(Format::Farbfeld)
        },
{
    let mut buffer = Vec::new();
    let img = r.image_handle();
    let enc = image::codecs::farbfeld::FarbfeldEncoder::new(std::io::Cursor::new(&mut buffer));
    let color = image::ExtendedColorType::from(img.color());
    match enc.write_image(img.as_bytes(), img.width(), img.height(), color) {
        Ok(()) => Ok(buffer),
        Err(_) => Err(()),
    }
}

/// Relies on image's AvifEncoder::write_image, pinned to one encoding
/// thread: the AV1 tile count follows the thread count, so with one thread
/// acceptance and output depend on the raster alone; the output carries the
/// avif file-type box, which sniffing detects.
#[verifier::external_body]
fn encode_avif(r: &Raster) -> (res: Result<Vec<u8>, ()>)
    ensures
        res is Ok <==> avif_encoding(r@) is Some,
        res matches Ok(b) ==> {
            &&& Some(b@) == avif_encoding(r@)
            &&& b@.len() > 0
            &&& sniffed_format(b@) == Some(Format::Avif)
        },
{
    let mut buffer = Vec::new();
    let img = r.image_handle();
    let enc = image::codecs::avif::AvifEncoder::new(std::io::Cursor::new(&mut buffer))
        .with_num_threads(Some(1));
    let color = image::ExtendedColorType::from(img.color());
    match enc.write_image(img.as_bytes(), img.width(), img.height(), color) {
        Ok(()) => Ok(buffer),
        Err(_) => Err(()),
    }
}

/// Relies on image's QoiEncoder::write_image: acceptance (8-bit RGB or
/// RGBA) and output depend on the raster alone; the output starts with the
/// QOI magic bytes, which sniffing detects.
#[verifier::external_body]
fn encode_qoi(r: &Raster) -> (res: Result<Vec<u8>, ()>)
    ensures
        res is Ok <==> qoi_encoding(r@) is Some,
        res matches Ok(b) ==> {
            &&& Some(b@) == qoi_encoding(r@)
            &&& b@.len() > 0
            &&& sniffed_format(b@) == Some(Format::Qoi)
        },
{
    let mut buffer = Vec::new();
    let img = r.image_handle();
    let enc = image::codecs::qoi::QoiEncoder::new(std::io::Cursor::new(&mut buffer));
    let color = image::ExtendedColorType::from(img.color());
    match enc.write_image(img.as_bytes(), img.width(), img.height(), color) {
        Ok(()) => Ok(buffer),
        Err(_) => Err(()),
    }
}

/// Surfaces an encoder's outcome as a typed conversion result.
fn surface(encoded: Result<Vec<u8>, ()>) -> (r: Result<Vec<u8>, ConversionError>)
    ensures
        r matches Ok(b) ==> encoded matches Ok(e) && b == e,
        encoded is Ok ==> r is Ok,
        r is Err ==> r == Err::<Vec<u8>, ConversionError>(ConversionError::Encoder),
{
    match encoded {
        Ok(b) => Ok(b),
        Err(()) => Err(ConversionError::Encoder),
    }
}

/// Encodes a raster into the chosen target container format.
///
/// Conversion succeeds exactly when the target has a wired encoder and that
/// encoder accepts the raster; the returned bytes are then that encoder's
/// encoding of the raster (for every target but OpenEXR, whose bytes no
/// contract pins), are never empty, and — for every target but TGA, which
/// has no magic bytes — are detected as the target format by content
/// sniffing. Converting to `WebP` always fails with
/// [`ConversionError::Unsupported`], never silently mis-encodes. An
/// encoder-level refusal surfaces as [`ConversionError::Encoder`], local to
/// this one conversion.
pub fn convert(raster: &Raster, target: Format) -> (r: Result<Vec<u8>, ConversionError>)
    ensures
        r is Ok <==> conversion_succeeds(raster@, target),
        r matches Ok(b) ==> {
            &&& b@.len() > 0
            &&& (target != Format::Tga ==> sniffed_format(b@) == Some(target))
            &&& (target != Format::OpenExr ==> b@ == encoding_of(raster@, target))
        },
        (r == Err::<Vec<u8>, ConversionError>(ConversionError::Unsupported)) <==> !target.encodable(),
        r is Err && target.encodable() ==> r == Err::<Vec<u8>, ConversionError>(
            ConversionError::Encoder,
        ),
{
    match target {
        Format::Png => surface(encode_png(raster)),
        Format::Jpeg => surface(encode_jpeg(raster)),
        Format::Gif => surface(encode_gif(raster)),
        Format::Pnm => surface(encode_pnm(raster)),
        Format::Tiff => surface(encode_tiff(raster)),
        Format::Tga => surface(encode_tga(raster)),
        Format::Bmp => surface(encode_bmp(raster)),
        Format::Ico => surface(encode_ico(raster)),
        Format::Hdr => surface(encode_hdr(raster)),
        Format::OpenExr => surface(encode_exr(raster)),
        Format::Farbfeld => surface(encode_farbfeld(raster)),
        Format::Avif => surface(encode_avif(raster)),
        Format::Qoi => surface(encode_qoi(raster)),
        Format::WebP => Err(ConversionError::Unsupported),
    }
}

} // verus!
