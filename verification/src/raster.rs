//! Decoded images and the decoding step.
//!
//! A [`Raster`] is a decoded pixel buffer together with its dimensions and
//! color model. The pixel data is held twice: as plain bytes, which the
//! contracts speak about, and as the decoding library's own image value,
//! which the trusted encoder and resampling wrappers hand back to that
//! library. Rasters are built only by [`decode`], which fills both sides
//! from the same decoded image, so the two always agree.

use vstd::prelude::*;

use crate::format::Format;

verus! {

#[verifier::external_type_specification]
#[verifier::external_body]
pub struct ExDynamicImage(image::DynamicImage);

#[verifier::external_type_specification]
#[verifier::external_body]
pub struct ExColorType(image::ColorType);

#[verifier::external_type_specification]
#[verifier::external_body]
pub struct ExImageFormat(image::ImageFormat);

/// The color model of a decoded raster: channels and bit depth, mirroring
/// the set of models the decoding library produces.
#[derive(Clone, Copy, PartialEq, Eq, Structural, Debug)]
pub enum ColorModel {
    L8,
    La8,
    Rgb8,
    Rgba8,
    L16,
    La16,
    Rgb16,
    Rgba16,
    Rgb32F,
    Rgba32F,
}

/// What a raster is mathematically: dimensions, color model and raw pixel
/// bytes.
pub ghost struct RasterView {
    pub width: u32,
    pub height: u32,
    pub color: ColorModel,
    pub pixels: Seq<u8>,
}

/// A decoded pixel buffer. Immutable after decode.
pub struct Raster {
    width: u32,
    height: u32,
    color: ColorModel,
    pixels: Vec<u8>,
    handle: image::DynamicImage,
}

impl View for Raster {
    type V = RasterView;

    closed spec fn view(&self) -> RasterView {
        RasterView {
            width: self.width,
            height: self.height,
            color: self.color,
            pixels: self.pixels@,
        }
    }
}

impl Raster {
    pub fn width(&self) -> (r: u32)
        ensures
            r == self@.width,
    {
        self.width
    }

    pub fn height(&self) -> (r: u32)
        ensures
            r == self@.height,
    {
        self.height
    }

    pub fn color(&self) -> (r: ColorModel)
        ensures
            r == self@.color,
    {
        self.color
    }

    pub fn pixel_bytes(&self) -> (r: &Vec<u8>)
        ensures
            r@ == self@.pixels,
    {
        &self.pixels
    }

    pub(crate) fn image_handle(&self) -> &image::DynamicImage {
        &self.handle
    }
}

/// Why a byte buffer produced no entity.
#[derive(Clone, Copy, PartialEq, Eq, Structural, Debug)]
pub enum DecodeFailure {
    /// The content matched no known container format's magic bytes.
    UnrecognizedFormat,
    /// The content was recognized as some format but is structurally invalid.
    InvalidData,
}

/// The container format that content sniffing detects on a byte buffer,
/// `None` when no magic bytes match.
pub uninterp spec fn sniffed_format(bytes: Seq<u8>) -> Option<Format>;

/// The raster that decoding a byte buffer yields, `None` when decoding
/// fails.
pub uninterp spec fn decoded_raster(bytes: Seq<u8>) -> Option<RasterView>;

/// Converts the decoding library's format value to the pipeline's own;
/// formats outside the pipeline's set map to `None`.
#[verifier::external_body]
fn format_of_image(f: image::ImageFormat) -> Option<Format> {
    match f {
        image::ImageFormat::Png => Some(Format::Png), image::ImageFormat::Jpeg => Some(Format::Jpeg),
        image::ImageFormat::Gif => Some(Format::Gif), image::ImageFormat::Pnm => Some(Format::Pnm),
        image::ImageFormat::Tiff => Some(Format::Tiff), image::ImageFormat::Tga => Some(Format::Tga),
        image::ImageFormat::Bmp => Some(Format::Bmp), image::ImageFormat::Ico => Some(Format::Ico),
        image::ImageFormat::Hdr => Some(Format::Hdr), image::ImageFormat::OpenExr => Some(Format::OpenExr),
        image::ImageFormat::Farbfeld => Some(Format::Farbfeld), image::ImageFormat::Avif => Some(Format::Avif),
        image::ImageFormat::Qoi => Some(Format::Qoi), image::ImageFormat::WebP => Some(Format::WebP),
        _ => None,
    }
}

/// Converts the decoding library's color value to the pipeline's own.
#[verifier::external_body]
fn color_of_image(c: image::ColorType) -> ColorModel {
    match c {
        image::ColorType::L8 => ColorModel::L8,
        image::ColorType::La8 => ColorModel::La8,
        image::ColorType::Rgb8 => ColorModel::Rgb8,
        image::ColorType::Rgba8 => ColorModel::Rgba8,
        image::ColorType::L16 => ColorModel::L16,
        image::ColorType::La16 => ColorModel::La16,
        image::ColorType::Rgb16 => ColorModel::Rgb16,
        image::ColorType::Rgba16 => ColorModel::Rgba16,
        image::ColorType::Rgb32F => ColorModel::Rgb32F,
        _ => ColorModel::Rgba32F,
    }
}

/// Relies on image::guess_format: the detected format depends on the
/// leading magic bytes alone, and an empty buffer matches no signature.
#[verifier::external_body]
fn sniff_format(bytes: &Vec<u8>) -> (r: Option<Format>)
    ensures
        r == sniffed_format(bytes@),
        bytes@.len() == 0 ==> r is None,
{
    match image::guess_format(bytes) {
        Ok(f) => format_of_image(f),
        Err(_) => None,
    }
}

/// Relies on image::load_from_memory: whether the bytes decode, and to
/// which raster, depends on the bytes alone; width, height, color and raw
/// pixel bytes are read off the decoded image itself.
#[verifier::external_body]
fn load_raster(bytes: &Vec<u8>) -> (r: Result<Raster, ()>)
    ensures
        r is Ok <==> decoded_raster(bytes@) is Some,
        r matches Ok(img) ==> Some(img@) == decoded_raster(bytes@),
{
    match image::load_from_memory(bytes) {
        Ok(img) => Ok(Raster {
            width: img.width(),
            height: img.height(),
            color: color_of_image(img.color()),
            pixels: img.as_bytes().to_vec(),
            handle: img,
        }),
        Err(_) => Err(()),
    }
}

/// Turns raw file bytes into a raster plus the detected source format.
///
/// The format is detected from the content's magic bytes, never from a file
/// name, and decoding succeeds exactly when the content both carries known
/// magic bytes and decodes. Content matching no known format fails with
/// [`DecodeFailure::UnrecognizedFormat`]; content recognized as a format but
/// structurally invalid fails with [`DecodeFailure::InvalidData`]. Nothing
/// else is touched: the caller constructs the entity and inserts it.
pub fn decode(bytes: &Vec<u8>) -> (r: Result<(Raster, Format), DecodeFailure>)
    ensures
        r is Ok <==> sniffed_format(bytes@) is Some && decoded_raster(bytes@) is Some,
        r matches Ok(p) ==> {
            &&& sniffed_format(bytes@) == Some(p.1)
            &&& Some(p.0@) == decoded_raster(bytes@)
        },
        r == Err::<(Raster, Format), DecodeFailure>(DecodeFailure::UnrecognizedFormat)
            <==> sniffed_format(bytes@) is None,
        r == Err::<(Raster, Format), DecodeFailure>(DecodeFailure::InvalidData)
            <==> sniffed_format(bytes@) is Some && decoded_raster(bytes@) is None,
{
    let sniffed = sniff_format(bytes);
    match sniffed {
        None => Err(DecodeFailure::UnrecognizedFormat),
        Some(fmt) => match load_raster(bytes) {
            Ok(img) => Ok((img, fmt)),
            Err(_) => Err(DecodeFailure::InvalidData),
        },
    }
}

} // verus!
