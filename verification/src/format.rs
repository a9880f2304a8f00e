//! Container formats the pipeline knows about.

use vstd::prelude::*;

verus! {

/// An image container format, identified by content sniffing on the way in
/// and chosen by the user as the conversion target on the way out.
///
/// `WebP` is accepted as a selectable target but has no wired encoder:
/// converting to it fails with an explicit unsupported-format error.
#[derive(Clone, Copy, PartialEq, Eq, Structural, Debug)]
pub enum Format {
    Png,
    Jpeg,
    Gif,
    Pnm,
    Tiff,
    Tga,
    Bmp,
    Ico,
    Hdr,
    OpenExr,
    Farbfeld,
    Avif,
    Qoi,
    WebP,
}

impl Format {
    /// The canonical file extension of the format, used for archive entry
    /// names: the first extension the decoding library lists for it.
    pub open spec fn ext(self) -> Seq<char> {
        match self {
            Format::Png => "png"@,
            Format::Jpeg => "jpg"@,
            Format::Gif => "gif"@,
            Format::Pnm => "pbm"@,
            Format::Tiff => "tiff"@,
            Format::Tga => "tga"@,
            Format::Bmp => "bmp"@,
            Format::Ico => "ico"@,
            Format::Hdr => "hdr"@,
            Format::OpenExr => "exr"@,
            Format::Farbfeld => "ff"@,
            Format::Avif => "avif"@,
            Format::Qoi => "qoi"@,
            Format::WebP => "webp"@,
        }
    }

    /// True of every format the conversion engine has an encoder for:
    /// all of them except `WebP`.
    pub open spec fn encodable(self) -> bool {
        self != Format::WebP
    }

    /// The canonical extension as a string slice.
    pub fn ext_str(self) -> (r: &'static str)
        ensures
            r@ == self.ext(),
    {
        match self {
            Format::Png => "png",
            Format::Jpeg => "jpg",
            Format::Gif => "gif",
            Format::Pnm => "pbm",
            Format::Tiff => "tiff",
            Format::Tga => "tga",
            Format::Bmp => "bmp",
            Format::Ico => "ico",
            Format::Hdr => "hdr",
            Format::OpenExr => "exr",
            Format::Farbfeld => "ff",
            Format::Avif => "avif",
            Format::Qoi => "qoi",
            Format::WebP => "webp",
        }
    }
}

/// Which format a selector label stands for, `None` for an unknown label.
pub open spec fn format_of_label(label: Seq<char>) -> Option<Format> {
    if label == "PNG"@ {
        Some(Format::Png)
    } else if label == "BMP"@ {
        Some(Format::Bmp)
    } else if label == "GIF"@ {
        Some(Format::Gif)
    } else if label == "HDR"@ {
        Some(Format::Hdr)
    } else if label == "ICO"@ {
        Some(Format::Ico)
    } else if label == "JPEG"@ {
        Some(Format::Jpeg)
    } else if label == "EXR"@ {
        Some(Format::OpenExr)
    } else if label == "PNM"@ {
        Some(Format::Pnm)
    } else if label == "TGA"@ {
        Some(Format::Tga)
    } else if label == "TIFF"@ {
        Some(Format::Tiff)
    } else if label == "WEBP"@ {
        Some(Format::WebP)
    } else {
        None
    }
}

/// Maps a target-format selector label to its format.
///
/// The selectable set is the one the format-selection collaborator shows:
/// `PNG, BMP, GIF, HDR, ICO, JPEG, EXR, PNM, TGA, TIFF, WEBP`.
pub fn parse_label(label: &str) -> (r: Option<Format>)
    ensures
        r == format_of_label(label@),
{
    if crate::text::str_eq(label, "PNG") {
        Some(Format::Png)
    } else if crate::text::str_eq(label, "BMP") {
        Some(Format::Bmp)
    } else if crate::text::str_eq(label, "GIF") {
        Some(Format::Gif)
    } else if crate::text::str_eq(label, "HDR") {
        Some(Format::Hdr)
    } else if crate::text::str_eq(label, "ICO") {
        Some(Format::Ico)
    } else if crate::text::str_eq(label, "JPEG") {
        Some(Format::Jpeg)
    } else if crate::text::str_eq(label, "EXR") {
        Some(Format::OpenExr)
    } else if crate::text::str_eq(label, "PNM") {
        Some(Format::Pnm)
    } else if crate::text::str_eq(label, "TGA") {
        Some(Format::Tga)
    } else if crate::text::str_eq(label, "TIFF") {
        Some(Format::Tiff)
    } else if crate::text::str_eq(label, "WEBP") {
        Some(Format::WebP)
    } else {
        None
    }
}

} // verus!
