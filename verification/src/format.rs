//! Output formats: what a format token names, and the content type that
//! goes with it.

use crate::text::{ascii_lower, chars_of, lowercased};
use vstd::prelude::*;

verus! {

/// A raster format, as far as the renderer tells formats apart: the six it
/// can write, and `Other` for any format it knows of but does not write.
#[derive(Clone, Copy, Debug, PartialEq, Eq, Structural)]
pub enum ImageFormat {
    Png,
    Jpeg,
    Gif,
    WebP,
    Ico,
    Tiff,
    Other,
}

/// The content type of a rendered image.
#[derive(Clone, Copy, Debug, PartialEq, Eq, Structural)]
pub enum ContentType {
    Png,
    Jpeg,
    Gif,
    WebP,
    Icon,
    Tiff,
    Svg,
}

/// The format that a file extension names. Case does not matter. An
/// extension that names no format at all gives `None`.
pub open spec fn format_of_extension(ext: Seq<char>) -> Option<ImageFormat> {
    let e = lowercased(ext);
    if e == "png"@ || e == "apng"@ {
        Some(ImageFormat::Png)
    } else if e == "jpg"@ || e == "jpeg"@ || e == "jfif"@ {
        Some(ImageFormat::Jpeg)
    } else if e == "gif"@ {
        Some(ImageFormat::Gif)
    } else if e == "webp"@ {
        Some(ImageFormat::WebP)
    } else if e == "ico"@ {
        Some(ImageFormat::Ico)
    } else if e == "tif"@ || e == "tiff"@ {
        Some(ImageFormat::Tiff)
    } else if e == "avif"@ || e == "tga"@ || e == "dds"@ || e == "bmp"@ || e == "hdr"@ || e
        == "exr"@ || e == "pbm"@ || e == "pam"@ || e == "ppm"@ || e == "pgm"@ || e == "pnm"@ || e
        == "ff"@ || e == "qoi"@ {
        Some(ImageFormat::Other)
    } else {
        None
    }
}

/// The content type for a format and the extension it was asked by: that
/// of the format where it is one that can be written; otherwise SVG where
/// the extension is exactly `svg`; otherwise none.
pub open spec fn content_type_of(format: Option<ImageFormat>, extension: Option<Seq<char>>) -> Option<
    ContentType,
> {
    match format {
        Some(ImageFormat::Png) => Some(ContentType::Png),
        Some(ImageFormat::Jpeg) => Some(ContentType::Jpeg),
        Some(ImageFormat::Gif) => Some(ContentType::Gif),
        Some(ImageFormat::WebP) => Some(ContentType::WebP),
        Some(ImageFormat::Ico) => Some(ContentType::Icon),
        Some(ImageFormat::Tiff) => Some(ContentType::Tiff),
        _ => if extension == Some("svg"@) {
            Some(ContentType::Svg)
        } else {
            None
        },
    }
}

/// The content type that a format token resolves to.
pub open spec fn content_type_of_token(token: Seq<char>) -> Option<ContentType> {
    content_type_of(format_of_extension(token), Some(token))
}

impl ContentType {
    /// The MIME type.
    pub open spec fn mime_text(self) -> Seq<char> {
        match self {
            ContentType::Png => "image/png"@,
            ContentType::Jpeg => "image/jpeg"@,
            ContentType::Gif => "image/gif"@,
            ContentType::WebP => "image/webp"@,
            ContentType::Icon => "image/x-icon"@,
            ContentType::Tiff => "image/tiff"@,
            ContentType::Svg => "image/svg+xml"@,
        }
    }

    /// The raster format behind this content type; none for SVG, which is
    /// drawn, not encoded.
    pub open spec fn raster_format(self) -> Option<ImageFormat> {
        match self {
            ContentType::Png => Some(ImageFormat::Png),
            ContentType::Jpeg => Some(ImageFormat::Jpeg),
            ContentType::Gif => Some(ImageFormat::Gif),
            ContentType::WebP => Some(ImageFormat::WebP),
            ContentType::Icon => Some(ImageFormat::Ico),
            ContentType::Tiff => Some(ImageFormat::Tiff),
            ContentType::Svg => None,
        }
    }

    /// The MIME type.
    pub fn mime(&self) -> (out: &'static str)
        ensures
            out@ == self.mime_text(),
    {
        match self {
            ContentType::Png => "image/png",
            ContentType::Jpeg => "image/jpeg",
            ContentType::Gif => "image/gif",
            ContentType::WebP => "image/webp",
            ContentType::Icon => "image/x-icon",
            ContentType::Tiff => "image/tiff",
            ContentType::Svg => "image/svg+xml",
        }
    }

    /// The raster format behind this content type.
    pub fn format(&self) -> (out: Option<ImageFormat>)
        ensures
            out == self.raster_format(),
    {
        match self {
            ContentType::Png => Some(ImageFormat::Png),
            ContentType::Jpeg => Some(ImageFormat::Jpeg),
            ContentType::Gif => Some(ImageFormat::Gif),
            ContentType::WebP => Some(ImageFormat::WebP),
            ContentType::Icon => Some(ImageFormat::Ico),
            ContentType::Tiff => Some(ImageFormat::Tiff),
            ContentType::Svg => None,
        }
    }
}

/// The case of a format token does not matter to the raster format it
/// names.
pub proof fn lemma_format_ignores_case(token: Seq<char>)
    ensures
        format_of_extension(lowercased(token)) == format_of_extension(token),
{
    assert forall|c: char| ascii_lower(ascii_lower(c)) == #[trigger] ascii_lower(c) by {}
    assert(lowercased(lowercased(token)) =~= lowercased(token));
}

/// A content type is the content type of the raster format behind it,
/// whatever the extension; and a content type without a raster format is
/// SVG.
pub proof fn lemma_content_type_of_raster_format(content_type: ContentType, extension: Option<Seq<char>>)
    ensures
        content_type.raster_format() is Some ==> content_type_of(
            content_type.raster_format(),
            extension,
        ) == Some(content_type),
        content_type.raster_format() is None <==> content_type == ContentType::Svg,
        content_type.raster_format() != Some(ImageFormat::Other),
{
}

/// Calls `image::ImageFormat::from_extension`, which lower-cases the
/// extension (ASCII letters only) and looks it up in a fixed table. The
/// contract restates that table, with every format that the renderer does
/// not write folded into `Other`.
#[verifier::external_body]
fn format_from_extension(ext: &str) -> (out: Option<ImageFormat>)
    ensures
        out == format_of_extension(ext@),
{
    match image::ImageFormat::from_extension(ext)? {
        image::ImageFormat::Png => Some(ImageFormat::Png),
        image::ImageFormat::Jpeg => Some(ImageFormat::Jpeg),
        image::ImageFormat::Gif => Some(ImageFormat::Gif),
        image::ImageFormat::WebP => Some(ImageFormat::WebP),
        image::ImageFormat::Ico => Some(ImageFormat::Ico),
        image::ImageFormat::Tiff => Some(ImageFormat::Tiff),
        _ => Some(ImageFormat::Other),
    }
}

/// Whether `s` is exactly `svg`.
fn is_svg(s: &str) -> (out: bool)
    ensures
        out == (s@ == "svg"@),
{
    proof {
        reveal_strlit("svg");
    }
    let t: Vec<char> = chars_of(s);
    let out: bool = t.len() == 3 && t[0] == 's' && t[1] == 'v' && t[2] == 'g';
    assert(out == (s@ =~= "svg"@));
    out
}

/// The content type for a format and the extension it was asked by.
pub fn from_image_format(format: Option<ImageFormat>, extention: Option<&str>) -> (out: Option<
    ContentType,
>)
    ensures
        out == content_type_of(
            format,
            match extention {
                Some(e) => Some(e@),
                None => None,
            },
        ),
{
    match format {
        Some(ImageFormat::Png) => Some(ContentType::Png),
        Some(ImageFormat::Jpeg) => Some(ContentType::Jpeg),
        Some(ImageFormat::Gif) => Some(ContentType::Gif),
        Some(ImageFormat::WebP) => Some(ContentType::WebP),
        Some(ImageFormat::Ico) => Some(ContentType::Icon),
        Some(ImageFormat::Tiff) => Some(ContentType::Tiff),
        _ => match extention {
            Some(e) => if is_svg(e) {
                Some(ContentType::Svg)
            } else {
                None
            },
            None => None,
        },
    }
}

/// Resolves a format token: the extension of a raster format that can be
/// written, in any case, or `svg` in lower case. Any other token resolves
/// to nothing.
pub fn resolve_format(token: &str) -> (out: Option<ContentType>)
    ensures
        out == content_type_of_token(token@),
{
    from_image_format(format_from_extension(token), Some(token))
}

} // verus!
