//! Rendering: a flat-filled image of one colour, as raster bytes in one of
//! six formats or as SVG markup.
//!
//! A size is a pair `(height, width)`. The raster image has `height` rows of
//! `width` pixels; the SVG canvas and its rectangle have that width and
//! height.

use crate::colors::Rgb;
use crate::error::RenderError;
use crate::format::{content_type_of_token, resolve_format, ContentType, ImageFormat};
use crate::hex::{hex_text, is_hex6_token, lemma_hex_round_trip};
use crate::parser::{color_of_token, hex_to_color};
use crate::size::{
    lenient_sizes, parse_size, size_of_token, sizes_or_default, valid_size, MAX_DIMENSION,
    MIN_DIMENSION,
};
use vstd::prelude::*;

verus! {

/// What a preview is asked for: a format token and a size token.
#[derive(Clone, Copy, Debug)]
pub struct ImageSpecifications<'a> {
    /// The format token, such as `png` or `svg`.
    pub format: &'a str,
    /// The size token, `HEIGHTxWIDTH`.
    pub size: &'a str,
}

/// A rendered image: its content type and its bytes.
pub type Rendered = Result<(ContentType, Vec<u8>), RenderError>;

/// The bytes that `image::write_buffer_with_format` writes for a buffer of
/// 8-bit RGB pixels of the given width and height in the given format;
/// `None` where it reports an error.
pub uninterp spec fn encoded_image(pixels: Seq<u8>, width: u32, height: u32, format: ImageFormat) -> Option<
    Seq<u8>,
>;

/// A buffer of `count` pixels, three bytes each, every pixel `rgb`.
pub open spec fn flat_pixels(rgb: Rgb, count: nat) -> Seq<u8> {
    Seq::new(
        3 * count,
        |i: int|
            if i % 3 == 0 {
                rgb.r
            } else if i % 3 == 1 {
                rgb.g
            } else {
                rgb.b
            },
    )
}

/// The decimal digit of value `n`.
pub open spec fn digit_char(n: nat) -> char {
    ((48 + n) as u8) as char
}

/// `n` in decimal notation, without leading zeros.
pub open spec fn decimal_text(n: nat) -> Seq<char>
    decreases n,
{
    if n < 10 {
        seq![digit_char(n)]
    } else {
        decimal_text(n / 10).push(digit_char(n % 10))
    }
}

/// The SVG document of a canvas of the given width and height that one
/// rectangle of colour `fill` covers.
pub open spec fn svg_text(width: u32, height: u32, fill: Seq<char>) -> Seq<char> {
    let w = decimal_text(width as nat);
    let h = decimal_text(height as nat);
    "<svg height=\""@ + h + "\" viewBox=\"0 0 "@ + w + " "@ + h + "\" width=\""@ + w
        + "\" xmlns=\"http://www.w3.org/2000/svg\">\n<rect fill=\""@ + fill + "\" height=\""@ + h
        + "\" width=\""@ + w + "\" x=\"0\" y=\"0\"/>\n</svg>"@
}

/// The bytes of a text of ASCII characters.
pub open spec fn ascii_bytes(t: Seq<char>) -> Seq<u8> {
    t.map_values(|c: char| c as u8)
}

/// The SVG image of `rgb` at `size`, as bytes.
pub open spec fn svg_image(rgb: Rgb, size: (u32, u32)) -> Seq<u8> {
    ascii_bytes(svg_text(size.1, size.0, hex_text(rgb)))
}

/// The raster image of `rgb` at `size` in `format`: the encoding of
/// `height * width` pixels of that colour, or an encoding error.
pub open spec fn raster_image(rgb: Rgb, size: (u32, u32), format: ImageFormat) -> Result<
    Seq<u8>,
    RenderError,
> {
    match encoded_image(flat_pixels(rgb, (size.0 * size.1) as nat), size.1, size.0, format) {
        Some(bytes) => Ok(bytes),
        None => Err(RenderError::Encoding),
    }
}

/// The image of `rgb` at `size` for a content type.
pub open spec fn image_of_color(rgb: Rgb, size: (u32, u32), content_type: ContentType) -> Result<
    (ContentType, Seq<u8>),
    RenderError,
> {
    match content_type.raster_format() {
        None => Ok((content_type, svg_image(rgb, size))),
        Some(format) => match raster_image(rgb, size, format) {
            Ok(bytes) => Ok((content_type, bytes)),
            Err(e) => Err(e),
        },
    }
}

/// The image of `rgb` at `size` for a format token. An unknown format is
/// the only error besides an encoder's.
pub open spec fn render_of(rgb: Rgb, size: (u32, u32), kind: Seq<char>) -> Result<
    (ContentType, Seq<u8>),
    RenderError,
> {
    match content_type_of_token(kind) {
        None => Err(RenderError::UnsupportedFormat),
        Some(content_type) => image_of_color(rgb, size, content_type),
    }
}

/// The image for a colour token, a size and a format token. The format is
/// looked at first, then the colour.
pub open spec fn image_of(color: Seq<char>, size: (u32, u32), kind: Seq<char>) -> Result<
    (ContentType, Seq<u8>),
    RenderError,
> {
    match content_type_of_token(kind) {
        None => Err(RenderError::UnsupportedFormat),
        Some(content_type) => match color_of_token(color) {
            Err(e) => Err(RenderError::Color(e)),
            Ok(rgb) => image_of_color(rgb, size, content_type),
        },
    }
}

/// The SVG image for a colour token and a size.
pub open spec fn svg_image_of(color: Seq<char>, size: (u32, u32)) -> Result<
    (ContentType, Seq<u8>),
    RenderError,
> {
    match color_of_token(color) {
        Err(e) => Err(RenderError::Color(e)),
        Ok(rgb) => Ok((ContentType::Svg, svg_image(rgb, size))),
    }
}

/// The image for three tokens. The size is looked at first, then the
/// format, then the colour.
pub open spec fn preview_of(color: Seq<char>, size: Seq<char>, kind: Seq<char>) -> Result<
    (ContentType, Seq<u8>),
    RenderError,
> {
    match size_of_token(size) {
        Err(e) => Err(RenderError::Size(e)),
        Ok(size) => image_of(color, size, kind),
    }
}

/// The image of a given colour for a size token and a format token.
pub open spec fn preview_of_color(rgb: Rgb, size: Seq<char>, kind: Seq<char>) -> Result<
    (ContentType, Seq<u8>),
    RenderError,
> {
    match size_of_token(size) {
        Err(e) => Err(RenderError::Size(e)),
        Ok(size) => render_of(rgb, size, kind),
    }
}

/// A rendered image with its bytes as a sequence.
pub open spec fn image_view(image: Rendered) -> Result<(ContentType, Seq<u8>), RenderError> {
    match image {
        Ok((content_type, bytes)) => Ok((content_type, bytes@)),
        Err(e) => Err(e),
    }
}

/// Every pixel of a flat buffer is the colour it was made for: the buffer
/// holds three bytes for each of its `count` pixels, and pixel `p` is red,
/// green and blue of `rgb`, in this order.
pub proof fn lemma_flat_pixels(rgb: Rgb, count: nat, p: int)
    requires
        0 <= p < count,
    ensures
        flat_pixels(rgb, count).len() == 3 * count,
        flat_pixels(rgb, count)[3 * p] == rgb.r,
        flat_pixels(rgb, count)[3 * p + 1] == rgb.g,
        flat_pixels(rgb, count)[3 * p + 2] == rgb.b,
{
}

/// When a preview is owed: exactly where the size token can be read, the
/// format token names a content type, the colour token resolves, and,
/// unless the content type is SVG, the encoder accepts the pixels.
pub proof fn lemma_preview_succeeds(color: Seq<char>, size: Seq<char>, kind: Seq<char>)
    ensures
        preview_of(color, size, kind) is Ok <==> {
            &&& size_of_token(size) matches Ok(size)
            &&& content_type_of_token(kind) matches Some(content_type)
            &&& color_of_token(color) matches Ok(rgb)
            &&& content_type.raster_format() matches Some(format) ==> encoded_image(
                flat_pixels(rgb, (size.0 * size.1) as nat),
                size.1,
                size.0,
                format,
            ) is Some
        },
{
}

/// Rendering from a colour token is rendering the colour that the token
/// resolves to: where the token resolves, the image for the token is the
/// image for the colour, whatever the size and the format token.
pub proof fn lemma_image_of_resolved_color(color: Seq<char>, rgb: Rgb, size: (u32, u32), kind: Seq<char>)
    requires
        color_of_token(color) == Ok::<Rgb, crate::error::ColorError>(rgb),
    ensures
        image_of(color, size, kind) == render_of(rgb, size, kind),
{
}

/// Calls `image::write_buffer_with_format` on an in-memory buffer, with the
/// pixels taken as 8-bit RGB, and hands back what it wrote, or `None` where
/// it returns an error. The bytes depend on the arguments alone; the
/// contract gives them a name and says nothing else of them.
///
/// The encoders panic where the buffer does not hold three bytes for each
/// of `height * width` pixels: the precondition asks for that length.
#[verifier::external_body]
fn encode(pixels: &Vec<u8>, width: u32, height: u32, format: ImageFormat) -> (out: Option<Vec<u8>>)
    requires
        pixels.len() == 3 * (height * width),
        MIN_DIMENSION <= width <= MAX_DIMENSION,
        MIN_DIMENSION <= height <= MAX_DIMENSION,
        format != ImageFormat::Other,
    ensures
        match out {
            Some(bytes) => encoded_image(pixels@, width, height, format) == Some(bytes@),
            None => encoded_image(pixels@, width, height, format) is None,
        },
{
    let target = match format {
        ImageFormat::Png => image::ImageFormat::Png,
        ImageFormat::Jpeg => image::ImageFormat::Jpeg,
        ImageFormat::Gif => image::ImageFormat::Gif,
        ImageFormat::WebP => image::ImageFormat::WebP,
        ImageFormat::Ico => image::ImageFormat::Ico,
        ImageFormat::Tiff => image::ImageFormat::Tiff,
        ImageFormat::Other => return None,
    };
    let mut out = Vec::new();
    let color = image::ExtendedColorType::Rgb8;
    let mut cursor = std::io::Cursor::new(&mut out);
    image::write_buffer_with_format(&mut cursor, pixels, width, height, color, target).ok()?;
    Some(out)
}

/// Builds a document with `svg::Document::new` and a rectangle with
/// `svg::node::element::Rectangle::new`, sets their attributes with `set`,
/// puts the rectangle into the document with `add`, and hands back the
/// document's text, which its `Display` implementation writes, as bytes.
///
/// The contract spells that text out for this one shape of document: the
/// crate writes an element as its name, its attributes in the order of
/// their names and each value between double quotes, and a child on a line
/// of its own; a new document carries the `xmlns` attribute. The
/// precondition keeps `fill` to `#` and six hexadecimal digits, none of
/// which the crate escapes.
#[verifier::external_body]
fn svg_document(width: u32, height: u32, fill: &str) -> (out: Vec<u8>)
    requires
        is_hex6_token(fill@),
        fill@.len() == 7,
    ensures
        out@ == ascii_bytes(svg_text(width, height, fill@)),
{
    let rectangle = svg::node::element::Rectangle::new()
        .set("x", 0)
        .set("y", 0)
        .set("width", width)
        .set("height", height)
        .set("fill", fill);
    let document = svg::Document::new()
        .set("width", width)
        .set("height", height)
        .set("viewBox", (0, 0, width, height))
        .add(rectangle);
    document.to_string().into_bytes()
}

/// Calls `rand::Rng::random_range`, over the whole range of `u8`, on the
/// generator that `rand::rng` returns. Nothing is known of the value.
#[verifier::external_body]
fn random_channel() -> u8 {
    rand::Rng::random_range(&mut rand::rng(), 0..=255)
}

impl Default for ImageSpecifications<'_> {
    /// A PNG of 128 by 128.
    fn default() -> (out: Self)
        ensures
            out.format@ == "png"@,
            out.size@ == "128x128"@,
    {
        ImageSpecifications { format: "png", size: "128x128" }
    }
}

impl ImageSpecifications<'_> {
    /// Height and width, read leniently: 128 by 128 where the size token
    /// holds no `x`, and 128 for each side that spells no number; each then
    /// brought into `[1, 500]`. On a token that `validate_size` accepts this
    /// is the size that `parse_size` gives. Rendering never reads a size
    /// this way: it refuses what `validate_size` refuses.
    pub fn get_sizes(&self) -> (out: (u32, u32))
        ensures
            out == lenient_sizes(self.size@),
            valid_size(out),
    {
        sizes_or_default(self.size)
    }
}

/// A buffer of `height * width` pixels, every one of them `rgb`.
pub fn fill_pixels(rgb: &Rgb, size: (u32, u32)) -> (out: Vec<u8>)
    requires
        valid_size(size),
    ensures
        out@ == flat_pixels(*rgb, (size.0 * size.1) as nat),
        out.len() == 3 * (size.0 * size.1),
{
    assert(size.0 * size.1 <= 250_000) by (nonlinear_arith)
        requires
            size.0 <= 500,
            size.1 <= 500,
    ;
    let count: u32 = size.0 * size.1;
    let mut out: Vec<u8> = Vec::new();
    let mut i: u32 = 0;
    while i < count
        invariant
            i <= count <= 250_000,
            out@ == flat_pixels(*rgb, i as nat),
        decreases count - i,
    {
        out.push(rgb.r);
        out.push(rgb.g);
        out.push(rgb.b);
        i += 1;
    }
    out
}

/// Renders `rgb` for a content type: SVG markup, or the pixels in the
/// raster format behind the content type.
pub fn render_as(rgb: &Rgb, size: (u32, u32), content_type: ContentType) -> (out: Rendered)
    requires
        valid_size(size),
    ensures
        image_view(out) == image_of_color(*rgb, size, content_type),
{
    match content_type.format() {
        None => {
            proof {
                lemma_hex_round_trip(*rgb);
            }
            let fill: String = rgb.to_hex_string();
            Ok((content_type, svg_document(size.1, size.0, fill.as_str())))
        },
        Some(format) => {
            let pixels: Vec<u8> = fill_pixels(rgb, size);
            match encode(&pixels, size.1, size.0, format) {
                Some(bytes) => Ok((content_type, bytes)),
                None => Err(RenderError::Encoding),
            }
        },
    }
}

/// Renders `rgb` in the format that `kind` names.
pub fn render(rgb: &Rgb, size: (u32, u32), kind: &str) -> (out: Rendered)
    requires
        valid_size(size),
    ensures
        image_view(out) == render_of(*rgb, size, kind@),
{
    match resolve_format(kind) {
        None => Err(RenderError::UnsupportedFormat),
        Some(content_type) => render_as(rgb, size, content_type),
    }
}

/// Renders the colour that `color` names in the format that `kind` names.
/// An unknown format is reported before an unreadable colour.
pub fn generate_img(color: &str, size: (u32, u32), kind: &str) -> (out: Rendered)
    requires
        valid_size(size),
    ensures
        image_view(out) == image_of(color@, size, kind@),
        content_type_of_token(kind@) is None ==> out == Err::<(ContentType, Vec<u8>), RenderError>(
            RenderError::UnsupportedFormat,
        ),
{
    let content_type: ContentType = match resolve_format(kind) {
        Some(content_type) => content_type,
        None => {
            return Err(RenderError::UnsupportedFormat);
        },
    };
    match hex_to_color(color) {
        Ok(rgb) => render_as(&rgb, size, content_type),
        Err(e) => Err(RenderError::Color(e)),
    }
}

/// Renders the colour that `color` names as SVG markup.
pub fn generate_svg_img(color: &str, size: (u32, u32)) -> (out: Rendered)
    ensures
        image_view(out) == svg_image_of(color@, size),
{
    match hex_to_color(color) {
        Ok(rgb) => {
            proof {
                lemma_hex_round_trip(rgb);
            }
            let fill: String = rgb.to_hex_string();
            Ok((ContentType::Svg, svg_document(size.1, size.0, fill.as_str())))
        },
        Err(e) => Err(RenderError::Color(e)),
    }
}

/// Renders a preview from three tokens: colour, size and format. A size
/// token that cannot be read is refused; dimensions out of `[1, 500]` are
/// brought into it.
pub fn render_image(color: &str, size: &str, kind: &str) -> (out: Rendered)
    ensures
        image_view(out) == preview_of(color@, size@, kind@),
        size_of_token(size@) is Ok && content_type_of_token(kind@) is None ==> out == Err::<
            (ContentType, Vec<u8>),
            RenderError,
        >(RenderError::UnsupportedFormat),
{
    match parse_size(size) {
        Ok(size) => generate_img(color, size, kind),
        Err(e) => Err(RenderError::Size(e)),
    }
}

/// Renders the preview that `spec` asks for of the colour that `color`
/// names.
pub fn colorize(color: &str, spec: &ImageSpecifications) -> (out: Rendered)
    ensures
        image_view(out) == preview_of(color@, spec.size@, spec.format@),
{
    render_image(color, spec.size, spec.format)
}

/// A colour drawn at random.
pub fn random_color() -> Rgb {
    let r: u8 = random_channel();
    let g: u8 = random_channel();
    let b: u8 = random_channel();
    Rgb { r, g, b }
}

/// Renders the preview that `spec` asks for of a colour drawn at random:
/// whichever colour is drawn, the result is the preview of that colour.
pub fn random(spec: &ImageSpecifications) -> (out: Rendered)
    ensures
        exists|rgb: Rgb| image_view(out) == #[trigger] preview_of_color(rgb, spec.size@, spec.format@),
{
    let rgb: Rgb = random_color();
    let out: Rendered = match parse_size(spec.size) {
        Ok(size) => render(&rgb, size, spec.format),
        Err(e) => Err(RenderError::Size(e)),
    };
    assert(image_view(out) == preview_of_color(rgb, spec.size@, spec.format@));
    out
}

} // verus!
