use swatch::{from_image_format, resolve_format, ContentType, ImageFormat};

#[test]
fn each_writable_format_has_its_content_type() {
    assert_eq!(resolve_format("png"), Some(ContentType::Png));
    assert_eq!(resolve_format("jpeg"), Some(ContentType::Jpeg));
    assert_eq!(resolve_format("gif"), Some(ContentType::Gif));
    assert_eq!(resolve_format("webp"), Some(ContentType::WebP));
    assert_eq!(resolve_format("ico"), Some(ContentType::Icon));
    assert_eq!(resolve_format("tiff"), Some(ContentType::Tiff));
    assert_eq!(resolve_format("svg"), Some(ContentType::Svg));
}

#[test]
fn alternative_extensions_name_the_same_format() {
    assert_eq!(resolve_format("jpg"), Some(ContentType::Jpeg));
    assert_eq!(resolve_format("jfif"), Some(ContentType::Jpeg));
    assert_eq!(resolve_format("apng"), Some(ContentType::Png));
    assert_eq!(resolve_format("tif"), Some(ContentType::Tiff));
}

#[test]
fn raster_extensions_ignore_case_and_svg_does_not() {
    assert_eq!(resolve_format("PNG"), Some(ContentType::Png));
    assert_eq!(resolve_format("JpEg"), Some(ContentType::Jpeg));
    assert_eq!(resolve_format("TIFF"), Some(ContentType::Tiff));
    assert_eq!(resolve_format("SVG"), None);
    assert_eq!(resolve_format("Svg"), None);
}

#[test]
fn formats_that_are_not_written_are_unsupported() {
    for token in [
        "bmp", "avif", "tga", "dds", "hdr", "exr", "pbm", "pam", "ppm", "pgm", "pnm", "ff", "qoi",
        "BMP",
    ] {
        assert_eq!(resolve_format(token), None, "{token}");
    }
}

#[test]
fn unknown_tokens_are_unsupported() {
    for token in ["", "pngg", ".png", "png ", " svg", "svgz", "pdf", "image/png", "p\u{f1}g"] {
        assert_eq!(resolve_format(token), None, "{token:?}");
    }
}

#[test]
fn content_type_follows_the_format_before_the_extension() {
    assert_eq!(from_image_format(Some(ImageFormat::Png), Some("svg")), Some(ContentType::Png));
    assert_eq!(from_image_format(Some(ImageFormat::Jpeg), None), Some(ContentType::Jpeg));
    assert_eq!(from_image_format(Some(ImageFormat::Gif), Some("x")), Some(ContentType::Gif));
    assert_eq!(from_image_format(Some(ImageFormat::WebP), None), Some(ContentType::WebP));
    assert_eq!(from_image_format(Some(ImageFormat::Ico), None), Some(ContentType::Icon));
    assert_eq!(from_image_format(Some(ImageFormat::Tiff), None), Some(ContentType::Tiff));
}

#[test]
fn svg_is_recognised_by_its_extension_alone() {
    assert_eq!(from_image_format(None, Some("svg")), Some(ContentType::Svg));
    assert_eq!(from_image_format(Some(ImageFormat::Other), Some("svg")), Some(ContentType::Svg));
    assert_eq!(from_image_format(None, Some("SVG")), None);
    assert_eq!(from_image_format(None, Some("svg ")), None);
    assert_eq!(from_image_format(None, Some("sv")), None);
    assert_eq!(from_image_format(None, None), None);
    assert_eq!(from_image_format(Some(ImageFormat::Other), None), None);
    assert_eq!(from_image_format(Some(ImageFormat::Other), Some("bmp")), None);
}

#[test]
fn mime_types() {
    assert_eq!(ContentType::Png.mime(), "image/png");
    assert_eq!(ContentType::Jpeg.mime(), "image/jpeg");
    assert_eq!(ContentType::Gif.mime(), "image/gif");
    assert_eq!(ContentType::WebP.mime(), "image/webp");
    assert_eq!(ContentType::Icon.mime(), "image/x-icon");
    assert_eq!(ContentType::Tiff.mime(), "image/tiff");
    assert_eq!(ContentType::Svg.mime(), "image/svg+xml");
}

#[test]
fn raster_format_behind_a_content_type() {
    assert_eq!(ContentType::Png.format(), Some(ImageFormat::Png));
    assert_eq!(ContentType::Jpeg.format(), Some(ImageFormat::Jpeg));
    assert_eq!(ContentType::Gif.format(), Some(ImageFormat::Gif));
    assert_eq!(ContentType::WebP.format(), Some(ImageFormat::WebP));
    assert_eq!(ContentType::Icon.format(), Some(ImageFormat::Ico));
    assert_eq!(ContentType::Tiff.format(), Some(ImageFormat::Tiff));
    assert_eq!(ContentType::Svg.format(), None);
}
