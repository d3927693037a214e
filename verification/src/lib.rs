//! Colour swatches: resolve a colour token to 8-bit RGB, re-express it in
//! other colour models, and render flat-filled preview images.

pub mod colors;
pub mod error;
pub mod format;
pub mod hex;
pub mod image_gen;
pub mod parser;
pub mod size;
pub mod text;

pub use colors::{Cmyk, Colors, Hsl, Hsv, Ratio, Rgb};
pub use error::{ColorError, RenderError, SizeError};
pub use format::{from_image_format, resolve_format, ContentType, ImageFormat};
pub use image_gen::{
    colorize, fill_pixels, generate_img, generate_svg_img, random, random_color, render,
    render_as, render_image, ImageSpecifications, Rendered,
};
pub use parser::{hex_to_color, resolve_color_report};
pub use size::{parse_size, sizes_or_default, validate_size};
