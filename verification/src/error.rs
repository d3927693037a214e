//! The failures that the library reports, each with a fixed short message.

use vstd::prelude::*;

verus! {

/// Why a colour token could not be resolved.
#[derive(Clone, Copy, Debug, PartialEq, Eq, Structural)]
pub enum ColorError {
    /// The token is empty, or holds white space only.
    EmptyString,
    /// The token looks like functional notation but is not well formed.
    InvalidCssFunction,
    /// The token fits no notation.
    Unknown,
    /// The token looks like hexadecimal notation but is not well formed.
    InvalidHexValue,
    /// The token is a word that names no colour.
    InvalidColorName,
    /// The token is two characters long and is no colour abbreviation.
    InvalidAbbreviation,
}

/// Why a size token could not be read.
#[derive(Clone, Copy, Debug, PartialEq, Eq, Structural)]
pub enum SizeError {
    /// The token holds no `x`.
    MissingSeparator,
    /// One side of the `x` is not an unsigned 32-bit decimal number.
    InvalidDimension,
}

/// Why no image was rendered.
#[derive(Clone, Copy, Debug, PartialEq, Eq, Structural)]
pub enum RenderError {
    /// The colour token was refused.
    Color(ColorError),
    /// The size token was refused.
    Size(SizeError),
    /// The format token names no format that can be rendered.
    UnsupportedFormat,
    /// The encoder refused the pixel buffer.
    Encoding,
}

impl ColorError {
    /// The message of this error.
    pub open spec fn message_text(self) -> Seq<char> {
        match self {
            ColorError::EmptyString => "empty string"@,
            ColorError::InvalidCssFunction => "invalid CSS function"@,
            ColorError::Unknown => "unknown"@,
            ColorError::InvalidHexValue => "invalid hex value"@,
            ColorError::InvalidColorName => "invalid color name"@,
            ColorError::InvalidAbbreviation => "invalid abbreviation"@,
        }
    }

    /// The message of this error.
    pub fn message(&self) -> (out: &'static str)
        ensures
            out@ == self.message_text(),
    {
        match self {
            ColorError::EmptyString => "empty string",
            ColorError::InvalidCssFunction => "invalid CSS function",
            ColorError::Unknown => "unknown",
            ColorError::InvalidHexValue => "invalid hex value",
            ColorError::InvalidColorName => "invalid color name",
            ColorError::InvalidAbbreviation => "invalid abbreviation",
        }
    }
}

impl SizeError {
    /// The message of this error: the same for both, since either way the
    /// size qualifier is unusable.
    pub open spec fn message_text(self) -> Seq<char> {
        "Invalid size qualifier"@
    }

    /// The message of this error.
    pub fn message(&self) -> (out: &'static str)
        ensures
            out@ == self.message_text(),
    {
        "Invalid size qualifier"
    }
}

impl RenderError {
    /// The message of this error. An encoding failure carries no detail of
    /// the encoder.
    pub open spec fn message_text(self) -> Seq<char> {
        match self {
            RenderError::Color(e) => e.message_text(),
            RenderError::Size(e) => e.message_text(),
            RenderError::UnsupportedFormat => "Unsupported extension"@,
            RenderError::Encoding => "Could not make image"@,
        }
    }

    /// Whether the caller's input caused the error. Only an encoding failure
    /// is the renderer's own.
    pub open spec fn caused_by_input(self) -> bool {
        !(self is Encoding)
    }

    /// The message of this error.
    pub fn message(&self) -> (out: &'static str)
        ensures
            out@ == self.message_text(),
    {
        match self {
            RenderError::Color(e) => e.message(),
            RenderError::Size(e) => e.message(),
            RenderError::UnsupportedFormat => "Unsupported extension",
            RenderError::Encoding => "Could not make image",
        }
    }

    /// Whether the caller's input caused the error.
    pub fn is_client_error(&self) -> (out: bool)
        ensures
            out == self.caused_by_input(),
    {
        match self {
            RenderError::Encoding => false,
            _ => true,
        }
    }
}

} // verus!
