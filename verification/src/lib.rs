//! A sixteen-glyph, 4×5-pixel bitmap font: lifted out of a decoded image,
//! packed one row per byte, and stored as a flat 80-byte record.
//!
//! A font is loaded from a PNG file in two steps, with the decoding of
//! the pixels left to the caller between them:
//! [`Font::png_buffer_size`] and [`Font::from_decoded`].

pub mod codec;
pub mod error;
pub mod extract;
pub mod glyph;
pub mod png;

pub use error::FontError;
pub use glyph::{Character, Font};
pub use png::{buffer_size_for, PngHeader};
