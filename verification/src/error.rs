use vstd::prelude::*;

verus! {

/// Why a font could not be built.
#[derive(Clone, Copy, Debug, PartialEq, Eq, Structural)]
pub enum FontError {
    /// The input is not a PNG file that the decoder can read.
    ImageDecodeFailure,
    /// The image is not exactly 16 pixels wide and 20 pixels tall.
    InvalidSize,
    /// The decoded image could not be brought to 8-bit RGBA.
    ConversionFailure,
    /// The byte buffer does not have the layout of a stored font.
    SchemaMismatch,
    /// The serializer reported a fault while storing a font.
    SerializationFault,
}

} // verus!
