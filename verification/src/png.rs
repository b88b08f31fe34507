use crate::error::FontError;
use crate::extract::{extracted, IMAGE_HEIGHT, IMAGE_WIDTH};
use crate::glyph::{viewed, Font};
use vstd::prelude::*;

verus! {

/// What the font loader reads from the header of a PNG file.
#[derive(Clone, Copy, Debug, PartialEq, Eq)]
pub struct PngHeader {
    /// Width of the image in pixels.
    pub width: u32,
    /// Height of the image in pixels.
    pub height: u32,
    /// Size in bytes of a buffer in which the image can be decoded and
    /// then converted to RGBA8.
    pub rgba_bytes: usize,
}

/// The error type of the PNG decoder. The loader only tells that there
/// was an error.
#[verifier::external_type_specification]
#[verifier::external_body]
pub struct ExPngError(minipng::Error);

/// The header that `minipng::decode_png_header` finds in a file, or `None`
/// where it reports an error.
pub uninterp spec fn png_header(data: Seq<u8>) -> Option<PngHeader>;

/// The eight bytes that every PNG file starts with.
pub open spec fn png_signature() -> Seq<u8> {
    seq![137u8, 80u8, 78u8, 71u8, 13u8, 10u8, 26u8, 10u8]
}

/// The file starts with the PNG signature.
pub open spec fn has_png_signature(data: Seq<u8>) -> bool {
    data.len() >= 8 && data.subrange(0, 8) == png_signature()
}

/// `minipng::decode_png_header`, with the width, the height and
/// `required_bytes_rgba8bpc()` taken from the header it returns.
///
/// The decoder reads the file and nothing else, so what it finds is a
/// function of the bytes: `png_header`. One thing more is claimed: its
/// first test is on the signature, so it finds no header in a file that
/// is shorter than the eight signature bytes or starts with other bytes.
#[verifier::external_body]
fn read_header(data: &[u8]) -> (r: Result<PngHeader, minipng::Error>)
    ensures
        match r {
            Ok(header) => png_header(data@) == Some(header),
            Err(_) => png_header(data@) is None,
        },
        r is Ok ==> has_png_signature(data@),
{
    let header = minipng::decode_png_header(data)?;
    Ok(
        PngHeader {
            width: header.width(),
            height: header.height(),
            rgba_bytes: header.required_bytes_rgba8bpc(),
        },
    )
}

/// What the loader decides on a header: the size of the buffer to decode
/// into, or the reason for going no further. A file without a readable
/// header is no image, and an image of another size than 16×20 is refused
/// on its header alone.
pub open spec fn buffer_size(header: Option<PngHeader>) -> Result<usize, FontError> {
    match header {
        None => Err(FontError::ImageDecodeFailure),
        Some(h) => if h.width != IMAGE_WIDTH || h.height != IMAGE_HEIGHT {
            Err(FontError::InvalidSize)
        } else {
            Ok(h.rgba_bytes)
        },
    }
}

/// What the loader makes of the decoder's outcome. `None` stands for an
/// image that could not be decoded, `Some(None)` for one that was decoded
/// and could not be converted to RGBA8, and `Some(Some(pixels))` for the
/// RGBA8 pixels of an image of the given width and height.
pub open spec fn assembled(decoded: Option<Option<Vec<u8>>>, width: u32, height: u32) -> Result<
    Seq<Seq<u8>>,
    FontError,
> {
    match decoded {
        None => Err(FontError::ImageDecodeFailure),
        Some(None) => Err(FontError::ConversionFailure),
        Some(Some(pixels)) => extracted(pixels@, width, height),
    }
}

/// Decides on a header, if there is one, whether the image can hold a
/// font, and how large a buffer its decoding needs.
pub fn buffer_size_for(header: Option<PngHeader>) -> (r: Result<usize, FontError>)
    ensures
        r == buffer_size(header),
{
    match header {
        None => Err(FontError::ImageDecodeFailure),
        Some(h) => {
            if h.width != IMAGE_WIDTH || h.height != IMAGE_HEIGHT {
                Err(FontError::InvalidSize)
            } else {
                Ok(h.rgba_bytes)
            }
        },
    }
}

impl Font {
    /// Reads the header of a PNG file and decides on it as
    /// [`buffer_size_for`] does: the first step of loading a font.
    ///
    /// On `Ok(size)` the caller decodes the file into a zeroed buffer of
    /// `size` bytes, converts the image to RGBA8, and hands the outcome to
    /// [`Font::from_decoded`]. The pixels are not decoded here: the
    /// decoder can panic on malformed compressed data, and only the caller
    /// can contain that.
    pub fn png_buffer_size(data: &[u8]) -> (r: Result<usize, FontError>)
        ensures
            r == buffer_size(png_header(data@)),
            !has_png_signature(data@) ==> r == Err::<usize, FontError>(
                FontError::ImageDecodeFailure,
            ),
    {
        match read_header(data) {
            Ok(header) => buffer_size_for(Some(header)),
            Err(_) => buffer_size_for(None),
        }
    }

    /// Builds the font from what the decoder made of a PNG file: the
    /// second step of loading a font.
    ///
    /// `decoded` is `None` where the image could not be decoded,
    /// `Some(None)` where it could not be converted to RGBA8, and
    /// otherwise holds the RGBA8 pixels, which go to [`Font::extract`]
    /// with the width and height of the image. Without pixels, `width`
    /// and `height` play no part.
    pub fn from_decoded(decoded: Option<Option<Vec<u8>>>, width: u32, height: u32) -> (r: Result<
        Font,
        FontError,
    >)
        ensures
            viewed(r) == assembled(decoded, width, height),
            r matches Ok(font) ==> font.is_packed(),
    {
        match decoded {
            None => Err(FontError::ImageDecodeFailure),
            Some(None) => Err(FontError::ConversionFailure),
            Some(Some(pixels)) => Font::extract(pixels.as_slice(), width, height),
        }
    }
}

} // verus!
