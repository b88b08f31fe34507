use crate::error::FontError;
use crate::glyph::{is_glyph_table, lemma_view_is_glyph_table, viewed, Character, Font};
use bincode::Options;
use vstd::prelude::*;

verus! {

/// The stored form of sixteen glyphs: their row bytes one after another,
/// glyph by glyph, with nothing before, between or after them.
pub open spec fn encoding(glyphs: Seq<Seq<u8>>) -> Seq<u8> {
    Seq::new(80, |i: int| glyphs[i / 5][i % 5])
}

/// The sixteen glyphs that eighty bytes hold: glyph `g` is the five bytes
/// from `5 * g` on.
pub open spec fn decoding(bytes: Seq<u8>) -> Seq<Seq<u8>> {
    Seq::new(16, |g: int| bytes.subrange(5 * g, 5 * g + 5))
}

/// What [`Font::from_bytes`] returns: the glyphs, or the reason for none.
pub open spec fn decoded(bytes: Seq<u8>) -> Result<Seq<Seq<u8>>, FontError> {
    if bytes.len() == 80 {
        Ok(decoding(bytes))
    } else {
        Err(FontError::SchemaMismatch)
    }
}

/// The glyphs of a table of row bytes.
pub open spec fn table_view(rows: [[u8; 5]; 16]) -> Seq<Seq<u8>> {
    Seq::new(16, |g: int| rows@[g]@)
}

/// The error type of the serializer. The codec only tells that there was
/// an error.
#[verifier::external_type_specification]
#[verifier::external_body]
pub struct ExErrorKind(bincode::ErrorKind);

/// `bincode::Options::serialize` on a table of row bytes, with fixed-width
/// integers and little-endian byte order.
///
/// An array is written as its elements in order, with no length before
/// them, and a `u8` as one byte. With no size limit and a `Vec` to write
/// to, nothing can fail. So the result is the eighty row bytes.
#[verifier::external_body]
fn serialize_table(rows: &[[u8; 5]; 16]) -> (r: Result<Vec<u8>, Box<bincode::ErrorKind>>)
    ensures
        r is Ok,
        r matches Ok(bytes) ==> bytes@ == encoding(table_view(*rows)),
{
    bincode::DefaultOptions::new().with_fixint_encoding().with_little_endian().serialize(rows)
}

/// `bincode::Options::deserialize` to a table of row bytes, with
/// fixed-width integers and little-endian byte order.
///
/// An array is read as its elements in order and a `u8` as one byte,
/// whatever its value. Reading fails when the input ends early, and these
/// options reject input that is left over. So the call succeeds on
/// exactly eighty bytes, and the table holds them in order.
#[verifier::external_body]
fn deserialize_table(data: &[u8]) -> (r: Result<[[u8; 5]; 16], Box<bincode::ErrorKind>>)
    ensures
        r is Ok <==> data@.len() == 80,
        r matches Ok(rows) ==> table_view(rows) == decoding(data@),
{
    bincode::DefaultOptions::new().with_fixint_encoding().with_little_endian().deserialize(data)
}

impl Font {
    /// The row bytes of the sixteen glyphs as one table.
    pub fn to_table(&self) -> (rows: [[u8; 5]; 16])
        ensures
            table_view(rows) == self@,
    {
        let mut rows: [[u8; 5]; 16] = [[0u8; 5]; 16];
        let mut i: usize = 0;
        while i < 16
            invariant
                i <= 16,
                forall|g: int| 0 <= g < i ==> (#[trigger] rows@[g])@ == self.characters@[g]@,
            decreases 16 - i,
        {
            rows[i] = self.characters[i].0;
            i = i + 1;
        }
        assert(table_view(rows) =~= self@);
        rows
    }

    /// The font whose glyphs have the row bytes of a table.
    pub fn from_table(rows: &[[u8; 5]; 16]) -> (font: Font)
        ensures
            font@ == table_view(*rows),
    {
        let mut characters: [Character; 16] = [Character([0u8; 5]); 16];
        let mut i: usize = 0;
        while i < 16
            invariant
                i <= 16,
                forall|g: int| 0 <= g < i ==> (#[trigger] characters@[g])@ == rows@[g]@,
            decreases 16 - i,
        {
            characters[i] = Character(rows[i]);
            i = i + 1;
        }
        let font = Font { characters };
        assert(font@ =~= table_view(*rows));
        font
    }

    /// Stores the font as eighty bytes: the five row bytes of glyph 0,
    /// then those of glyph 1, and so on. The font is left as it was.
    pub fn to_bytes(&mut self) -> (r: Result<Vec<u8>, FontError>)
        ensures
            *final(self) == *old(self),
            r matches Ok(bytes) && bytes@ == encoding(old(self)@) && bytes@.len() == 80,
    {
        let rows = self.to_table();
        match serialize_table(&rows) {
            Ok(bytes) => Ok(bytes),
            Err(_) => Err(FontError::SerializationFault),
        }
    }

    /// Reads a font back from its stored form. The input must be exactly
    /// eighty bytes; the bytes themselves are taken as they are, so a row
    /// byte with a high bit set comes back with it, and the font is packed
    /// only if the bytes were.
    pub fn from_bytes(data: &[u8]) -> (r: Result<Font, FontError>)
        ensures
            viewed(r) == decoded(data@),
            r matches Ok(font) ==> (font.is_packed() <==> forall|i: int|
                0 <= i < 80 ==> #[trigger] data@[i] <= 0x0F),
    {
        match deserialize_table(data) {
            Ok(rows) => {
                let font = Font::from_table(&rows);
                proof {
                    lemma_packed_bytes(font, data@);
                }
                Ok(font)
            },
            Err(_) => Err(FontError::SchemaMismatch),
        }
    }
}

/// A font read from eighty bytes is packed exactly when each of the bytes
/// keeps its upper four bits clear.
proof fn lemma_packed_bytes(font: Font, bytes: Seq<u8>)
    requires
        bytes.len() == 80,
        font@ == decoding(bytes),
    ensures
        font.is_packed() <==> forall|i: int| 0 <= i < 80 ==> #[trigger] bytes[i] <= 0x0F,
{
    if font.is_packed() {
        assert forall|i: int| 0 <= i < 80 implies #[trigger] bytes[i] <= 0x0F by {
            let g = i / 5;
            let row = i % 5;
            assert(font.characters[g].is_packed());
            assert(font@[g][row] == bytes[5 * g + row]);
            assert(font.characters[g]@[row] <= 0x0F);
        }
    }
    if forall|i: int| 0 <= i < 80 ==> #[trigger] bytes[i] <= 0x0F {
        assert forall|g: int| 0 <= g < 16 implies (#[trigger] font.characters[g]).is_packed() by {
            assert forall|row: int| 0 <= row < 5 implies #[trigger] font.characters[g]@[row]
                <= 0x0F by {
                assert(font@[g][row] == bytes[5 * g + row]);
            }
        }
    }
}

/// Round trip: the bytes that [`Font::to_bytes`] gives for a font are
/// eighty, and [`Font::from_bytes`] reads them as the glyphs of that font.
pub proof fn lemma_round_trip(font: Font)
    ensures
        encoding(font@).len() == 80,
        decoded(encoding(font@)) == viewed(Ok(font)),
{
    lemma_view_is_glyph_table(font);
    lemma_decode_encode(font@);
}

/// Reading stored glyphs gives back the glyphs that were stored.
pub proof fn lemma_decode_encode(glyphs: Seq<Seq<u8>>)
    requires
        is_glyph_table(glyphs),
    ensures
        decoding(encoding(glyphs)) == glyphs,
{
    let bytes = encoding(glyphs);
    assert forall|g: int| 0 <= g < 16 implies #[trigger] decoding(bytes)[g] == glyphs[g] by {
        assert forall|r: int| 0 <= r < 5 implies decoding(bytes)[g][r] == glyphs[g][r] by {
            assert((5 * g + r) / 5 == g && (5 * g + r) % 5 == r);
        }
        assert(decoding(bytes)[g] =~= glyphs[g]);
    }
    assert(decoding(bytes) =~= glyphs);
}

/// Storing the glyphs read from eighty bytes gives back those bytes.
pub proof fn lemma_encode_decode(bytes: Seq<u8>)
    requires
        bytes.len() == 80,
    ensures
        encoding(decoding(bytes)) == bytes,
        is_glyph_table(decoding(bytes)),
{
    assert forall|i: int| 0 <= i < 80 implies encoding(decoding(bytes))[i] == bytes[i] by {
        assert(5 * (i / 5) + i % 5 == i);
    }
    assert(encoding(decoding(bytes)) =~= bytes);
}

} // verus!
