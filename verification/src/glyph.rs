use crate::error::FontError;
use vstd::prelude::*;

verus! {

/// One glyph: five rows of four pixels. Each row is one byte; its low four
/// bits are the pixels, the leftmost pixel in bit 3.
#[derive(Clone, Copy, Debug, PartialEq, Eq)]
pub struct Character(pub [u8; 5]);

/// Sixteen glyphs, in the order of the character slots.
#[derive(Clone, Copy, Debug, PartialEq, Eq)]
pub struct Font {
    pub characters: [Character; 16],
}

impl View for Character {
    type V = Seq<u8>;

    /// The five row bytes, top row first.
    open spec fn view(&self) -> Seq<u8> {
        self.0@
    }
}

impl Character {
    /// Every row keeps its upper four bits clear.
    pub open spec fn is_packed(&self) -> bool {
        forall|row: int| 0 <= row < 5 ==> #[trigger] self@[row] <= 0x0F
    }
}

impl View for Font {
    type V = Seq<Seq<u8>>;

    /// The sixteen glyphs, each as its five row bytes.
    open spec fn view(&self) -> Seq<Seq<u8>> {
        Seq::new(16, |i: int| self.characters[i]@)
    }
}

impl Font {
    /// Every glyph of the font is packed. A font read out of an image is;
    /// one read back from bytes is only if the bytes were.
    pub open spec fn is_packed(&self) -> bool {
        forall|i: int| 0 <= i < 16 ==> (#[trigger] self.characters[i]).is_packed()
    }
}

/// The outcome of building a font, with the font taken by its view.
pub open spec fn viewed(r: Result<Font, FontError>) -> Result<Seq<Seq<u8>>, FontError> {
    match r {
        Ok(font) => Ok(font@),
        Err(e) => Err(e),
    }
}

/// Sixteen glyphs of five rows each.
pub open spec fn is_glyph_table(glyphs: Seq<Seq<u8>>) -> bool {
    &&& glyphs.len() == 16
    &&& forall|g: int| 0 <= g < 16 ==> (#[trigger] glyphs[g]).len() == 5
}

/// The view of a font always has sixteen glyphs of five rows.
pub proof fn lemma_view_is_glyph_table(font: Font)
    ensures
        is_glyph_table(font@),
{
}

/// Two fonts with the same row bytes are the same font.
pub proof fn lemma_view_determines_font(a: Font, b: Font)
    requires
        a@ == b@,
    ensures
        a == b,
{
    assert forall|i: int| 0 <= i < 16 implies a.characters[i] == b.characters[i] by {
        assert(a@[i] == b@[i]);
        assert(a.characters[i].0 =~= b.characters[i].0);
    }
    assert(a.characters =~= b.characters);
}

} // verus!
