//! Loading the font the text is laid out with.
use vstd::prelude::*;

verus! {

#[verifier::external_type_specification]
#[verifier::external_body]
pub struct ExFontArc(ab_glyph::FontArc);

#[verifier::external_type_specification]
#[verifier::external_body]
pub struct ExInvalidFont(ab_glyph::InvalidFont);

/// Whether `data` is a font file that ab_glyph accepts as a single face at index zero.
pub uninterp spec fn font_parses(data: Seq<u8>) -> bool;

/// `ab_glyph::FontArc::try_from_vec`. Claimed: it succeeds exactly when the bytes
/// parse, which depends on the bytes alone, and it fails on fewer than four bytes,
/// since the parser's first step reads a four-byte magic number.
#[verifier::external_body]
fn font_arc_try_from_vec(data: Vec<u8>) -> (r: Result<ab_glyph::FontArc, ab_glyph::InvalidFont>)
    ensures
        r is Ok <==> font_parses(data@),
        data@.len() < 4 ==> r is Err,
{
    ab_glyph::FontArc::try_from_vec(data)
}

/// The font file could not be parsed.
#[derive(Clone, Copy, Debug, PartialEq, Eq)]
pub struct InvalidFontData;

/// Parses a font file: the font when the bytes parse, `InvalidFontData` otherwise.
pub fn load_font(data: Vec<u8>) -> (r: Result<ab_glyph::FontArc, InvalidFontData>)
    ensures
        r is Ok <==> font_parses(data@),
        data@.len() < 4 ==> r == Err::<ab_glyph::FontArc, InvalidFontData>(InvalidFontData),
{
    match font_arc_try_from_vec(data) {
        Ok(font) => Ok(font),
        Err(_) => Err(InvalidFontData),
    }
}

} // verus!
