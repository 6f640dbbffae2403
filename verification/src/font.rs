//! Loading the font that the text of a label is drawn with.

use crate::error::LabelError;
use ab_glyph::{FontRef, InvalidFont};
use vstd::prelude::*;

verus! {

#[verifier::external_type_specification]
#[verifier::external_body]
pub struct ExFontRef<'font>(FontRef<'font>);

#[verifier::external_type_specification]
#[verifier::external_body]
pub struct ExInvalidFont(InvalidFont);

/// Whether `data` is the content of a font file that can be read.
pub uninterp spec fn font_parses(data: Seq<u8>) -> bool;

/// Trusted: calls `ab_glyph::FontRef::try_from_slice`. The contract claims
/// only that whether the call succeeds depends on nothing but the bytes.
#[verifier::external_body]
fn parse_font<'a>(data: &'a [u8]) -> (r: Result<FontRef<'a>, InvalidFont>)
    ensures
        r.is_ok() <==> font_parses(data@),
{
    FontRef::try_from_slice(data)
}

/// Turns the outcome of reading a font into the library's own: the font
/// if there is one, `FontLoad` if there is none.
pub fn font_or_error<'a>(
    parsed: Result<FontRef<'a>, InvalidFont>,
) -> (r: Result<FontRef<'a>, LabelError>)
    ensures
        r.is_ok() == parsed.is_ok(),
        r matches Ok(font) ==> parsed == Ok::<FontRef<'a>, InvalidFont>(font),
        r matches Err(e) ==> e == LabelError::FontLoad,
{
    match parsed {
        Ok(font) => Ok(font),
        Err(_) => Err(LabelError::FontLoad),
    }
}

/// Reads a font from the bytes of a font file.
///
/// Fails with `FontLoad` exactly when the bytes are not a readable font.
pub fn load_font<'a>(data: &'a [u8]) -> (r: Result<FontRef<'a>, LabelError>)
    ensures
        r.is_ok() <==> font_parses(data@),
        r matches Err(e) ==> e == LabelError::FontLoad,
{
    font_or_error(parse_font(data))
}

} // verus!
