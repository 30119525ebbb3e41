//! Trusted: what this crate takes for granted about the `csscolorparser`
//! color parser. Nothing in this file is proved.

use vstd::prelude::*;

verus! {

/// `csscolorparser::Color`, the four channels of a parsed color.
#[verifier::external_type_specification]
#[verifier::external_body]
pub struct ExCssColor(csscolorparser::Color);

/// `csscolorparser::ParseColorError`, the reason a text is no color.
#[verifier::external_type_specification]
#[verifier::external_body]
pub struct ExParseColorError(csscolorparser::ParseColorError);

/// The color that `csscolorparser::parse` reads in `text`, or nothing where
/// the text is no color. The grammar (named colors, hexadecimal forms,
/// `rgb()`, `hsl()` and the rest) is the parser's own and is not restated.
pub uninterp spec fn css_color_of(text: Seq<char>) -> Option<csscolorparser::Color>;

/// Whether `text` is a color.
pub open spec fn css_color_parses(text: Seq<char>) -> bool {
    css_color_of(text) is Some
}

/// `csscolorparser::parse`. Whether it succeeds, and with which color,
/// depends on the text alone.
#[verifier::external_body]
pub(crate) fn css_parse(text: &str) -> (parsed: Result<
    csscolorparser::Color,
    csscolorparser::ParseColorError,
>)
    ensures
        parsed.is_ok() == css_color_parses(text@),
        parsed matches Ok(color) ==> css_color_of(text@) == Some(color),
{
    csscolorparser::parse(text)
}

} // verus!
