//! The background color: parsed from a CSS color text, with opaque white
//! standing in, under a warning, for a text that gives no usable color.

use crate::css_t::{css_color_of, css_parse};
use crate::diagnostics::{Warning, WarningView};
use crate::skia_t::{color_from_rgba, color_white, fill_pixel, skia_color_of};
use vstd::prelude::*;

verus! {

/// The pixel that an opaque white background puts everywhere.
pub open spec fn white_pixel() -> (u8, u8, u8, u8) {
    (255u8, 255u8, 255u8, 255u8)
}

/// What looking a background text up came to.
#[derive(Debug)]
pub enum Lookup {
    /// The text is no color.
    Unparseable,
    /// The text is a color, but the renderer refused its channels.
    Rejected,
    /// The text is this color.
    Found(tiny_skia::Color),
}

/// What looking `text` up comes to: the color that the renderer makes of the
/// channels that the parser reads in the text.
pub open spec fn lookup_of(text: Seq<char>) -> Lookup {
    match css_color_of(text) {
        None => Lookup::Unparseable,
        Some(parsed) => match skia_color_of(parsed) {
            None => Lookup::Rejected,
            Some(found) => Lookup::Found(found),
        },
    }
}

/// The warning that a lookup gives rise to: none for a color that was found,
/// one that says so for a rejected color, and one that names the text for a
/// text that is no color.
pub open spec fn lookup_warning(text: Seq<char>, lookup: Lookup) -> Option<WarningView> {
    match lookup {
        Lookup::Found(_) => None,
        Lookup::Rejected => Some(WarningView::RejectedBackground),
        Lookup::Unparseable => Some(WarningView::UnparseableBackground(text)),
    }
}

/// Whether `color` is the background for a lookup: the color that was found,
/// or else a color that fills with opaque white.
pub open spec fn is_background_for(color: tiny_skia::Color, lookup: Lookup) -> bool {
    match lookup {
        Lookup::Found(found) => color == found,
        _ => fill_pixel(color) == white_pixel(),
    }
}

/// The warning that resolving the background `text` gives rise to.
pub open spec fn background_warning(text: Seq<char>) -> Option<WarningView> {
    lookup_warning(text, lookup_of(text))
}

/// Whether `color` is what the background `text` resolves to: the color the
/// text denotes, or opaque white where it denotes none that can be used.
pub open spec fn is_background_of(color: tiny_skia::Color, text: Seq<char>) -> bool {
    is_background_for(color, lookup_of(text))
}

impl Lookup {
    /// What the renderer's answer to the channels of a parsed color means:
    /// the color it made of them is found, and a refusal is a rejection.
    pub fn of_parsed(constructed: Option<tiny_skia::Color>) -> (lookup: Lookup)
        ensures
            constructed matches Some(color) ==> lookup == Lookup::Found(color),
            constructed is None ==> lookup == Lookup::Rejected,
    {
        match constructed {
            Some(color) => Lookup::Found(color),
            None => Lookup::Rejected,
        }
    }
}

/// The background to use, and the warning to report, for each outcome of
/// looking `text` up: the color that was found, or else opaque white with a
/// warning that says why.
pub fn choose_background(text: &str, lookup: Lookup) -> (chosen: (tiny_skia::Color, Option<Warning>))
    ensures
        is_background_for(chosen.0, lookup),
        chosen.1.deep_view() == lookup_warning(text@, lookup),
{
    match lookup {
        Lookup::Found(color) => (color, None),
        Lookup::Rejected => (color_white(), Some(Warning::RejectedBackground)),
        Lookup::Unparseable => (
            color_white(),
            Some(Warning::UnparseableBackground(String::from_str(text))),
        ),
    }
}

/// Looks a background text up: parses it as a CSS color and offers the
/// channels to the renderer.
pub fn look_up_background(text: &str) -> (lookup: Lookup)
    ensures
        lookup == lookup_of(text@),
{
    match css_parse(text) {
        Ok(parsed) => Lookup::of_parsed(color_from_rgba(&parsed)),
        Err(_) => Lookup::Unparseable,
    }
}

/// Resolves the background text to the color to fill the canvas with and the
/// warning to report, if any. A text that is a color the renderer accepts
/// gives that color and no warning. Any other text gives opaque white, with a
/// warning that names the text where it is no color, and one that tells of
/// the rejection where the renderer refused the color.
pub fn resolve_background(text: &str) -> (chosen: (tiny_skia::Color, Option<Warning>))
    ensures
        is_background_of(chosen.0, text@),
        chosen.1.deep_view() == background_warning(text@),
{
    let lookup = look_up_background(text);
    choose_background(text, lookup)
}

} // verus!
