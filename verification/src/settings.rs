//! Resolution of the requested settings: unusable values are replaced by
//! defaults under a warning, except for a zero width, which ends the run.

use crate::background::{background_warning, is_background_of, resolve_background};
use crate::diagnostics::{ConvertError, Warning, WarningView};
use vstd::prelude::*;

verus! {

/// The quality used in place of a requested one outside `1..=100`.
pub const DEFAULT_QUALITY: u8 = 80;

/// Whether a requested quality can be used as it is.
pub open spec fn quality_in_range(requested: u8) -> bool {
    1 <= requested <= 100
}

/// The quality that a request resolves to.
pub open spec fn resolved_quality(requested: u8) -> u8 {
    if quality_in_range(requested) {
        requested
    } else {
        DEFAULT_QUALITY
    }
}

/// The warnings that resolving a requested quality gives rise to.
pub open spec fn quality_warnings(requested: u8) -> Seq<WarningView> {
    if quality_in_range(requested) {
        Seq::empty()
    } else {
        seq![WarningView::InvalidQuality(requested)]
    }
}

/// The warnings, none or one, that an optional warning stands for.
pub open spec fn at_most_one(warning: Option<WarningView>) -> Seq<WarningView> {
    match warning {
        Some(w) => seq![w],
        None => Seq::empty(),
    }
}

/// A resolved quality always lies in `1..=100`, and resolving it once more
/// changes nothing.
pub proof fn lemma_resolved_quality(requested: u8)
    ensures
        quality_in_range(resolved_quality(requested)),
        resolved_quality(resolved_quality(requested)) == resolved_quality(requested),
{
}

/// Resolves the requested quality: a value in `1..=100` is kept without a
/// warning, any other gives [`DEFAULT_QUALITY`] and a warning naming the value.
pub fn resolve_quality(requested: u8) -> (resolved: (u8, Option<Warning>))
    ensures
        resolved.0 == resolved_quality(requested),
        quality_in_range(requested) ==> resolved.1 is None,
        !quality_in_range(requested) ==> resolved.1 == Some(Warning::InvalidQuality(requested)),
{
    if requested == 0 || requested > 100 {
        (DEFAULT_QUALITY, Some(Warning::InvalidQuality(requested)))
    } else {
        (requested, None)
    }
}

/// Checks the requested width: zero is refused, anything else, and no width at
/// all, is kept.
pub fn check_width(requested: Option<u32>) -> (checked: Result<Option<u32>, ConvertError>)
    ensures
        requested == Some(0u32) ==> checked == Err::<Option<u32>, ConvertError>(
            ConvertError::ZeroWidth,
        ),
        requested != Some(0u32) ==> checked == Ok::<Option<u32>, ConvertError>(requested),
{
    match requested {
        Some(0) => Err(ConvertError::ZeroWidth),
        _ => Ok(requested),
    }
}

/// Resolves the supplementary font directory, given whether it exists: an
/// existing one is used, a missing one is left out under a warning that shows
/// its path.
pub fn resolve_fonts_dir(shown: &str, exists: bool) -> (resolved: (bool, Option<Warning>))
    ensures
        resolved.0 == exists,
        exists ==> resolved.1 is None,
        !exists ==> resolved.1.deep_view() == Some(WarningView::MissingFontsDir(shown@)),
{
    if exists {
        (true, None)
    } else {
        (false, Some(Warning::MissingFontsDir(String::from_str(shown))))
    }
}

/// The settings of one run after resolution: the quality lies in `1..=100`,
/// and the width, if there is one, is not zero.
#[derive(Debug)]
pub struct Settings {
    width: Option<u32>,
    quality: u8,
    background: tiny_skia::Color,
}

/// What resolving the requested settings came to: the warnings in the order
/// in which they arose, and the settings or the error that ends the run.
#[derive(Debug)]
pub struct Resolution {
    pub warnings: Vec<Warning>,
    pub outcome: Result<Settings, ConvertError>,
}

impl Settings {
    #[verifier::type_invariant]
    spec fn valid(self) -> bool {
        quality_in_range(self.quality) && self.width != Some(0u32)
    }

    /// The target width in pixels, if one was requested.
    pub closed spec fn target_width(self) -> Option<u32> {
        self.width
    }

    /// The compression quality.
    pub closed spec fn compression_quality(self) -> u8 {
        self.quality
    }

    /// The color that the canvas is filled with.
    pub closed spec fn background_color(self) -> tiny_skia::Color {
        self.background
    }

    /// The target width in pixels, if one was requested; never zero.
    pub fn width(&self) -> (width: Option<u32>)
        ensures
            width == self.target_width(),
            width != Some(0u32),
    {
        proof {
            use_type_invariant(self);
        }
        self.width
    }

    /// The compression quality, in `1..=100`.
    pub fn quality(&self) -> (quality: u8)
        ensures
            quality == self.compression_quality(),
            quality_in_range(quality),
    {
        proof {
            use_type_invariant(self);
        }
        self.quality
    }

    /// The color that the canvas is filled with.
    pub fn background(&self) -> (background: tiny_skia::Color)
        ensures
            background == self.background_color(),
    {
        self.background
    }

    /// Resolves the requested settings. The quality is resolved first, so its
    /// warning comes first. A zero width then ends the run before the
    /// background is looked at. Otherwise the background is resolved, its
    /// warning comes last, and the settings hold the width as requested, the
    /// resolved quality and the resolved background.
    pub fn resolve(width: Option<u32>, quality: u8, background: &str) -> (resolution: Resolution)
        ensures
            resolution.outcome is Err <==> width == Some(0u32),
            resolution.outcome matches Err(e) ==> e == ConvertError::ZeroWidth
                && resolution.warnings.deep_view() == quality_warnings(quality),
            resolution.outcome matches Ok(settings) ==> {
                &&& settings.target_width() == width
                &&& settings.compression_quality() == resolved_quality(quality)
                &&& is_background_of(settings.background_color(), background@)
                &&& resolution.warnings.deep_view() == quality_warnings(quality) + at_most_one(
                    background_warning(background@),
                )
            },
    {
        let mut warnings: Vec<Warning> = Vec::new();
        let (resolved, quality_warning) = resolve_quality(quality);
        match quality_warning {
            Some(warning) => {
                warnings.push(warning);
            },
            None => {},
        }
        assert(warnings.deep_view() =~= quality_warnings(quality));
        let ghost before = warnings.deep_view();
        let width = match check_width(width) {
            Ok(width) => width,
            Err(e) => {
                return Resolution { warnings, outcome: Err(e) };
            },
        };
        let (color, background_warning) = resolve_background(background);
        let ghost told = background_warning.deep_view();
        match background_warning {
            Some(warning) => {
                warnings.push(warning);
            },
            None => {},
        }
        assert(warnings.deep_view() =~= before + at_most_one(told));
        Resolution { warnings, outcome: Ok(Settings { width, quality: resolved, background: color }) }
    }
}

} // verus!
