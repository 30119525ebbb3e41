use resvg_jpeg::background::{choose_background, look_up_background, resolve_background, Lookup};
use resvg_jpeg::canvas::blank_canvas;
use resvg_jpeg::diagnostics::{decimal_text, ConvertError, Warning};
use resvg_jpeg::settings::{
    check_width, resolve_fonts_dir, resolve_quality, Settings, DEFAULT_QUALITY,
};

fn write_failure() -> image::ImageError {
    image::ImageError::IoError(std::io::Error::new(
        std::io::ErrorKind::Other,
        "no space left",
    ))
}

fn painted(color: tiny_skia::Color) -> Vec<u8> {
    let canvas = blank_canvas(1, 1, color).unwrap();
    canvas.data().to_vec()
}

#[test]
fn quality_inside_range_is_kept() {
    for requested in 1..=100u8 {
        assert_eq!(resolve_quality(requested), (requested, None));
    }
}

#[test]
fn quality_outside_range_becomes_default() {
    assert_eq!(DEFAULT_QUALITY, 80);
    assert_eq!(
        resolve_quality(0),
        (80, Some(Warning::InvalidQuality(0)))
    );
    for requested in 101..=255u8 {
        assert_eq!(
            resolve_quality(requested),
            (80, Some(Warning::InvalidQuality(requested)))
        );
    }
}

#[test]
fn quality_edges() {
    assert_eq!(resolve_quality(1), (1, None));
    assert_eq!(resolve_quality(100), (100, None));
    assert_eq!(resolve_quality(101).0, 80);
    assert_eq!(resolve_quality(255).0, 80);
}

#[test]
fn decimal_text_of_every_length() {
    assert_eq!(decimal_text(0), "0");
    assert_eq!(decimal_text(7), "7");
    assert_eq!(decimal_text(10), "10");
    assert_eq!(decimal_text(99), "99");
    assert_eq!(decimal_text(100), "100");
    assert_eq!(decimal_text(101), "101");
    assert_eq!(decimal_text(255), "255");
}

#[test]
fn decimal_text_agrees_with_formatting() {
    for n in 0..=255u8 {
        assert_eq!(decimal_text(n), format!("{}", n));
    }
}

#[test]
fn warning_messages() {
    assert_eq!(
        Warning::InvalidQuality(0).message(),
        "Warning: Invalid quality '0'. Using default 80."
    );
    assert_eq!(
        Warning::InvalidQuality(200).message(),
        "Warning: Invalid quality '200'. Using default 80."
    );
    assert_eq!(
        Warning::UnparseableBackground("#12".to_string()).message(),
        "Warning: Failed to parse background color '#12'. Using default white."
    );
    assert_eq!(
        Warning::RejectedBackground.message(),
        "Warning: Invalid background color alpha. Using default white."
    );
    assert_eq!(
        Warning::MissingFontsDir("/no/such/fonts".to_string()).message(),
        "Warning: Fonts directory '/no/such/fonts' does not exist"
    );
}

#[test]
fn error_messages() {
    assert_eq!(
        ConvertError::ZeroWidth.message(),
        "Width must be greater than 0"
    );
    assert_eq!(
        ConvertError::InputUnreadable("in.svg".to_string()).message(),
        "Failed to read input file: in.svg"
    );
    assert_eq!(
        ConvertError::StdinUnreadable.message(),
        "Failed to read from stdin"
    );
    assert_eq!(
        ConvertError::MalformedDocument(usvg::Error::InvalidSize).message(),
        "Failed to parse SVG data"
    );
    assert_eq!(
        ConvertError::BitmapAllocation.message(),
        "Failed to allocate memory for bitmap"
    );
    assert_eq!(
        ConvertError::OutputNotCreated("out.jpg".to_string()).message(),
        "Failed to create output file: out.jpg"
    );
    assert_eq!(
        ConvertError::EncodeFailed(write_failure()).message(),
        "Failed to encode JPEG"
    );
    assert_eq!(
        ConvertError::EncodeToStdoutFailed(write_failure()).message(),
        "Failed to encode JPEG to stdout"
    );
}

#[test]
fn width_is_checked() {
    assert!(matches!(check_width(None), Ok(None)));
    assert!(matches!(check_width(Some(1)), Ok(Some(1))));
    assert!(matches!(check_width(Some(100)), Ok(Some(100))));
    assert!(matches!(check_width(Some(u32::MAX)), Ok(Some(u32::MAX))));
    assert!(matches!(check_width(Some(0)), Err(ConvertError::ZeroWidth)));
}

#[test]
fn fonts_dir_is_used_only_if_it_exists() {
    assert_eq!(resolve_fonts_dir("fonts", true), (true, None));
    assert_eq!(
        resolve_fonts_dir("fonts", false),
        (false, Some(Warning::MissingFontsDir("fonts".to_string())))
    );
}

#[test]
fn valid_settings_resolve_without_warnings() {
    let resolution = Settings::resolve(Some(100), 85, "white");
    assert!(resolution.warnings.is_empty());
    let settings = resolution.outcome.unwrap();
    assert_eq!(settings.width(), Some(100));
    assert_eq!(settings.quality(), 85);
    assert_eq!(painted(settings.background()), vec![255, 255, 255, 255]);
}

#[test]
fn omitted_width_stays_omitted() {
    let resolution = Settings::resolve(None, 80, "white");
    let settings = resolution.outcome.unwrap();
    assert_eq!(settings.width(), None);
}

#[test]
fn zero_width_ends_the_run_before_the_background() {
    let resolution = Settings::resolve(Some(0), 0, "not-a-color");
    assert_eq!(resolution.warnings, vec![Warning::InvalidQuality(0)]);
    assert!(matches!(
        resolution.outcome.unwrap_err(),
        ConvertError::ZeroWidth
    ));
}

#[test]
fn warnings_come_in_order() {
    let resolution = Settings::resolve(Some(10), 150, "no such color");
    assert_eq!(
        resolution.warnings,
        vec![
            Warning::InvalidQuality(150),
            Warning::UnparseableBackground("no such color".to_string()),
        ]
    );
    let settings = resolution.outcome.unwrap();
    assert_eq!(settings.quality(), 80);
    assert_eq!(settings.width(), Some(10));
    assert_eq!(painted(settings.background()), vec![255, 255, 255, 255]);
}

#[test]
fn named_and_hex_backgrounds() {
    let (red, warning) = resolve_background("red");
    assert_eq!(warning, None);
    assert_eq!(painted(red), vec![255, 0, 0, 255]);

    let (blue, warning) = resolve_background("#0000ff");
    assert_eq!(warning, None);
    assert_eq!(painted(blue), vec![0, 0, 255, 255]);

    let (black, warning) = resolve_background("rgb(0, 0, 0)");
    assert_eq!(warning, None);
    assert_eq!(painted(black), vec![0, 0, 0, 255]);
}

#[test]
fn found_background_is_what_parser_and_renderer_make_of_the_text() {
    for text in [
        "#336699",
        "tomato",
        "rgb(12, 34, 56)",
        "hsl(200, 50%, 40%)",
        "rgba(10, 20, 30, 0.25)",
        "transparent",
    ] {
        let parsed = csscolorparser::parse(text).unwrap();
        let expected =
            tiny_skia::Color::from_rgba(parsed.r, parsed.g, parsed.b, parsed.a).unwrap();
        let (color, warning) = resolve_background(text);
        assert_eq!(warning, None);
        assert_eq!(color, expected);
        match look_up_background(text) {
            Lookup::Found(found) => assert_eq!(found, expected),
            other => panic!("{:?}", other),
        }
        let settings = Settings::resolve(None, 80, text).outcome.unwrap();
        assert_eq!(settings.background(), expected);
    }
}

#[test]
fn translucent_background_is_premultiplied() {
    let (color, warning) = resolve_background("#ff000080");
    assert_eq!(warning, None);
    assert_eq!(painted(color), vec![128, 0, 0, 128]);
}

#[test]
fn unparseable_backgrounds_fall_back_to_white() {
    for text in ["not-a-color", "", "#12", "rgb(", "12px"] {
        let (color, warning) = resolve_background(text);
        assert_eq!(
            warning,
            Some(Warning::UnparseableBackground(text.to_string()))
        );
        assert_eq!(painted(color), vec![255, 255, 255, 255]);
    }
}

#[test]
fn lookup_tells_colors_from_other_texts() {
    assert!(matches!(look_up_background("white"), Lookup::Found(_)));
    assert!(matches!(look_up_background("  navy  "), Lookup::Found(_)));
    assert!(matches!(
        look_up_background("not-a-color"),
        Lookup::Unparseable
    ));
}

#[test]
fn lookup_for_each_answer_of_the_renderer() {
    let teal = tiny_skia::Color::from_rgba8(0, 128, 128, 255);
    match Lookup::of_parsed(Some(teal)) {
        Lookup::Found(color) => assert_eq!(color, teal),
        other => panic!("{:?}", other),
    }
    assert!(matches!(Lookup::of_parsed(None), Lookup::Rejected));
    let out_of_range = tiny_skia::Color::from_rgba(1.5, 0.0, 0.0, 1.0);
    assert!(matches!(Lookup::of_parsed(out_of_range), Lookup::Rejected));
}

#[test]
fn choice_for_each_lookup() {
    let green = tiny_skia::Color::from_rgba8(0, 255, 0, 255);
    let (color, warning) = choose_background("lime", Lookup::Found(green));
    assert_eq!(color, green);
    assert_eq!(warning, None);

    let (color, warning) = choose_background("lime", Lookup::Rejected);
    assert_eq!(color, tiny_skia::Color::WHITE);
    assert_eq!(warning, Some(Warning::RejectedBackground));

    let (color, warning) = choose_background("lime", Lookup::Unparseable);
    assert_eq!(color, tiny_skia::Color::WHITE);
    assert_eq!(
        warning,
        Some(Warning::UnparseableBackground("lime".to_string()))
    );
}
