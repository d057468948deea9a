use emoji_gen::emoji::color::Color;
use emoji_gen::emoji::compose::{Action, Stage};
use emoji_gen::emoji::fit::Probe;
use emoji_gen::emoji::typeface::Typeface;
use emoji_gen::emoji::units::SCALE_ONE;
use emoji_gen::emoji::utils::{ImageFormat, TextAlign};
use emoji_gen::{configure, generate, EmojiOptions};

fn none() -> EmojiOptions {
    EmojiOptions {
        width: None,
        height: None,
        flexible_width: None,
        color: None,
        background_color: None,
        text_align: None,
        text_size_fixed: None,
        disable_stretch: None,
        disable_outline: None,
        outline_width: None,
        outline_color: None,
        typeface_file: None,
        typeface_name: None,
        format: None,
        quality: None,
    }
}

fn text(value: &str) -> Option<String> {
    Some(value.to_string())
}

#[test]
fn no_options_keep_every_default() {
    for options in [None, Some(none())] {
        let g = configure("a\nb".to_string(), options, true, true).unwrap();
        assert_eq!(g.texts, vec!["a", "b"]);
        assert_eq!((g.width, g.height), (128, 128));
        assert!(!g.flexible_width && !g.text_size_fixed);
        assert!(!g.disable_stretch && !g.disable_outline);
        assert_eq!(g.color, Color::black());
        assert_eq!(g.background_color, Color::transparent());
        assert_eq!(g.outline_color, Color::white());
        assert_eq!(g.outline_width, 8);
        assert_eq!(g.text_align, TextAlign::Center);
        assert_eq!(g.typeface, Typeface::Default);
        assert_eq!(g.format, ImageFormat::PNG);
        assert_eq!(g.quality, 100);
    }
}

#[test]
fn every_option_is_applied() {
    let options = EmojiOptions {
        width: Some(64),
        height: Some(32),
        flexible_width: Some(true),
        color: text("#FF0000"),
        background_color: text("00FF0080"),
        text_align: text("right"),
        text_size_fixed: Some(true),
        disable_stretch: Some(true),
        disable_outline: Some(true),
        outline_width: Some(2),
        outline_color: text("#0000ff"),
        typeface_file: text("font.ttf"),
        typeface_name: None,
        format: text("jpeg"),
        quality: Some(90),
    };
    let g = configure("x".to_string(), Some(options), true, false).unwrap();
    assert_eq!((g.width, g.height), (64, 32));
    assert!(g.flexible_width && g.text_size_fixed && g.disable_stretch && g.disable_outline);
    assert_eq!(g.color, Color { a: 255, r: 255, g: 0, b: 0 });
    assert_eq!(g.background_color, Color { a: 128, r: 0, g: 255, b: 0 });
    assert_eq!(g.outline_color, Color { a: 255, r: 0, g: 0, b: 255 });
    assert_eq!(g.outline_width, 2);
    assert_eq!(g.text_align, TextAlign::Right);
    assert_eq!(g.typeface, Typeface::File("font.ttf".to_string()));
    assert_eq!(g.format, ImageFormat::JPEG);
    assert_eq!(g.quality, 90);
}

#[test]
fn typeface_name_wins_over_file_when_both_load() {
    let both = || EmojiOptions {
        typeface_file: text("font.ttf"),
        typeface_name: text("Serif"),
        ..none()
    };
    let pick = |loaded, found| configure(String::new(), Some(both()), loaded, found).unwrap().typeface;
    assert_eq!(pick(true, true), Typeface::Name("Serif".to_string()));
    assert_eq!(pick(true, false), Typeface::File("font.ttf".to_string()));
    assert_eq!(pick(false, true), Typeface::Name("Serif".to_string()));
    assert_eq!(pick(false, false), Typeface::Default);
}

#[test]
fn first_malformed_option_is_reported() {
    let all_bad = EmojiOptions {
        color: text("red"),
        background_color: text("#12"),
        text_align: text("middle"),
        outline_color: text("#GGGGGG"),
        format: text("bmp"),
        ..none()
    };
    let report = |options: EmojiOptions| configure("x".to_string(), Some(options), true, true).unwrap_err();
    assert_eq!(report(all_bad.clone()), "Invalid color code: red");
    assert_eq!(
        report(EmojiOptions { color: text("#000000"), ..all_bad.clone() }),
        "color code must be 6 or 8 digits (eg. #000000, #000000FF): #12"
    );
    assert_eq!(
        report(EmojiOptions { color: None, background_color: None, ..all_bad.clone() }),
        "Invalid text align: middle"
    );
    assert_eq!(
        report(EmojiOptions {
            color: None,
            background_color: None,
            text_align: text("left"),
            ..all_bad.clone()
        }),
        "Invalid color code: #GGGGGG"
    );
    assert_eq!(
        report(EmojiOptions { format: text("bmp"), ..none() }),
        "Invalid image format: bmp"
    );
}

#[test]
fn format_keyword_must_be_png_or_jpeg() {
    for keyword in ["webp", "gif", "bmp"] {
        let options = EmojiOptions { format: text(keyword), ..none() };
        assert_eq!(
            configure(String::new(), Some(options.clone()), true, true).unwrap_err(),
            format!("Invalid image format: {}", keyword)
        );
        assert_eq!(
            generate("A".to_string(), Some(options), true, true).unwrap_err(),
            format!("Invalid image format: {}", keyword)
        );
    }
    let options = EmojiOptions { format: text("jpeg"), ..none() };
    assert_eq!(
        configure(String::new(), Some(options), true, true).unwrap().format,
        ImageFormat::JPEG
    );
}

#[test]
fn generate_reports_before_anything_is_measured() {
    let options = EmojiOptions { text_align: text("centre"), ..none() };
    assert_eq!(
        generate("A".to_string(), Some(options), true, true).unwrap_err(),
        "Invalid text align: centre"
    );
}

#[test]
fn generate_starts_the_composer_of_the_configured_page() {
    let options = EmojiOptions { width: Some(100), height: Some(100), ..none() };
    let composer = generate("A\nB".to_string(), Some(options), false, false).unwrap();
    assert_eq!(composer.stage(), Stage::PerLineMeasure);
    assert_eq!(composer.lines().len(), 2);
    assert_eq!(composer.width(), 1_000_000);
    assert_eq!(composer.line_height(), 500_000);
    assert_eq!(
        composer.pending(),
        Action::Measure { line: 0, probe: Probe { size: 450_000, scale: SCALE_ONE } }
    );
    let composer = generate("".to_string(), None, false, false).unwrap();
    assert_eq!(composer.pending(), Action::Draw);
    assert_eq!((composer.canvas_width(), composer.canvas_height()), (128, 128));
}
