use emoji_gen::emoji::color::Color;
use emoji_gen::emoji::fit::{Bounds, Probe};
use emoji_gen::emoji::line::{DrawCall, FontSpec, Line, MeasureSpec, PaintSpec};
use emoji_gen::emoji::typeface::Typeface;
use emoji_gen::emoji::units::SCALE_ONE;
use emoji_gen::emoji::utils::TextAlign;

/// A line in a box of `width` by `height`, fitted at 40 pixels: `bounds` is
/// what it measures at scale 1 and `squeezed` what it measures at any
/// smaller scale.
fn fitted(width: u64, height: u64, align: TextAlign, bounds: Bounds, squeezed: Bounds) -> Line {
    let mut line = Line::new();
    line.set_text("text".to_string());
    line.set_width(width);
    line.set_line_height(height);
    line.set_text_align(align);
    line.set_disable_outline(true);
    assert_eq!(line.measure(Some(400_000)), Some(Probe { size: 400_000, scale: SCALE_ONE }));
    let mut next = line.advance(bounds);
    while next.is_some() {
        next = line.advance(squeezed);
    }
    line
}

/// A line whose text fits its box at scale 1.
fn loose(width: u64, height: u64, align: TextAlign, bounds: Bounds) -> Line {
    let line = fitted(width, height, align, bounds, bounds);
    assert_eq!(line.get_spec().text_scale_x, SCALE_ONE);
    assert_eq!(line.get_spec().bounds, bounds);
    line
}

fn position(line: &Line, y: u64) -> (i64, i64) {
    let calls = line.draw(y);
    (calls[0].x, calls[0].y)
}

const GLYPHS: Bounds = Bounds { left: 20_000, top: -300_000, width: 600_000, height: 310_000 };

#[test]
fn left_alignment_cancels_the_left_bearing() {
    let line = loose(1_000_000, 500_000, TextAlign::Left, GLYPHS);
    assert_eq!(position(&line, 0).0, -20_000);
    let negative = Bounds { left: -7, ..GLYPHS };
    let line = loose(1_000_000, 500_000, TextAlign::Left, negative);
    assert_eq!(position(&line, 0).0, 7);
}

#[test]
fn centre_alignment_halves_the_spare_width() {
    let line = loose(1_000_000, 500_000, TextAlign::Center, GLYPHS);
    // (100 - 60) / 2 - 2 px
    assert_eq!(position(&line, 0).0, 180_000);
}

#[test]
fn right_alignment_takes_all_the_spare_width() {
    let line = loose(1_000_000, 500_000, TextAlign::Right, GLYPHS);
    // 100 - 60 - 2 px
    assert_eq!(position(&line, 0).0, 380_000);
}

#[test]
fn compressed_lines_are_placed_as_if_left_aligned() {
    let wide = Bounds { width: 1_200_000, ..GLYPHS };
    let squeezed = Bounds { width: 999_000, ..GLYPHS };
    for align in [TextAlign::Left, TextAlign::Center, TextAlign::Right] {
        let line = fitted(1_000_000, 500_000, align, wide, squeezed);
        assert_eq!(line.get_spec().text_scale_x, 8_333);
        assert_eq!(line.get_spec().bounds, squeezed);
        assert_eq!(line.get_raw_bounds_width(), 1_200_000);
        assert_eq!(position(&line, 0).0, -20_000);

        let flat = Bounds { width: 0, ..GLYPHS };
        let line = fitted(0, 500_000, align, wide, flat);
        assert_eq!(line.get_spec().text_scale_x, 0);
        assert_eq!(position(&line, 0).0, -20_000);
    }
}

#[test]
fn vertical_position_centres_the_glyphs_in_the_line() {
    let line = loose(1_000_000, 500_000, TextAlign::Center, GLYPHS);
    // y + 30 + (50 - 31) / 2 px
    assert_eq!(position(&line, 0).1, 395_000);
    assert_eq!(position(&line, 500_000).1, 895_000);
    let below = Bounds { top: 12_345, ..GLYPHS };
    let line = loose(1_000_000, 500_000, TextAlign::Center, below);
    assert_eq!(position(&line, 500_000).1, 500_000 - 12_345 + 95_000);
}

#[test]
fn halves_round_down_also_below_zero() {
    // Spare width 3 and -3 units, spare height 1 and -1 units.
    let odd = Bounds { left: 0, top: 0, width: 7, height: 9 };
    let line = loose(10, 10, TextAlign::Center, odd);
    assert_eq!(position(&line, 0), (1, 0));
    // Text that no scale makes narrow enough stays at scale 1, wider than its box.
    let line = loose(4, 8, TextAlign::Center, odd);
    assert_eq!(position(&line, 0), (-2, -1));
    let line = loose(5, 7, TextAlign::Center, odd);
    assert_eq!(position(&line, 100), (-1, 99));
    let line = loose(4, 8, TextAlign::Right, odd);
    assert_eq!(position(&line, 0).0, -3);
}

#[test]
fn extreme_values_do_not_wrap() {
    let huge = Bounds { left: i32::MIN, top: i32::MIN, width: u32::MAX, height: u32::MAX };
    let line = loose(0, 0, TextAlign::Right, huge);
    let (x, y) = position(&line, 0);
    assert_eq!(x, -(u32::MAX as i64) + 2_147_483_648);
    assert_eq!(y, 2_147_483_648 - 2_147_483_648);
    let tiny = Bounds { left: i32::MAX, top: i32::MAX, width: 0, height: 0 };
    let max = 42_949_672_950_000u64;
    let line = loose(max, max, TextAlign::Right, tiny);
    let (x, y) = position(&line, max);
    assert_eq!(x, max as i64 - i32::MAX as i64);
    assert_eq!(y, max as i64 - i32::MAX as i64 + (max / 2) as i64);
}

#[test]
fn outline_is_stroked_first_and_filled_second_at_one_position() {
    let mut line = loose(1_000_000, 500_000, TextAlign::Center, GLYPHS);
    line.set_disable_outline(false);
    line.set_outline_width(80_000);
    line.set_outline_color(Color::white());
    line.set_color(Color { a: 255, r: 1, g: 2, b: 3 });
    line.set_typeface(Typeface::Name("Serif".to_string()));
    let font = FontSpec {
        typeface: Typeface::Name("Serif".to_string()),
        size: 400_000,
        scale_x: SCALE_ONE,
    };
    let stroke = PaintSpec { anti_alias: true, color: Color::white(), stroke: Some(80_000) };
    let fill = PaintSpec {
        anti_alias: true,
        color: Color { a: 255, r: 1, g: 2, b: 3 },
        stroke: None,
    };
    assert_eq!(
        line.draw(500_000),
        vec![
            DrawCall {
                text: "text".to_string(),
                x: 180_000,
                y: 895_000,
                font: font.clone(),
                paint: stroke,
                align: TextAlign::Center
            },
            DrawCall {
                text: "text".to_string(),
                x: 180_000,
                y: 895_000,
                font,
                paint: fill,
                align: TextAlign::Center
            },
        ]
    );
}

#[test]
fn disabled_outline_leaves_the_fill_alone() {
    let wide = Bounds { width: 1_250_000, ..GLYPHS };
    let line = fitted(1_000_000, 500_000, TextAlign::Left, wide, GLYPHS);
    let calls = line.draw(0);
    assert_eq!(calls.len(), 1);
    assert_eq!(calls[0].paint, PaintSpec { anti_alias: true, color: Color::black(), stroke: None });
    assert_eq!(
        calls[0].font,
        FontSpec { typeface: Typeface::Default, size: 400_000, scale_x: 8_000 }
    );
    assert_eq!(calls[0].align, TextAlign::Left);
}

#[test]
fn paints_and_fonts_follow_the_line() {
    let mut line = Line::new();
    line.set_color(Color { a: 9, r: 8, g: 7, b: 6 });
    line.set_outline_color(Color { a: 1, r: 2, g: 3, b: 4 });
    line.set_outline_width(25_000);
    line.set_typeface(Typeface::File("a.ttf".to_string()));
    assert_eq!(
        line.prepare_paint_for_measure(),
        PaintSpec { anti_alias: true, color: Color::black(), stroke: None }
    );
    assert_eq!(
        line.prepare_paint_for_draw(),
        PaintSpec { anti_alias: true, color: Color { a: 9, r: 8, g: 7, b: 6 }, stroke: None }
    );
    assert_eq!(
        line.prepare_paint_for_outline(),
        PaintSpec {
            anti_alias: true,
            color: Color { a: 1, r: 2, g: 3, b: 4 },
            stroke: Some(25_000)
        }
    );
    assert_eq!(
        line.prepare_font_for_measure(Probe { size: 77, scale: 55 }),
        FontSpec { typeface: Typeface::File("a.ttf".to_string()), size: 77, scale_x: 55 }
    );
    assert_eq!(
        line.prepare_font_for_draw(),
        FontSpec {
            typeface: Typeface::File("a.ttf".to_string()),
            size: 1_280_000,
            scale_x: SCALE_ONE
        }
    );
}

#[test]
fn new_line_has_the_defaults() {
    let line = Line::new();
    assert_eq!(line.get_text(), "");
    assert_eq!((line.get_width(), line.get_line_height()), (1_280_000, 1_280_000));
    assert_eq!(*line.get_typeface(), Typeface::Default);
    assert_eq!(
        line.prepare_paint_for_draw(),
        PaintSpec { anti_alias: true, color: Color::black(), stroke: None }
    );
    assert_eq!(
        line.prepare_paint_for_outline(),
        PaintSpec { anti_alias: true, color: Color::white(), stroke: Some(80_000) }
    );
    assert!(!line.get_fit().disable_stretch);
    assert_eq!(line.get_spec(), MeasureSpec::new());
    assert_eq!(line.pending(), None);
    assert_eq!(line.get_text_size(), 1_280_000);
    assert_eq!(line.get_raw_bounds_width(), 1_280_000);
    // Outlined and centred: two passes, (128 - 128) / 2 px across.
    let calls = line.draw(0);
    assert_eq!(calls.len(), 2);
    assert_eq!((calls[1].x, calls[1].y, calls[1].align), (0, 0, TextAlign::Center));
}
