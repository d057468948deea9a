use emoji_gen::emoji::fit::{Bounds, Fit, Fitter, Phase, Probe};
use emoji_gen::emoji::line::{Line, MeasureSpec};
use emoji_gen::emoji::units::{
    pixels_from_units, units_from_pixels, LENGTH_MAX, SCALE_ONE, SIZE_STEP, UNIT,
};

/// Glyphs 0.6 of the size wide each, 0.7 of the size tall, scaled horizontally.
fn plain(count: u64, probe: Probe) -> Bounds {
    Bounds {
        left: (probe.size / 20) as i32,
        top: -((probe.size * 7 / 10) as i32),
        width: (count * probe.size * 6 * probe.scale as u64 / 100_000) as u32,
        height: (probe.size * 7 / 10) as u32,
    }
}

fn run(fitter: &mut Fitter, metrics: impl Fn(Probe) -> Bounds) -> Vec<Probe> {
    let mut asked = Vec::new();
    let mut next = fitter.pending();
    while let Some(probe) = next {
        asked.push(probe);
        next = fitter.advance(metrics(probe));
    }
    asked
}

#[test]
fn units_convert_both_ways() {
    assert_eq!(UNIT, 10_000);
    assert_eq!(SCALE_ONE, 10_000);
    assert_eq!(SIZE_STEP, 5_000);
    assert_eq!(units_from_pixels(0), 0);
    assert_eq!(units_from_pixels(128), 1_280_000);
    assert_eq!(units_from_pixels(u32::MAX), LENGTH_MAX);
    assert_eq!(pixels_from_units(1_289_999), 128);
    assert_eq!(pixels_from_units(9_999), 0);
}

#[test]
fn empty_text_needs_no_measurement() {
    let mut fitter = Fitter::adjusted(1_000_000, 1_000_000, false, false);
    assert_eq!(fitter.pending(), None);
    assert_eq!(fitter.state().phase, Phase::Done);
    assert_eq!(fitter.spec().text_size, 0);
    assert_eq!(fitter.spec().text_scale_x, SCALE_ONE);
    assert_eq!(fitter.spec().bounds, Bounds::new_empty());
    assert_eq!(fitter.advance(plain(1, Probe { size: 1, scale: 1 })), None);
    assert_eq!(fitter.spec().text_size, 0);
}

#[test]
fn growth_starts_at_nine_tenths_and_steps_by_half_a_pixel() {
    let mut fitter = Fitter::adjusted(1_000_000, 1_000_000, false, true);
    let asked = run(&mut fitter, |probe| plain(1, probe));
    assert_eq!(asked[0], Probe { size: 900_000, scale: SCALE_ONE });
    assert_eq!(asked[1], Probe { size: 905_000, scale: SCALE_ONE });
    assert_eq!(asked.len(), 107);
    assert_eq!(asked[106], Probe { size: 1_430_000, scale: SCALE_ONE });
    assert_eq!(fitter.spec().text_size, 1_425_000);
    assert_eq!(fitter.spec().text_scale_x, SCALE_ONE);
    assert_eq!(
        fitter.spec().bounds,
        Bounds { left: 71_250, top: -997_500, width: 855_000, height: 997_500 }
    );
    assert_eq!(fitter.spec().raw_width, 855_000);
    assert_eq!(fitter.state().phase, Phase::Done);
}

#[test]
fn growth_stops_at_ten_times_the_height() {
    let mut fitter = Fitter::adjusted(100_000, 100_000, false, true);
    let flat = |_probe: Probe| Bounds { left: 0, top: 0, width: 10, height: 10 };
    let asked = run(&mut fitter, flat);
    assert_eq!(asked.first().unwrap().size, 90_000);
    assert_eq!(asked.last().unwrap().size, 1_000_000);
    assert_eq!(asked.len(), 183);
    assert_eq!(fitter.spec().text_size, 1_000_000);
}

#[test]
fn first_probe_too_tall_leaves_the_empty_fit() {
    let mut fitter = Fitter::adjusted(100_000, 100_000, false, true);
    let tall = |_probe: Probe| Bounds { left: 3, top: 4, width: 5, height: 100_001 };
    let asked = run(&mut fitter, tall);
    assert_eq!(asked, vec![Probe { size: 90_000, scale: SCALE_ONE }]);
    assert_eq!(fitter.spec().text_size, 0);
    assert_eq!(fitter.spec().bounds, Bounds::new_empty());
    assert_eq!(fitter.spec().text_scale_x, SCALE_ONE);
}

#[test]
fn wide_text_is_compressed_when_stretch_is_allowed() {
    // Four glyphs: 2.4 times the size wide.
    let mut fitter = Fitter::adjusted(1_280_000, 500_000, false, true);
    let asked = run(&mut fitter, |probe| plain(4, probe));
    // Height allows 0.7 * size <= 50 px: 71.0 px is the last half-pixel step.
    assert_eq!(fitter.spec().text_size, 710_000);
    assert_eq!(fitter.spec().raw_width, 1_704_000);
    // 1_280_000 / 1_704_000 = 0.75117...
    assert_eq!(fitter.spec().text_scale_x, 7_511);
    assert_eq!(fitter.spec().bounds.width, 1_279_874);
    assert_eq!(*asked.last().unwrap(), Probe { size: 710_000, scale: 7_511 });
}

#[test]
fn compression_steps_down_by_a_ten_thousandth() {
    // Width does not shrink in proportion: it keeps 1000 units however small the scale.
    let sticky = |probe: Probe| Bounds {
        left: 0,
        top: 0,
        width: (200_000u64 * probe.scale as u64 / 10_000 + 1_000) as u32,
        height: 10,
    };
    let mut fitter = Fitter::fixed(100_000, 100_000, false, 50_000);
    let asked = run(&mut fitter, sticky);
    assert_eq!(asked[0], Probe { size: 50_000, scale: SCALE_ONE });
    // raw width 201_000: start at floor(100_000 * 10_000 / 201_000) = 4975.
    assert_eq!(asked[1], Probe { size: 50_000, scale: 4_975 });
    assert_eq!(asked[2], Probe { size: 50_000, scale: 4_974 });
    // 20 * scale + 1000 <= 100_000 first holds at scale 4950.
    assert_eq!(*asked.last().unwrap(), Probe { size: 50_000, scale: 4_950 });
    assert_eq!(asked.len(), 27);
    assert_eq!(fitter.spec().text_scale_x, 4_950);
    assert_eq!(fitter.spec().bounds.width, 100_000);
    assert_eq!(fitter.spec().raw_width, 201_000);
    assert_eq!(fitter.spec().text_size, 50_000);
}

#[test]
fn compression_that_never_fits_ends_at_scale_zero_uncompressed() {
    let stubborn = |_probe: Probe| Bounds { left: 0, top: 0, width: 30_000, height: 10 };
    let mut fitter = Fitter::fixed(10_000, 10_000, false, 7_000);
    let asked = run(&mut fitter, stubborn);
    // One measurement at scale 1, then 3333 down to 0.
    assert_eq!(asked.len(), 1 + 3_334);
    assert_eq!(asked[1].scale, 3_333);
    assert_eq!(asked.last().unwrap().scale, 0);
    assert_eq!(fitter.state().phase, Phase::Done);
    assert_eq!(fitter.spec().text_scale_x, SCALE_ONE);
    assert_eq!(fitter.spec().bounds.width, 30_000);
}

#[test]
fn zero_width_box_compresses_from_scale_zero() {
    let shrinking = |probe: Probe| Bounds {
        left: 0,
        top: 0,
        width: 50 * probe.scale,
        height: 10,
    };
    let mut fitter = Fitter::fixed(0, 10_000, false, 7_000);
    let asked = run(&mut fitter, shrinking);
    assert_eq!(
        asked,
        vec![Probe { size: 7_000, scale: SCALE_ONE }, Probe { size: 7_000, scale: 0 }]
    );
    assert_eq!(fitter.spec().text_scale_x, 0);
    assert_eq!(fitter.spec().bounds.width, 0);
}

#[test]
fn disabled_stretch_walks_down_before_growing() {
    // Eleven glyphs in 100 x 100 px: 6.6 times the size wide.
    let mut fitter = Fitter::adjusted(1_000_000, 1_000_000, true, true);
    let asked = run(&mut fitter, |probe| plain(11, probe));
    // 6.6 * size <= 100 px first holds, walking down from 90 px, at all sizes <= 15.15 px.
    assert_eq!(asked[0], Probe { size: 900_000, scale: SCALE_ONE });
    assert_eq!(asked[1], Probe { size: 895_000, scale: SCALE_ONE });
    let turn = asked.iter().position(|probe| probe.size == 150_000).unwrap();
    assert_eq!(turn, 150);
    // The size found is measured again as growth begins, then 15.5 px is too wide.
    assert_eq!(asked[turn + 1], Probe { size: 150_000, scale: SCALE_ONE });
    assert_eq!(asked[turn + 2], Probe { size: 155_000, scale: SCALE_ONE });
    assert_eq!(asked.len(), turn + 3);
    assert_eq!(fitter.spec().text_size, 150_000);
    assert_eq!(fitter.spec().bounds.width, 990_000);
    assert_eq!(fitter.spec().text_scale_x, SCALE_ONE);
    assert!(fitter.spec().bounds.width as u64 <= fitter.state().width);
    assert!(fitter.spec().bounds.height as u64 <= fitter.state().height);
}

#[test]
fn disabled_stretch_stops_walking_down_at_exactly_the_width() {
    // Width is size itself: walking down from 90 stops where width <= 80 holds, at 80.
    let square = |probe: Probe| Bounds {
        left: 0,
        top: 0,
        width: probe.size as u32,
        height: 1,
    };
    let mut fitter = Fitter::adjusted(800_000, 1_000_000, true, true);
    let asked = run(&mut fitter, square);
    assert_eq!(asked[20], Probe { size: 800_000, scale: SCALE_ONE });
    assert_eq!(asked[21], Probe { size: 800_000, scale: SCALE_ONE });
    assert_eq!(asked[22], Probe { size: 805_000, scale: SCALE_ONE });
    assert_eq!(asked.len(), 23);
    assert_eq!(fitter.spec().text_size, 800_000);
}

#[test]
fn disabled_stretch_with_text_never_narrow_enough_ends_empty() {
    let mut fitter = Fitter::adjusted(10_000, 10_000, true, true);
    let asked = run(&mut fitter, |probe| plain(11, probe));
    // 9000 and 4000 are too wide and 4000 is under one step: growth starts at
    // 9000 again and fails at once.
    assert_eq!(
        asked,
        vec![
            Probe { size: 9_000, scale: SCALE_ONE },
            Probe { size: 4_000, scale: SCALE_ONE },
            Probe { size: 9_000, scale: SCALE_ONE },
        ]
    );
    assert_eq!(fitter.spec().text_size, 0);
    assert_eq!(fitter.spec().bounds, Bounds::new_empty());
    assert_eq!(fitter.spec().text_scale_x, SCALE_ONE);
    assert_eq!(fitter.state().phase, Phase::Done);
}

#[test]
fn disabled_stretch_in_a_one_pixel_box_terminates() {
    let mut fitter = Fitter::adjusted(10_000, 10_000, true, true);
    let asked = run(&mut fitter, |probe| plain(1, probe));
    assert_eq!(asked.len(), 4);
    assert_eq!(fitter.spec().text_size, 14_000);
    assert_eq!(fitter.spec().bounds.width, 8_400);
    assert_eq!(fitter.spec().bounds.height, 9_800);
}

#[test]
fn fixed_size_measures_once_when_the_text_fits() {
    let mut fitter = Fitter::fixed(1_280_000, 500_000, false, 625_000);
    let asked = run(&mut fitter, |probe| plain(1, probe));
    assert_eq!(asked, vec![Probe { size: 625_000, scale: SCALE_ONE }]);
    assert_eq!(fitter.spec().text_size, 625_000);
    assert_eq!(fitter.spec().bounds.width, 375_000);
    assert_eq!(fitter.spec().bounds.height, 437_500);
    assert_eq!(fitter.spec().text_scale_x, SCALE_ONE);
}

#[test]
fn fixed_size_measures_even_empty_text() {
    let mut line = Line::new();
    line.set_text(String::new());
    assert_eq!(line.measure(Some(70_000)), Some(Probe { size: 70_000, scale: SCALE_ONE }));
    assert_eq!(line.advance(Bounds::new_empty()), None);
    assert_eq!(line.get_text_size(), 70_000);
}

#[test]
fn a_finished_search_ignores_further_measurements() {
    let mut fitter = Fitter::fixed(1_280_000, 500_000, false, 625_000);
    run(&mut fitter, |probe| plain(1, probe));
    let before = fitter.state();
    assert_eq!(fitter.advance(Bounds { left: 1, top: 2, width: 3, height: 4 }), None);
    assert_eq!(fitter.state(), before);
}

#[test]
fn measure_spec_default_fills_the_default_box() {
    let spec = MeasureSpec::new();
    assert_eq!(spec.text_size, 1_280_000);
    assert_eq!(spec.text_scale_x, SCALE_ONE);
    assert_eq!(spec.bounds, Bounds { left: 0, top: 0, width: 1_280_000, height: 1_280_000 });
    assert_eq!(spec.raw_width, 1_280_000);
}

#[test]
fn line_measure_picks_the_mode() {
    let mut line = Line::new();
    line.set_text("A".to_string());
    line.set_width(1_000_000);
    line.set_line_height(1_000_000);
    assert_eq!(line.measure(None), Some(Probe { size: 900_000, scale: SCALE_ONE }));
    assert_eq!(line.get_fit().phase, Phase::Grow { size: 900_000 });
    assert_eq!(line.pending(), Some(Probe { size: 900_000, scale: SCALE_ONE }));

    line.set_disable_stretch(true);
    assert_eq!(line.measure_adjusted(), Some(Probe { size: 900_000, scale: SCALE_ONE }));
    assert_eq!(line.get_fit().phase, Phase::Shrink { size: 900_000 });

    assert_eq!(line.measure_size_fixed(123), Some(Probe { size: 123, scale: SCALE_ONE }));
    assert_eq!(line.get_fit().phase, Phase::Fixed { size: 123 });
    assert_eq!(line.measure(Some(456)), Some(Probe { size: 456, scale: SCALE_ONE }));

    line.set_text(String::new());
    assert_eq!(line.measure(None), None);
    assert_eq!(line.get_text_size(), 0);
    assert_eq!(line.get_raw_bounds_width(), 0);
}

#[test]
fn line_advance_follows_the_search() {
    let mut line = Line::new();
    line.set_text("AAAA".to_string());
    line.set_width(1_280_000);
    line.set_line_height(500_000);
    let mut next = line.measure(None);
    let mut count = 0;
    while let Some(probe) = next {
        next = line.advance(plain(4, probe));
        count += 1;
    }
    assert_eq!(count, 54 + 1);
    assert_eq!(line.get_text_size(), 710_000);
    assert_eq!(line.get_raw_bounds_width(), 1_704_000);
    assert_eq!(line.get_spec().text_scale_x, 7_511);
    assert_eq!(line.pending(), None);
}

/// The same search written as plain loops over a metrics function.
fn fit_by_loops(
    width: u64,
    height: u64,
    disable_stretch: bool,
    has_text: bool,
    fixed: Option<u64>,
    metrics: &dyn Fn(Probe) -> Bounds,
) -> MeasureSpec {
    let mut size = 0;
    let mut bounds = Bounds::new_empty();
    match fixed {
        Some(given) => {
            size = given;
            bounds = metrics(Probe { size, scale: SCALE_ONE });
        },
        None if has_text => {
            let mut start = height * 9 / 10;
            if disable_stretch {
                let mut candidate = start as i64;
                while candidate >= 0 {
                    let probe = Probe { size: candidate as u64, scale: SCALE_ONE };
                    if metrics(probe).width as u64 <= width {
                        start = candidate as u64;
                        break;
                    }
                    candidate -= 5_000;
                }
            }
            let mut candidate = start;
            while candidate <= height * 10 {
                let measured = metrics(Probe { size: candidate, scale: SCALE_ONE });
                if measured.height as u64 > height {
                    break;
                }
                if disable_stretch && measured.width as u64 > width {
                    break;
                }
                size = candidate;
                bounds = measured;
                candidate += 5_000;
            }
        },
        None => {},
    }
    let raw_width = bounds.width;
    let mut scale = SCALE_ONE;
    if raw_width as u64 > width {
        let mut candidate = (width * 10_000 / raw_width as u64) as i64;
        while candidate >= 0 {
            let measured = metrics(Probe { size, scale: candidate as u32 });
            if measured.width as u64 <= width {
                bounds = measured;
                scale = candidate as u32;
                break;
            }
            candidate -= 1;
        }
    }
    MeasureSpec { text_size: size, text_scale_x: scale, bounds, raw_width }
}

/// Metrics that are not proportional: a fixed bearing, widths that jump at
/// some sizes, heights in steps.
fn rugged(count: u64, probe: Probe) -> Bounds {
    let bump = if (probe.size / 5_000) % 7 == 3 { 40_000 } else { 0 };
    let natural = count * probe.size * 55 / 100 + bump;
    Bounds {
        left: -1_234,
        top: 77 - (probe.size / 2) as i32,
        width: (natural * probe.scale as u64 / 10_000 + 900) as u32,
        height: (probe.size / 10_000 * 8_000 + 1_000) as u32,
    }
}

#[test]
fn the_search_agrees_with_plain_loops() {
    let widths = [0u64, 10_000, 55_000, 300_000, 1_280_000, 5_000_000];
    let heights = [0u64, 1, 10_000, 33_333, 200_000, 640_000];
    let mut compared = 0;
    for &width in widths.iter() {
        for &height in heights.iter() {
            for count in [1u64, 3, 12] {
                for disable_stretch in [false, true] {
                    for family in 0..2 {
                        let metrics = move |probe: Probe| {
                            if family == 0 {
                                plain(count, probe)
                            } else {
                                rugged(count, probe)
                            }
                        };
                        let mut fitter = Fitter::adjusted(width, height, disable_stretch, true);
                        run(&mut fitter, metrics);
                        let expected =
                            fit_by_loops(width, height, disable_stretch, true, None, &metrics);
                        assert_eq!(fitter.spec(), expected);
                        if disable_stretch {
                            assert!(fitter.spec().bounds.width as u64 <= width);
                            assert!(fitter.spec().bounds.height as u64 <= height);
                            assert_eq!(fitter.spec().text_scale_x, SCALE_ONE);
                        }
                        if fitter.spec().text_scale_x < SCALE_ONE {
                            assert!(fitter.spec().bounds.width as u64 <= width);
                        }

                        for given in [0u64, 7_000, 123_456] {
                            let mut fitter = Fitter::fixed(width, height, disable_stretch, given);
                            run(&mut fitter, metrics);
                                let expected = fit_by_loops(
                                width,
                                height,
                                disable_stretch,
                                true,
                                Some(given),
                                &metrics,
                            );
                            assert_eq!(fitter.spec(), expected);
                            assert_eq!(fitter.spec().text_size, given);
                        }
                        compared += 1;
                    }
                }
            }
        }
    }
    assert_eq!(compared, 6 * 6 * 3 * 2 * 2);
}

#[test]
fn a_search_starts_in_the_state_of_its_mode() {
    let empty_fit = MeasureSpec {
        text_size: 0,
        text_scale_x: SCALE_ONE,
        bounds: Bounds::new_empty(),
        raw_width: 0,
    };
    assert_eq!(
        Fitter::adjusted(1_000_000, 500_000, true, true).state(),
        Fit {
            width: 1_000_000,
            height: 500_000,
            disable_stretch: true,
            adaptive: true,
            phase: Phase::Shrink { size: 450_000 },
            spec: empty_fit,
        }
    );
    assert_eq!(
        Fitter::adjusted(LENGTH_MAX, LENGTH_MAX, false, true).state().phase,
        Phase::Grow { size: 38_654_705_655_000 }
    );
    assert_eq!(
        Fitter::fixed(7, 9, false, 1234).state(),
        Fit {
            width: 7,
            height: 9,
            disable_stretch: false,
            adaptive: false,
            phase: Phase::Fixed { size: 1234 },
            spec: MeasureSpec { text_size: 1234, ..empty_fit },
        }
    );
    assert_eq!(
        Fitter::new().state(),
        Fit {
            width: 1_280_000,
            height: 1_280_000,
            disable_stretch: false,
            adaptive: true,
            phase: Phase::Done,
            spec: MeasureSpec::new(),
        }
    );
    assert_eq!(Fitter::new().pending(), None);
    assert_eq!(Line::new().get_fit(), Fitter::new().state());
}
