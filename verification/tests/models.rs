use swatch::{Cmyk, Colors, Hsl, Hsv, Ratio, Rgb};

fn value(ratio: Ratio) -> f64 {
    assert!(ratio.den > 0);
    ratio.num as f64 / ratio.den as f64
}

fn near(a: f64, b: f64) -> bool {
    (a - b).abs() < 1e-9
}

#[test]
fn cmyk_of_primary_red() {
    let cmyk = Rgb { r: 255, g: 0, b: 0 }.cmyk();
    assert_eq!(cmyk.c, Ratio { num: 0, den: 255 });
    assert_eq!(cmyk.m, Ratio { num: 255, den: 255 });
    assert_eq!(cmyk.y, Ratio { num: 255, den: 255 });
    assert_eq!(cmyk.k, Ratio { num: 0, den: 255 });
}

#[test]
fn cmyk_of_a_mixed_colour() {
    let cmyk = Rgb { r: 200, g: 100, b: 50 }.cmyk();
    assert_eq!(
        cmyk,
        Cmyk {
            c: Ratio { num: 0, den: 200 },
            m: Ratio { num: 100, den: 200 },
            y: Ratio { num: 150, den: 200 },
            k: Ratio { num: 55, den: 255 },
        }
    );
    assert!(near(value(cmyk.m), 0.5));
    assert!(near(value(cmyk.y), 0.75));
    assert!(near(value(cmyk.k), 1.0 - 200.0 / 255.0));
}

#[test]
fn hsv_of_a_mixed_colour() {
    let hsv = Rgb { r: 200, g: 100, b: 50 }.hsv();
    assert_eq!(
        hsv,
        Hsv {
            h: Ratio { num: 3000, den: 150 },
            s: Ratio { num: 150, den: 200 },
            v: Ratio { num: 200, den: 255 },
        }
    );
    assert!(near(value(hsv.h), 20.0));
}

#[test]
fn hsl_of_a_mixed_colour() {
    let hsl = Rgb { r: 200, g: 100, b: 50 }.hsl();
    assert_eq!(
        hsl,
        Hsl {
            h: Ratio { num: 3000, den: 150 },
            s: Ratio { num: 150, den: 250 },
            l: Ratio { num: 250, den: 510 },
        }
    );
    let light = Rgb { r: 250, g: 200, b: 150 }.hsl();
    assert_eq!(light.s, Ratio { num: 100, den: 110 });
    assert_eq!(light.l, Ratio { num: 400, den: 510 });
}

#[test]
fn hue_of_the_six_corners() {
    let corners = [
        ((255, 0, 0), 0.0),
        ((255, 255, 0), 60.0),
        ((0, 255, 0), 120.0),
        ((0, 255, 255), 180.0),
        ((0, 0, 255), 240.0),
        ((255, 0, 255), 300.0),
    ];
    for ((r, g, b), degrees) in corners {
        let rgb = Rgb { r, g, b };
        assert!(near(value(rgb.hue()), degrees), "{:?}", rgb);
        assert!(near(value(rgb.hsv().h), degrees));
        assert!(near(value(rgb.hsl().h), degrees));
    }
}

#[test]
fn hue_wraps_into_the_positive_range() {
    let rgb = Rgb { r: 255, g: 0, b: 1 };
    let hue = rgb.hue();
    assert_eq!(hue, Ratio { num: 360 * 255 - 60, den: 255 });
    assert!(value(hue) < 360.0 && value(hue) > 359.0);
}

#[test]
fn max_and_min_channel() {
    let rgb = Rgb { r: 3, g: 250, b: 17 };
    assert_eq!(rgb.max(), 250);
    assert_eq!(rgb.min(), 3);
    let gray = Rgb { r: 9, g: 9, b: 9 };
    assert_eq!(gray.max(), 9);
    assert_eq!(gray.min(), 9);
}

#[test]
fn gray_has_no_ink_but_black_and_no_saturation() {
    for v in 0..=255u8 {
        let rgb = Rgb { r: v, g: v, b: v };
        let cmyk = rgb.cmyk();
        assert_eq!(cmyk.c.num, 0);
        assert_eq!(cmyk.m.num, 0);
        assert_eq!(cmyk.y.num, 0);
        assert_eq!(cmyk.k, Ratio { num: 255 - v as u32, den: 255 });
        assert!(near(value(cmyk.k), 1.0 - v as f64 / 255.0));
        assert_eq!(rgb.hsv().s.num, 0);
        assert_eq!(rgb.hsl().s.num, 0);
        assert_eq!(rgb.hsv().h.num, 0);
        assert!(rgb.hsv().s.den > 0 && rgb.hsl().s.den > 0);
    }
}

#[test]
fn white_in_every_model() {
    let white = Rgb { r: 255, g: 255, b: 255 };
    let cmyk = white.cmyk();
    assert_eq!(value(cmyk.c), 0.0);
    assert_eq!(value(cmyk.m), 0.0);
    assert_eq!(value(cmyk.y), 0.0);
    assert_eq!(value(cmyk.k), 0.0);
    let hsv = white.hsv();
    assert_eq!(value(hsv.h), 0.0);
    assert_eq!(value(hsv.s), 0.0);
    assert_eq!(value(hsv.v), 1.0);
    let hsl = white.hsl();
    assert_eq!(value(hsl.s), 0.0);
    assert_eq!(value(hsl.l), 1.0);
}

#[test]
fn black_in_every_model() {
    let black = Rgb { r: 0, g: 0, b: 0 };
    let cmyk = black.cmyk();
    assert_eq!(value(cmyk.c), 0.0);
    assert_eq!(value(cmyk.m), 0.0);
    assert_eq!(value(cmyk.y), 0.0);
    assert_eq!(value(cmyk.k), 1.0);
    let hsv = black.hsv();
    assert_eq!((value(hsv.h), value(hsv.s), value(hsv.v)), (0.0, 0.0, 0.0));
    let hsl = black.hsl();
    assert_eq!((value(hsl.h), value(hsl.s), value(hsl.l)), (0.0, 0.0, 0.0));
}

#[test]
fn report_holds_every_model_of_the_same_colour() {
    let rgb = Rgb { r: 12, g: 34, b: 56 };
    let report = Colors::new(&rgb);
    assert_eq!(report.rgb, rgb);
    assert_eq!(report.cmyk, rgb.cmyk());
    assert_eq!(report.hsv, rgb.hsv());
    assert_eq!(report.hsl, rgb.hsl());
    assert_eq!(report, Colors::new(&rgb));
}

#[test]
fn components_stay_in_range_over_a_grid() {
    for r in (0..=255u16).step_by(5) {
        for g in (0..=255u16).step_by(5) {
            for b in (0..=255u16).step_by(5) {
                let rgb = Rgb { r: r as u8, g: g as u8, b: b as u8 };
                let report = Colors::new(&rgb);
                let shares = [
                    report.cmyk.c, report.cmyk.m, report.cmyk.y, report.cmyk.k, report.hsv.s,
                    report.hsv.v, report.hsl.s, report.hsl.l,
                ];
                for share in shares {
                    assert!(share.den > 0 && share.num <= share.den, "{:?}", rgb);
                }
                for hue in [report.hsv.h, report.hsl.h] {
                    assert!(hue.den > 0 && hue.num < 360 * hue.den, "{:?}", rgb);
                }
            }
        }
    }
}

#[test]
fn fractions_match_the_floating_point_formulas() {
    for r in (0..=255u16).step_by(15) {
        for g in (0..=255u16).step_by(15) {
            for b in (0..=255u16).step_by(15) {
                let rgb = Rgb { r: r as u8, g: g as u8, b: b as u8 };
                let reference = color_processing::Color::new_rgb(rgb.r, rgb.g, rgb.b);
                let (c, m, y, k) = reference.get_cmyk();
                let cmyk = rgb.cmyk();
                assert!(near(value(cmyk.c), c), "{:?}", rgb);
                assert!(near(value(cmyk.m), m), "{:?}", rgb);
                assert!(near(value(cmyk.y), y), "{:?}", rgb);
                assert!(near(value(cmyk.k), k), "{:?}", rgb);
                let (h, s, v, _) = reference.get_hsva();
                let hsv = rgb.hsv();
                assert!(near(value(hsv.h), h), "{:?}", rgb);
                assert!(near(value(hsv.s), s), "{:?}", rgb);
                assert!(near(value(hsv.v), v), "{:?}", rgb);
                let (h, s, l, _) = reference.get_hsla();
                let hsl = rgb.hsl();
                assert!(near(value(hsl.h), h), "{:?}", rgb);
                assert!(near(value(hsl.s), s), "{:?}", rgb);
                assert!(near(value(hsl.l), l), "{:?}", rgb);
            }
        }
    }
}
