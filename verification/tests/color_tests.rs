//! Exact rational color arithmetic: equality across denominators, the
//! interpolation endpoints and midpoint, and extrapolation outside the
//! nominal range.

use stat_bars::{Rgba, VALUE_SCALE};

const RED: Rgba = Rgba { red: 255, green: 0, blue: 0, alpha: 255, den: 255 };
const GREEN: Rgba = Rgba { red: 0, green: 128, blue: 0, alpha: 255, den: 255 };

#[test]
fn color_equality_is_rational() {
    let half = Rgba { red: 1, green: 0, blue: 0, alpha: 2, den: 2 };
    let also_half = Rgba { red: 500, green: 0, blue: 0, alpha: 1000, den: 1000 };
    assert!(half.eq_color(&also_half));
    let third = Rgba { red: 1, green: 0, blue: 0, alpha: 3, den: 3 };
    assert!(!half.eq_color(&third));
}

#[test]
fn mix_hits_endpoints_exactly() {
    let at_zero = RED.mix(&GREEN, 0);
    assert!(at_zero.eq_color(&RED));
    let at_full = RED.mix(&GREEN, VALUE_SCALE);
    assert!(at_full.eq_color(&GREEN));
}

#[test]
fn mix_hits_exact_midpoint() {
    let at_half = RED.mix(&GREEN, VALUE_SCALE / 2);
    let midpoint = Rgba {
        red: 255 * 255,
        green: 128 * 255,
        blue: 0,
        alpha: 2 * 255 * 255,
        den: 2 * 255 * 255,
    };
    assert!(at_half.eq_color(&midpoint));
    // the numerators themselves are the exact products, no rounding
    assert_eq!(at_half.red, 255 * 255 * 500);
    assert_eq!(at_half.green, 128 * 255 * 500);
    assert_eq!(at_half.den, 255 * 255 * 1000);
}

#[test]
fn mix_extrapolates_outside_nominal_range() {
    let black = Rgba { red: 0, green: 0, blue: 0, alpha: 1000, den: 1000 };
    let bright = Rgba { red: 1000, green: 0, blue: 0, alpha: 1000, den: 1000 };
    let beyond = black.mix(&bright, 1500);
    // channel value 1.5: past the max endpoint
    assert!(beyond.eq_color(&Rgba { red: 3, green: 0, blue: 0, alpha: 2, den: 2 }));
    let below = black.mix(&bright, -500);
    assert!(below.eq_color(&Rgba { red: -1, green: 0, blue: 0, alpha: 2, den: 2 }));
}

#[test]
fn mix_is_componentwise() {
    let a = Rgba { red: 10, green: 20, blue: 30, alpha: 40, den: 100 };
    let b = Rgba { red: 50, green: 60, blue: 70, alpha: 80, den: 100 };
    let quarter = a.mix(&b, 250);
    // each channel: a * bd * 750 + b * ad * 250 over 100 * 100 * 1000
    assert_eq!(quarter.red, 10 * 100 * 750 + 50 * 100 * 250);
    assert_eq!(quarter.green, 20 * 100 * 750 + 60 * 100 * 250);
    assert_eq!(quarter.blue, 30 * 100 * 750 + 70 * 100 * 250);
    assert_eq!(quarter.alpha, 40 * 100 * 750 + 80 * 100 * 250);
    assert_eq!(quarter.den, 100 * 100 * 1000);
}
