use cosmic_reader::coord::{Coord, Point};
use cosmic_reader::screen::drag_target;

fn c(value: f32) -> Coord {
    Coord { bits: value.to_bits() }
}

#[test]
fn comparison_is_that_of_single_precision_numbers() {
    let values = [
        0.0,
        -0.0,
        1.0,
        -1.0,
        0.5,
        1.5,
        128.0,
        -128.25,
        f32::MIN_POSITIVE,
        f32::from_bits(1),
        -f32::from_bits(1),
        f32::from_bits(0x007f_ffff),
        f32::MAX,
        f32::MIN,
        f32::INFINITY,
        f32::NEG_INFINITY,
        f32::NAN,
        -f32::NAN,
    ];
    for a in values {
        for b in values {
            assert_eq!(c(a).less_than(c(b)), a < b, "{} {}", a, b);
        }
    }
}

#[test]
fn raising_to_zero_is_the_maximum_with_zero() {
    for value in [0.0f32, 1.0, -1.0, 3.25, -0.001, f32::MAX, f32::MIN, f32::INFINITY] {
        let raised = f32::from_bits(c(value).at_least_zero().bits);
        assert_eq!(raised, value.max(0.0));
    }
    assert_eq!(f32::from_bits(c(f32::NAN).at_least_zero().bits), f32::NAN.max(0.0));
}

#[test]
fn a_drag_never_leads_before_the_start() {
    let target = drag_target(Point { x: c(-3.0), y: c(7.5) });
    assert_eq!(target, Point { x: c(0.0), y: c(7.5) });
}

#[test]
fn the_origin_is_zero() {
    assert_eq!(Point::origin(), Point { x: c(0.0), y: c(0.0) });
}
