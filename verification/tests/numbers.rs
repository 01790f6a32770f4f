use lite_notes::binary64::Binary64;
use lite_notes::dock::{
    DEFAULT_HEIGHT, DEFAULT_WIDTH, LEAST_HEIGHT, LEAST_WIDTH, RESTORE_PLACE, STRIP_HEIGHT,
    STRIP_WIDTH,
};
use lite_notes::settings::{
    OPACITY_DEFAULT, OPACITY_HIGH, OPACITY_LOW, ZOOM_DEFAULT, ZOOM_HIGH, ZOOM_LOW,
};

fn b(x: f64) -> Binary64 {
    Binary64 { bits: x.to_bits() }
}

#[test]
fn constants_are_the_numbers_they_stand_for() {
    assert_eq!(f64::from_bits(OPACITY_LOW), 0.3);
    assert_eq!(f64::from_bits(OPACITY_HIGH), 1.0);
    assert_eq!(f64::from_bits(OPACITY_DEFAULT), 0.92);
    assert_eq!(f64::from_bits(ZOOM_LOW), 0.6);
    assert_eq!(f64::from_bits(ZOOM_HIGH), 2.0);
    assert_eq!(f64::from_bits(ZOOM_DEFAULT), 1.0);
    assert_eq!(f64::from_bits(RESTORE_PLACE), 100.0);
    assert_eq!(f64::from_bits(DEFAULT_WIDTH), 320.0);
    assert_eq!(f64::from_bits(DEFAULT_HEIGHT), 240.0);
    assert_eq!(f64::from_bits(LEAST_WIDTH), 240.0);
    assert_eq!(f64::from_bits(LEAST_HEIGHT), 180.0);
    assert_eq!(f64::from_bits(STRIP_WIDTH), 3.5);
    assert_eq!(f64::from_bits(STRIP_HEIGHT), 40.0);
}

#[test]
fn clamping_agrees_with_floating_point() {
    let values = [
        0.0,
        -0.0,
        0.3,
        0.29999999999999993,
        0.30000000000000004,
        0.6,
        0.92,
        1.0,
        1.0000000000000002,
        2.0,
        -1.0,
        5e-324,
        -5e-324,
        1e308,
        f64::INFINITY,
        f64::NEG_INFINITY,
        f64::NAN,
        -f64::NAN,
    ];
    let ranges = [(0.3, 1.0), (0.6, 2.0), (-1.5, 0.0), (-0.0, 0.0), (-3.0, -2.0)];
    for v in values {
        for (low, high) in ranges {
            let held = b(v).clamp(b(low), b(high));
            let real = v.clamp(low, high);
            if v.is_nan() {
                assert!(f64::from_bits(held.bits).is_nan());
            } else {
                assert_eq!(f64::from_bits(held.bits), real);
            }
        }
    }
}

#[test]
fn clamping_twice_is_clamping_once() {
    for v in [-1.0, 0.31, 0.5, 7.0] {
        let once = b(v).clamp(b(0.3), b(1.0));
        assert_eq!(once.clamp(b(0.3), b(1.0)), once);
    }
    assert_eq!(b(0.5).clamp(b(0.3), b(1.0)), b(0.5));
}
