use gaze::face::{
    CENTER_TOLERANCE, EDGE_MARGIN, FAR_EDGE, MAX_FACE_SIZE_RATIO, MIN_FACE_SIZE_RATIO,
};
use gaze::ir_quality::MIN_FACE_PATCH_STDDEV;
use gaze::number::{nearest_single_integer, Double, Single};

fn double(x: f64) -> Double {
    Double { bits: x.to_bits() }
}

fn single(x: f32) -> Single {
    Single { bits: x.to_bits() }
}

const DOUBLES: [f64; 14] = [
    0.0,
    -0.0,
    1.0,
    -1.0,
    0.1,
    -0.1,
    5e-324,
    -5e-324,
    1e300,
    -1e300,
    f64::INFINITY,
    f64::NEG_INFINITY,
    f64::NAN,
    0.25,
];

#[test]
fn doubles_compare_as_numbers() {
    for a in DOUBLES {
        assert_eq!(double(a).is_finite(), a.is_finite(), "{a}");
        for b in DOUBLES {
            assert_eq!(double(a).le(double(b)), a <= b, "{a} <= {b}");
            assert_eq!(double(a).lt(double(b)), a < b, "{a} < {b}");
        }
    }
}

#[test]
fn singles_compare_as_numbers() {
    for a in DOUBLES.map(|x| x as f32) {
        for b in DOUBLES.map(|x| x as f32) {
            assert_eq!(single(a).le(single(b)), a <= b, "{a} <= {b}");
            assert_eq!(single(a).lt(single(b)), a < b, "{a} < {b}");
        }
    }
}

#[test]
fn larger_numbers_and_ranges() {
    assert_eq!(double(1.0).max(double(2.0)), double(2.0));
    assert_eq!(double(2.0).max(double(1.0)), double(2.0));
    assert_eq!(double(f64::NAN).max(double(1.0)), double(1.0));
    assert_eq!(double(1.0).max(double(f64::NAN)), double(1.0));
    let (low, high) = (double(0.1), double(0.75));
    assert_eq!(double(0.05).clamp(low, high), low);
    assert_eq!(double(-3.0).clamp(low, high), low);
    assert_eq!(double(0.8).clamp(low, high), high);
    assert_eq!(double(0.3).clamp(low, high), double(0.3));
}

#[test]
fn narrowing_rounds_as_a_cast_does() {
    let mut seed = 0x2545_f491_4f6c_dd1du64;
    for _ in 0..20_000 {
        seed ^= seed << 13;
        seed ^= seed >> 7;
        seed ^= seed << 17;
        let x = f64::from_bits(0x3f00_0000_0000_0000 + (seed >> 8));
        if double(x).bits < 0x47e0_0000_0000_0000 {
            assert_eq!(double(x).narrow().bits, (x as f32).to_bits(), "{x}");
        }
    }
    // A tie goes to the even fraction.
    let tie = f64::from_bits(0x3ff0_0000_1000_0000);
    assert_eq!(double(tie).narrow().bits, (tie as f32).to_bits());
    let tie = f64::from_bits(0x3ff0_0000_3000_0000);
    assert_eq!(double(tie).narrow().bits, (tie as f32).to_bits());
}

#[test]
fn widening_is_the_same_number() {
    for x in [0.1f32, 0.25, 0.75, 1.0, 123456.7] {
        assert_eq!(single(x).widen(), double(x as f64));
        assert_eq!(single(x).widen().narrow(), single(x));
    }
}

#[test]
fn cutting_to_an_integer_saturates() {
    for x in [
        0.0f32,
        -0.0,
        -5.0,
        0.99,
        1.0,
        1.5,
        15.999,
        100.0,
        8388607.5,
        8388608.0,
        16777216.0,
        123456789.0,
        2147483520.0,
        2147483648.0,
        1e30,
        f32::INFINITY,
        f32::NEG_INFINITY,
        f32::NAN,
        1e-45,
    ] {
        assert_eq!(single(x).floor_to_i32(), x.max(0.0) as i32, "{x}");
    }
}

#[test]
fn integers_round_to_what_a_single_holds() {
    for n in [
        0u64,
        1,
        410_000,
        16_777_215,
        16_777_216,
        16_777_217,
        16_777_218,
        16_777_219,
        33_554_433,
        33_554_434,
        33_554_435,
        33_554_438,
        1 << 40,
        (1 << 40) + (1 << 15),
        (1 << 40) + 3 * (1 << 15),
        u64::MAX - 1,
        u64::MAX,
    ] {
        assert_eq!(nearest_single_integer(n), (n as f32) as u128, "{n}");
    }
}

#[test]
fn limits_are_the_numbers_they_stand_for() {
    assert_eq!(EDGE_MARGIN, 0.05f32.to_bits());
    assert_eq!(FAR_EDGE, (1.0f32 - 0.05f32).to_bits());
    assert_eq!(CENTER_TOLERANCE, 0.2f32.to_bits());
    assert_eq!(MIN_FACE_SIZE_RATIO, 0.35f32.to_bits());
    assert_eq!(MAX_FACE_SIZE_RATIO, 0.78f32.to_bits());
    assert_eq!(MIN_FACE_PATCH_STDDEV, 15.0f64.to_bits());
}
