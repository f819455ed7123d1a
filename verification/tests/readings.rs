use rserve::reading::{f64_less, f64_positive};
use rserve::{validate_f32, validate_f64};

fn checked64(val: f64) -> f64 {
    f64::from_bits(validate_f64(val.to_bits()))
}

fn checked32(val: f32) -> f32 {
    f32::from_bits(validate_f32(val.to_bits()))
}

#[test]
fn fpval_test() {
    println!("f64 & f32 validation test");
    let mut v1: f64 = 0.0;
    let mut v2: f32 = 0.0;

    assert_eq!(checked64(v1), 0.0);
    assert_eq!(checked32(v2), 0.0);

    v1 = 12.99;
    v2 = 42.42;
    assert_eq!(checked64(v1), 12.99);
    assert_eq!(checked32(v2), 42.42);

    v1 = -12.12;
    v2 = -42.99;
    assert_eq!(checked64(v1), -12.12);
    assert_eq!(checked32(v2), -42.99);

    let nan1 = f64::NAN;
    let nan2 = f32::NAN;
    assert_eq!(checked64(nan1), 0.0);
    assert_eq!(checked32(nan2), 0.0);
}

#[test]
fn validation_agrees_with_is_normal_on_doubles() {
    let samples = [
        0.0,
        -0.0,
        1.0,
        -1.0,
        0.9,
        1013.25,
        f64::MIN_POSITIVE,
        f64::MIN_POSITIVE / 2.0,
        -f64::MIN_POSITIVE / 4.0,
        f64::MAX,
        f64::MIN,
        f64::EPSILON,
        f64::INFINITY,
        f64::NEG_INFINITY,
        f64::NAN,
        -f64::NAN,
        f64::from_bits(1),
        f64::from_bits(0x7ff0_0000_0000_0001),
        f64::from_bits(0xfff8_0000_0000_0000),
    ];
    for x in samples {
        let got = validate_f64(x.to_bits());
        let want = if x.is_normal() { x.to_bits() } else { 0 };
        assert_eq!(got, want);
    }
}

#[test]
fn validation_agrees_with_is_normal_on_singles() {
    let samples = [
        0.0f32,
        -0.0,
        1.0,
        -42.99,
        f32::MIN_POSITIVE,
        f32::MIN_POSITIVE / 2.0,
        f32::MAX,
        f32::MIN,
        f32::INFINITY,
        f32::NEG_INFINITY,
        f32::NAN,
        f32::from_bits(1),
        f32::from_bits(0x7f80_0001),
    ];
    for x in samples {
        let got = validate_f32(x.to_bits());
        let want = if x.is_normal() { x.to_bits() } else { 0 };
        assert_eq!(got, want);
    }
}

#[test]
fn validation_twice_is_validation_once() {
    let samples = [0.0, -0.0, 12.99, -12.12, 1e-320, f64::MAX, f64::INFINITY, f64::NAN];
    for x in samples {
        let once = validate_f64(x.to_bits());
        assert_eq!(validate_f64(once), once);
    }
    let samples = [0.0f32, -0.0, 42.42, -42.99, 1e-44, f32::MAX, f32::INFINITY, f32::NAN];
    for x in samples {
        let once = validate_f32(x.to_bits());
        assert_eq!(validate_f32(once), once);
    }
}

#[test]
fn not_a_number_and_infinities_become_positive_zero() {
    assert_eq!(validate_f64(f64::NAN.to_bits()), 0);
    assert_eq!(validate_f64(f64::INFINITY.to_bits()), 0);
    assert_eq!(validate_f64(f64::NEG_INFINITY.to_bits()), 0);
    assert_eq!(validate_f32(f32::NAN.to_bits()), 0);
    assert_eq!(validate_f32(f32::INFINITY.to_bits()), 0);
    assert_eq!(validate_f32(f32::NEG_INFINITY.to_bits()), 0);
    assert_eq!(checked64(f64::INFINITY).to_bits(), 0.0f64.to_bits());
}

#[test]
fn negative_zero_and_subnormals_become_positive_zero() {
    assert_eq!(validate_f64((-0.0f64).to_bits()), 0);
    assert_eq!(validate_f64(5e-324f64.to_bits()), 0);
    assert_eq!(validate_f32((-0.0f32).to_bits()), 0);
    assert_eq!(validate_f32(1e-45f32.to_bits()), 0);
}

#[test]
fn less_agrees_with_the_order_of_doubles() {
    let samples = [
        f64::NEG_INFINITY,
        f64::MIN,
        -1013.25,
        -1.0,
        -f64::MIN_POSITIVE,
        -5e-324,
        -0.0,
        0.0,
        5e-324,
        f64::MIN_POSITIVE,
        0.9,
        1.0,
        1.5,
        1013.25,
        f64::MAX,
        f64::INFINITY,
    ];
    for a in samples {
        for b in samples {
            assert_eq!(f64_less(a.to_bits(), b.to_bits()), a < b);
        }
    }
}

#[test]
fn positive_agrees_with_greater_than_zero() {
    let samples = [
        f64::NEG_INFINITY,
        -1.0,
        -0.09999999999999998,
        -5e-324,
        -0.0,
        0.0,
        5e-324,
        0.5,
        f64::MAX,
        f64::INFINITY,
        f64::NAN,
        -f64::NAN,
        f64::from_bits(0x7ff0_0000_0000_0001),
    ];
    for x in samples {
        assert_eq!(f64_positive(x.to_bits()), x > 0.0);
    }
}
