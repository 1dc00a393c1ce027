use rinertia::double::Double;

fn d(x: f64) -> Double {
    Double { bits: x.to_bits() }
}

fn numbers() -> Vec<f64> {
    vec![
        0.0,
        -0.0,
        f64::from_bits(1),
        -f64::from_bits(1),
        f64::MIN_POSITIVE,
        0.25,
        -0.25,
        0.999_999_999_999_999_9,
        1.0,
        -1.0,
        1.000_000_000_000_000_2,
        1.5,
        -1.5,
        2.75,
        40.0,
        39.999_999_999_999_99,
        -123_456.789,
        2_147_483_647.0,
        2_147_483_647.5,
        2_147_483_648.0,
        -2_147_483_648.0,
        -2_147_483_648.5,
        -2_147_483_649.0,
        4_503_599_627_370_495.5,
        4_503_599_627_370_497.0,
        9_007_199_254_740_993.0,
        1e18,
        1e300,
        -1e300,
        f64::MAX,
        f64::MIN,
        f64::INFINITY,
        f64::NEG_INFINITY,
        f64::NAN,
    ]
}

#[test]
fn comparisons_agree_with_doubles() {
    for a in numbers() {
        assert_eq!(d(a).is_nan(), a.is_nan());
        for b in numbers() {
            assert_eq!(d(a).lt(&d(b)), a < b, "{} < {}", a, b);
            assert_eq!(d(a).ge(&d(b)), a >= b, "{} >= {}", a, b);
        }
    }
}

#[test]
fn max_agrees_with_doubles() {
    for a in numbers() {
        for b in numbers() {
            let got = f64::from_bits(d(a).max(d(b)).bits);
            let want = a.max(b);
            assert!(got == want || (got.is_nan() && want.is_nan()), "{} max {}", a, b);
        }
    }
}

#[test]
fn clamp_agrees_with_doubles() {
    for a in numbers() {
        let got = d(a).clamp(d(0.1), d(5.0)).bits;
        assert_eq!(got, a.clamp(0.1, 5.0).to_bits());
    }
    assert_eq!(d(7.0).clamp(d(0.1), d(5.0)), d(5.0));
    assert_eq!(d(-7.0).clamp(d(0.1), d(5.0)), d(0.1));
    assert_eq!(d(0.1).clamp(d(0.1), d(5.0)), d(0.1));
}

#[test]
fn split_agrees_with_doubles() {
    for a in numbers() {
        let (whole, rest) = d(a).split_whole();
        assert_eq!(whole, a.trunc() as i32, "whole part of {}", a);
        let want = a - a.trunc();
        let got = f64::from_bits(rest.bits);
        if want.is_nan() {
            assert!(got.is_nan());
        } else {
            assert_eq!(got.to_bits(), want.to_bits(), "rest of {}", a);
        }
    }
}

#[test]
fn split_agrees_on_many_sizes() {
    let mut x = 1.234_567_890_123_456_7e-6;
    while x < 1e20 {
        for a in [x, -x] {
            let (whole, rest) = d(a).split_whole();
            assert_eq!(whole, a.trunc() as i32);
            assert_eq!(rest.bits, (a - a.trunc()).to_bits());
        }
        x *= 1.618_033_988_749_895;
    }
}

#[test]
fn split_parts_add_up() {
    let (whole, rest) = d(-3.75).split_whole();
    assert_eq!(whole, -3);
    assert_eq!(rest, d(-0.75));
    let (whole, rest) = d(-3.0).split_whole();
    assert_eq!(whole, -3);
    assert_eq!(rest, d(0.0));
}
