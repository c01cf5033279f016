use codexbar::binary64::parse::parse_double;
use codexbar::binary64::Binary64;

fn b(x: f64) -> Binary64 {
    Binary64 { bits: x.to_bits() }
}

fn f(x: Binary64) -> f64 {
    f64::from_bits(x.bits)
}

fn same_double(a: f64, b: f64) -> bool {
    (a.is_nan() && b.is_nan()) || a.to_bits() == b.to_bits()
}

/// Values of every kind, and a row of scattered bit patterns.
fn samples() -> Vec<f64> {
    let mut v = vec![
        0.0,
        -0.0,
        1.0,
        -1.0,
        0.5,
        1.5,
        2.5,
        0.1,
        0.2,
        0.3,
        100.0,
        1e-9,
        1e9,
        1e300,
        -1e300,
        5e-324,
        -5e-324,
        2.2250738585072014e-308,
        2.225073858507201e-308,
        f64::MAX,
        f64::MIN,
        f64::MIN_POSITIVE,
        f64::EPSILON,
        f64::INFINITY,
        f64::NEG_INFINITY,
        f64::NAN,
        4503599627370496.0,
        4503599627370495.5,
        9007199254740993.0,
        29071257.0,
        58.142514,
        4574.52,
    ];
    let mut state: u64 = 0x9e3779b97f4a7c15;
    for _ in 0..40 {
        state = state.wrapping_mul(6364136223846793005).wrapping_add(1442695040888963407);
        v.push(f64::from_bits(state));
        v.push(((state >> 20) as f64) / 1000.0);
    }
    v
}

#[test]
fn arithmetic_agrees_with_the_machine() {
    let v = samples();
    for &x in &v {
        for &y in &v {
            assert!(same_double(f(b(x).plus(b(y))), x + y), "{x:?} + {y:?}");
            assert!(same_double(f(b(x).minus(b(y))), x - y), "{x:?} - {y:?}");
            assert!(same_double(f(b(x).times(b(y))), x * y), "{x:?} * {y:?}");
            assert!(same_double(f(b(x).over(b(y))), x / y), "{x:?} / {y:?}");
        }
    }
}

#[test]
fn comparison_agrees_with_the_machine() {
    let v = samples();
    for &x in &v {
        for &y in &v {
            assert_eq!(b(x).lt(b(y)), x < y);
            assert_eq!(b(x).le(b(y)), x <= y);
            if !(x == 0.0 && y == 0.0) {
                assert!(same_double(f(b(x).max(b(y))), x.max(y)), "{x:?} max {y:?}");
                assert!(same_double(f(b(x).min(b(y))), x.min(y)), "{x:?} min {y:?}");
            }
        }
        assert_eq!(b(x).is_finite(), x.is_finite());
        assert_eq!(b(x).is_nan(), x.is_nan());
        assert!(same_double(f(b(x).abs()), x.abs()));
        assert!(same_double(f(b(x).clamp(b(0.0), b(100.0))), x.clamp(0.0, 100.0)));
    }
}

#[test]
fn integer_parts_agree_with_the_machine() {
    for x in samples() {
        assert!(same_double(f(b(x).trunc()), x.trunc()), "trunc {x:?}");
        assert!(same_double(f(b(x).fract()), x.fract()), "fract {x:?}");
    }
}

#[test]
fn fixed_texts_agree_with_the_machine() {
    let mut v = samples();
    v.extend([0.125, 0.375, 2.675, 1.005, 0.005, 0.015, 99.995, 999999.5, 3.5, 4.5, -0.5, -2.5, 12.34, 7.0]);
    for x in v {
        assert_eq!(b(x).to_fixed(0), format!("{x:.0}"), "{x:?}");
        assert_eq!(b(x).to_fixed(2), format!("{x:.2}"), "{x:?}");
    }
}

#[test]
fn rounding_to_integers_takes_ties_up() {
    for x in [0.0, 0.4, 0.5, 0.49999999999999994, 1.5, 2.5, 7.0, 19.999, 20.0, 1234567.5] {
        assert_eq!(b(x).round_to_integer() as f64, x.round(), "{x:?}");
    }
}

#[test]
fn integers_and_ratios_are_nearest() {
    for n in [0, 1, -1, 7, 100, 500_000, i64::MAX, i64::MIN, 9_007_199_254_740_993] {
        assert!(same_double(f(Binary64::from_integer(n)), n as f64), "{n}");
    }
    assert_eq!(f(Binary64::from_ratio(1, 1_000_000_000)), 1e-9);
    assert_eq!(f(Binary64::from_ratio(1, 2)), 0.5);
}

#[test]
fn decimal_texts_are_read_like_the_machine() {
    for s in [
        "0", "-0", "+0", "1", "-1", "17", "0.1", ".5", "5.", "1e3", "1E3", "1e+3", "1e-3", "2505000", "45.7452",
        "9007199254740993", "9007199254740992.5", "9007199254740993.0000000001", "1.7976931348623157e308",
        "1.7976931348623159e308", "1e308", "1e309", "1e400", "1e999999999999999999999", "5e-324", "2e-324", "3e-324",
        "2.4703282292062327e-324", "2.4703282292062328e-324", "1e-400", "1e-99999999999999999999", "0e99999999999",
        "0.000000000000000000000000000000000000000000000000001", "123456789012345678901234567890", "inf", "-inf",
        "Infinity", "INF", "+infinity", "nan", "NaN", "-NaN", "2.2250738585072011e-308", "4.9e-324", "8.5e15",
        "179769313486231580793728971405303415079934132710037826936173778980444968292764750946649017977587207096330286416692887910946555547851940402630657488671505820681908902000708383676273854845817711531764475730270069855571366959622842914819860834936475292719074168444365510704342711559699508093042880",
        "", " 1", "1 ", ".", "e5", "1e", "1e+", "--1", "+-1", "1.2.3", "0x10", "1_000", "infin", "na", "١", "1e1.5",
    ] {
        let expected = s.parse::<f64>().ok();
        let found = parse_double(s).map(f);
        match (expected, found) {
            (Some(x), Some(y)) => assert!(same_double(x, y), "{s}: {x:?} {y:?}"),
            (x, y) => assert_eq!(x, y, "{s}"),
        }
    }
}

#[test]
fn written_doubles_are_read_back() {
    for x in samples() {
        if x.is_finite() {
            let s = format!("{x:?}");
            assert!(same_double(f(parse_double(&s).unwrap()), x), "{s}");
            let s = format!("{x:.17e}");
            assert!(same_double(f(parse_double(&s).unwrap()), x), "{s}");
        }
    }
}
