use carbide::position::{Dimension, Position};
use carbide::scalar::Scalar;
use std::cmp::Ordering;

fn s(v: f64) -> Scalar {
    Scalar::from_bits(v.to_bits())
}

fn f(v: Scalar) -> f64 {
    f64::from_bits(v.to_bits())
}

#[test]
fn fraction_0_1() {
    // 0.0 will return 0.0
    let position = Position::new(s(0.0), s(0.0));
    let expected = Position::new(s(0.0), s(0.0));
    assert_eq!(position.fraction_0_1(), expected, "Fraction 1");

    // 1.0 will return 0.0
    let position = Position::new(s(1.0), s(1.0));
    let expected = Position::new(s(0.0), s(0.0));
    assert_eq!(position.fraction_0_1(), expected, "Fraction 2");

    // 1.5 will return 0.5
    let position = Position::new(s(1.5), s(1.5));
    let expected = Position::new(s(0.5), s(0.5));
    assert_eq!(position.fraction_0_1(), expected, "Fraction 3");

    // -1.5 will return 0.5
    let position = Position::new(s(-1.5), s(-1.5));
    let expected = Position::new(s(0.5), s(0.5));
    assert_eq!(position.fraction_0_1(), expected, "Fraction 4");

    // -0.2 will return 0.8
    let position = Position::new(s(-0.2), s(-0.2));
    let expected = Position::new(s(0.8), s(0.8));
    assert_eq!(position.fraction_0_1(), expected, "Fraction 5");

    // 0.2 will return 0.2
    let position = Position::new(s(0.2), s(0.2));
    let expected = Position::new(s(0.2), s(0.2));
    assert_eq!(position.fraction_0_1(), expected, "Fraction 6");
}

#[test]
fn arithmetic_matches_hardware_doubles() {
    let values = [0.0, -0.0, 1.0, -1.0, 0.1, 0.2, 0.3, -0.7, 1.5, -2.5, 2.5, 1e300, -1e-300, 123456.789, f64::INFINITY, f64::NAN];
    for &a in &values {
        for &b in &values {
            let (x, y) = (s(a), s(b));
            let expect = |got: Scalar, want: f64| {
                if want.is_nan() {
                    assert!(f(got).is_nan());
                } else {
                    assert_eq!(got.to_bits(), want.to_bits(), "{} {}", a, b);
                }
            };
            expect(x.add(y), a + b);
            expect(x.sub(y), a - b);
            expect(x.mul(y), a * b);
            expect(x.div(y), a / b);
            assert_eq!(x.lt(y), a < b);
            assert_eq!(x.le(y), a <= b);
            assert_eq!(x == y, a == b);
        }
        let x = s(a);
        if !a.is_nan() {
            assert_eq!(x.trunc().to_bits(), a.trunc().to_bits());
            assert_eq!(x.round().to_bits(), a.round().to_bits());
            if a.fract().is_nan() {
                assert!(f(x.fract()).is_nan());
            } else {
                assert_eq!(x.fract().to_bits(), a.fract().to_bits(), "{}", a);
            }
        }
        assert_eq!(x.abs().to_bits(), a.abs().to_bits());
        assert_eq!(x.to_u16(), a as u16);
    }
    assert_eq!(Scalar::from_u32(7).to_bits(), 7.0f64.to_bits());
}

#[test]
fn translate_and_operators() {
    let p = Position::new(s(1.0), s(2.0));
    let q = p.translate_x(s(0.5)).translate_y(s(-1.0));
    assert_eq!((f(q.x()), f(q.y())), (1.5, 1.0));
    let r = p + q;
    assert_eq!((f(r.x), f(r.y)), (2.5, 3.0));
    let d = q - p;
    assert_eq!((f(d.x), f(d.y)), (0.5, -1.0));
    let m = p * s(3.0);
    assert_eq!((f(m.x), f(m.y)), (3.0, 6.0));
    let v = p / s(2.0);
    assert_eq!((f(v.x), f(v.y)), (0.5, 1.0));
    let mut a = p + Dimension::new(s(10.0), s(20.0));
    assert_eq!((f(a.x), f(a.y)), (11.0, 22.0));
    a += Dimension::new(s(1.0), s(1.0));
    assert_eq!((f(a.x), f(a.y)), (12.0, 23.0));
    let z = Position::default();
    assert_eq!((f(z.x), f(z.y)), (0.0, 0.0));
}

#[test]
fn rounding_and_fractions() {
    let p = Position::new(s(2.5), s(-2.5));
    assert_eq!((f(p.rounded().x), f(p.rounded().y)), (3.0, -3.0));
    assert_eq!((f(p.truncated().x), f(p.truncated().y)), (2.0, -2.0));
    assert_eq!((f(p.fraction().x), f(p.fraction().y)), (0.5, -0.5));
    assert_eq!(p.round_to_u16(), (3, 0));
    assert_eq!(Position::new(s(70000.0), s(1.4)).round_to_u16(), (65535, 1));
}

#[test]
fn normalized_offset_wraps_beyond_half() {
    let p = Position::new(s(0.75), s(-0.75)).normalized_offset();
    assert_eq!((f(p.x), f(p.y)), (-0.25, 0.25));
    let q = Position::new(s(0.5), s(-0.5)).normalized_offset();
    assert_eq!((f(q.x), f(q.y)), (0.5, -0.5));
}

#[test]
fn near_zero() {
    assert!(Position::new(s(0.0), s(-0.0)).is_near_zero());
    assert!(Position::new(s(f64::EPSILON), s(-f64::EPSILON)).is_near_zero());
    assert!(!Position::new(s(1e-10), s(0.0)).is_near_zero());
    assert!(!Position::new(s(f64::NAN), s(0.0)).is_near_zero());
}

#[test]
fn positions_compare_as_numbers() {
    assert_eq!(Position::new(s(0.0), s(1.0)), Position::new(s(-0.0), s(1.0)));
    assert_ne!(Position::new(s(f64::NAN), s(1.0)), Position::new(s(f64::NAN), s(1.0)));
}

#[test]
fn positions_order_by_x_then_y() {
    let p = |x: f64, y: f64| Position::new(s(x), s(y));
    assert!(p(1.0, 2.0) < p(1.0, 3.0));
    assert!(p(0.0, 9.0) < p(1.0, 0.0));
    assert!(p(2.0, 0.0) > p(1.0, 5.0));
    assert_eq!(p(-0.0, 1.0).partial_cmp(&p(0.0, 1.0)), Some(Ordering::Equal));
    assert_eq!(p(1.0, f64::NAN).partial_cmp(&p(1.0, 0.0)), None);
    assert!(p(0.0, f64::NAN) < p(1.0, 0.0));
    assert_eq!(p(f64::NAN, 0.0).partial_cmp(&p(1.0, 0.0)), None);
    for (a, b) in [(1.5, -2.0), (-0.0, 0.0), (f64::INFINITY, 1e308), (-1e-300, 0.0), (3.0, 3.0)] {
        assert_eq!(s(a).partial_cmp(&s(b)), a.partial_cmp(&b));
        assert_eq!(p(a, 0.0).partial_cmp(&p(b, 0.0)), a.partial_cmp(&b));
    }
}

#[test]
fn integers_become_the_nearest_double() {
    for n in [0u64, 1, 7, (1u64 << 53) + 1, (1u64 << 53) + 3, u64::MAX] {
        assert_eq!(Scalar::from_u64(n).to_bits(), (n as f64).to_bits());
    }
    assert_eq!(Scalar::from_u32(u32::MAX).to_bits(), (u32::MAX as f64).to_bits());
}

#[test]
fn fraction_0_1_stays_below_one() {
    let tiny = Position::new(s(-1e-20), s(-(2.0f64).powi(-60))).fraction_0_1();
    assert_eq!((f(tiny.x).to_bits(), f(tiny.y).to_bits()), (0.0f64.to_bits(), 0.0f64.to_bits()));
    let near_one = Position::new(s(-1e-10), s(0.999)).fraction_0_1();
    assert_eq!((f(near_one.x), f(near_one.y)), (1.0 + (-1e-10f64), 0.999));
    assert!(f(near_one.x) < 1.0);
    let infinite = Position::new(s(f64::INFINITY), s(f64::NAN)).fraction_0_1();
    assert!(f(infinite.x).is_nan() && f(infinite.y).is_nan());
}
