use gamejam::scalar::Scalar;

fn number(s: Scalar) -> f32 {
    f32::from_bits(s.to_bits())
}

fn scalar(x: f32) -> Scalar {
    Scalar::from_bits(x.to_bits())
}

#[test]
fn bits_round_trip() {
    assert_eq!(Scalar::from_bits(0x3f80_0000).to_bits(), 0x3f80_0000);
    assert_eq!(Scalar::from_bits(u32::MAX).bits, u32::MAX);
    assert_eq!(number(Scalar::from_bits(0x3f80_0000)), 1.0);
}

#[test]
fn zero_is_positive_zero() {
    assert_eq!(Scalar::zero().to_bits(), 0);
    assert_eq!(number(Scalar::zero()), 0.0);
    assert!(number(Scalar::zero()).is_sign_positive());
}

#[test]
fn dyadic_one_half() {
    assert_eq!(Scalar::dyadic(1, 1).to_bits(), 0x3f00_0000);
    assert_eq!(number(Scalar::dyadic(1, 1)), 0.5);
}

#[test]
fn dyadic_three_halves() {
    assert_eq!(Scalar::dyadic(3, 1).to_bits(), 0x3fc0_0000);
    assert_eq!(number(Scalar::dyadic(3, 1)), 1.5);
}

#[test]
fn dyadic_whole_numbers() {
    assert_eq!(number(Scalar::dyadic(0, 0)), 0.0);
    assert_eq!(Scalar::dyadic(0, 126).to_bits(), 0);
    assert_eq!(number(Scalar::dyadic(1, 0)), 1.0);
    assert_eq!(number(Scalar::dyadic(128, 0)), 128.0);
    assert_eq!(number(Scalar::dyadic(864, 0)), 864.0);
    assert_eq!(number(Scalar::dyadic(960, 0)), 960.0);
    assert_eq!(number(Scalar::dyadic(0x00ff_ffff, 0)), 16_777_215.0);
    assert_eq!(number(Scalar::dyadic(0x0080_0000, 0)), 8_388_608.0);
}

#[test]
fn dyadic_sixteenths() {
    for i in 0u32..16 {
        assert_eq!(number(Scalar::dyadic(i, 4)), i as f32 / 16.0);
        assert_eq!(Scalar::dyadic(i, 4).to_bits(), (i as f32 / 16.0).to_bits());
    }
}

#[test]
fn dyadic_smallest_normal() {
    assert_eq!(number(Scalar::dyadic(1, 126)), f32::MIN_POSITIVE);
    assert_eq!(Scalar::dyadic(1, 126).to_bits(), 0x0080_0000);
    assert_eq!(number(Scalar::dyadic(0x00ff_ffff, 126)), 16_777_215.0 * f32::MIN_POSITIVE);
}

#[test]
fn dyadic_agrees_with_division_on_a_grid() {
    for numerator in [1u32, 2, 3, 5, 7, 64, 100, 1023, 1024, 65_535, 1_000_000, 16_777_215] {
        for shift in [0u32, 1, 2, 3, 4, 10, 23, 24, 64, 100, 126] {
            let expected = numerator as f64 / 2f64.powi(shift as i32);
            let got = number(Scalar::dyadic(numerator, shift));
            assert_eq!(got as f64, expected);
        }
    }
}

#[test]
fn negated_flips_the_sign_only() {
    assert_eq!(Scalar::from_bits(0x3f80_0000).negated().to_bits(), 0xbf80_0000);
    assert_eq!(Scalar::from_bits(0xbf80_0000).negated().to_bits(), 0x3f80_0000);
    assert_eq!(Scalar::zero().negated().to_bits(), 0x8000_0000);
    assert_eq!(Scalar::from_bits(0x8000_0000).negated().to_bits(), 0);
    assert_eq!(Scalar::from_bits(u32::MAX).negated().to_bits(), 0x7fff_ffff);
}

#[test]
fn negated_agrees_with_float_negation() {
    for x in [0.0f32, 1.0, -1.0, 0.5, 1.777_777_8, -0.888_888_9, 1.0e-40, f32::MAX, f32::MIN,
        f32::INFINITY, f32::NEG_INFINITY, f32::MIN_POSITIVE] {
        assert_eq!(scalar(x).negated().to_bits(), (-x).to_bits());
        assert_eq!(scalar(x).negated().to_bits(), (x * -1.0).to_bits());
        assert_eq!(scalar(x).negated().negated(), scalar(x));
    }
}

#[test]
fn is_nan_agrees_with_floats() {
    assert!(scalar(f32::NAN).is_nan());
    assert!(scalar(-f32::NAN).is_nan());
    assert!(Scalar::from_bits(0x7f80_0001).is_nan());
    assert!(Scalar::from_bits(0xff80_0001).is_nan());
    assert!(Scalar::from_bits(0x7fff_ffff).is_nan());
    assert!(Scalar::from_bits(u32::MAX).is_nan());
    assert!(!scalar(f32::INFINITY).is_nan());
    assert!(!scalar(f32::NEG_INFINITY).is_nan());
    assert!(!scalar(0.0).is_nan());
    assert!(!scalar(-0.0).is_nan());
    assert!(!scalar(f32::MAX).is_nan());
    assert!(!scalar(f32::MIN).is_nan());
    assert!(!scalar(1.0e-40).is_nan());
}

#[test]
fn equality_is_of_bit_patterns() {
    assert_ne!(scalar(0.0), scalar(-0.0));
    assert_eq!(scalar(f32::NAN), scalar(f32::NAN));
}
