use std::time::Duration;

use zenith::single::{
    Single, TimeSpan, HUNDRED_BITS, ONE_BITS, TEN_BITS, TEN_THOUSAND_BITS, THOUSAND_BITS,
};

const VALUES: [f32; 30] = [
    0.0,
    -0.0,
    1.0,
    -1.0,
    0.1,
    0.3,
    0.5,
    0.999_999_94,
    1.000_000_1,
    2.5,
    -7.25,
    42.0,
    100.005,
    255.0,
    255.9,
    256.0,
    9.806_65,
    -32_768.9,
    32_767.4,
    65_535.9,
    65_536.0,
    1.0e9,
    4.294_967e9,
    4.3e9,
    -4.3e9,
    1.0e20,
    1.0e-20,
    1.0e-42,
    f32::INFINITY,
    f32::NEG_INFINITY,
];

fn single(value: f32) -> Single {
    Single::from_bits(value.to_bits())
}

#[test]
fn comparisons_are_those_of_floats() {
    let mut values = VALUES.to_vec();
    values.push(f32::NAN);
    values.push(-f32::NAN);
    for a in &values {
        assert_eq!(single(*a).is_nan(), a.is_nan(), "{a}");
        assert_eq!(single(*a).is_finite(), a.is_finite(), "{a}");
        for b in &values {
            assert_eq!(single(*a).is_below(single(*b)), a < b, "{a} {b}");
            assert_eq!(single(*a).is_at_most(single(*b)), a <= b, "{a} {b}");
        }
    }
}

#[test]
fn casts_are_those_of_floats() {
    let mut values = VALUES.to_vec();
    values.push(f32::NAN);
    for value in values {
        assert_eq!(single(value).to_u32(), value as u32, "{value}");
        assert_eq!(single(value).to_u8(), value as u8, "{value}");
    }
}

#[test]
fn signs_are_changed() {
    assert_eq!(single(1.5).neg(), single(-1.5));
    assert_eq!(single(-1.5).abs(), single(1.5));
    assert_eq!(single(1.5).abs(), single(1.5));
    assert_eq!(Single::zero(), single(0.0));
    assert_eq!(Single::one(), single(1.0));
}

#[test]
fn scaled_values_are_those_of_floats() {
    let factors = [
        ONE_BITS,
        TEN_BITS,
        HUNDRED_BITS,
        THOUSAND_BITS,
        TEN_THOUSAND_BITS,
        101.972f32.to_bits(),
        17.453_29f32.to_bits(),
        0.1f32.to_bits(),
    ];
    for value in VALUES {
        for factor in factors {
            let expected = value * f32::from_bits(factor);
            let scaled =
                |min, max| single(value).scaled(Single { bits: factor }, min, max);
            assert_eq!(
                scaled(i16::MIN as i64, i16::MAX as i64),
                expected as i16 as i64,
                "{value} {factor:x}"
            );
            assert_eq!(
                scaled(0, u16::MAX as i64),
                expected as u16 as i64,
                "{value} {factor:x}"
            );
            assert_eq!(
                scaled(i32::MIN as i64, i32::MAX as i64),
                expected as i32 as i64,
                "{value} {factor:x}"
            );
        }
    }
    assert_eq!(
        single(f32::NAN).scaled(Single::one(), -100, 100),
        0,
        "what is no number is cast to zero"
    );
}

#[test]
fn degrees_are_scaled_in_double_precision() {
    for value in [0.0f32, 49.876_543, -8.654_321, 179.999_99, 1.0e-5, 500.0] {
        assert_eq!(
            single(value).times_ten_million(i32::MIN as i64, i32::MAX as i64),
            (value as f64 * 1.0e7) as i32 as i64,
            "{value}"
        );
    }
}

#[test]
fn quotients_are_those_of_floats() {
    for (n, d) in [
        (0, 10),
        (1, 10),
        (-1, 10),
        (123, 10),
        (-32_768, 100),
        (32_767, 100),
        (999, 1000),
        (1, 3),
    ] {
        let quotient = Single::quotient(n, d);
        let expected = n as f32 / d as f32;
        assert_eq!(f32::from_bits(quotient.to_bits()), expected, "{n}/{d}");
    }
}

#[test]
fn seconds_become_spans_as_durations_do() {
    let mut values = VALUES.to_vec();
    values.extend([1.0e-9, 1.5e-9, 0.5e-9, 0.25e-9, 1.25, 30.0, 1.844_674_4e19, f32::NAN]);
    for seconds in values {
        let span = single(seconds).to_time_span();
        let duration = Duration::try_from_secs_f32(seconds).ok();
        assert_eq!(
            span.map(|s| (s.secs, s.nanos)),
            duration.map(|d| (d.as_secs(), d.subsec_nanos())),
            "{seconds}"
        );
    }
}

#[test]
fn spans_are_counted_in_milliseconds() {
    assert_eq!(
        TimeSpan::from_millis(1500),
        TimeSpan {
            secs: 1,
            nanos: 500_000_000
        }
    );
    assert_eq!(TimeSpan::from_millis(1500).as_millis(), 1500);
    assert!(TimeSpan::from_millis(0).is_zero());
    assert!(TimeSpan::from_millis(5).is_at_most(TimeSpan::from_millis(5)));
    assert!(!TimeSpan::from_millis(6).is_at_most(TimeSpan::from_millis(5)));
}

#[test]
fn products_are_those_of_floats() {
    let values = [
        9.806_65f32, 9.81, 1.0, 1.1, 0.9, 3.0, 0.1, 16_777_215.0, 1.000_000_1, 0.999_999_94, 7.5e-10,
    ];
    for a in values {
        for b in values {
            let product = single(a).times(single(b));
            assert_eq!(f32::from_bits(product.to_bits()), a * b, "{a} {b}");
        }
    }
}
