use kline_glyph::format::{count_digits, format_decimal, magnitude_of, precision_for};
use kline_glyph::{KlineData, KlinePlotPoint, RectElement};

#[test]
fn precision_follows_the_scale() {
    assert_eq!(precision_for(1_000_000), 1);
    assert_eq!(precision_for(100_000), 1);
    assert_eq!(precision_for(99_999), 2);
    assert_eq!(precision_for(10_000), 2);
    assert_eq!(precision_for(9_999), 3);
    assert_eq!(precision_for(1_000), 3);
    assert_eq!(precision_for(999), 4);
    assert_eq!(precision_for(100), 4);
    assert_eq!(precision_for(99), 5);
    assert_eq!(precision_for(10), 5);
    assert_eq!(precision_for(9), 6);
    assert_eq!(precision_for(1), 6);
}

#[test]
fn precision_is_six_for_a_zero_scale() {
    assert_eq!(precision_for(0), 6);
}

#[test]
fn precision_is_one_for_large_scales() {
    assert_eq!(precision_for(2_000_000), 1);
    assert_eq!(precision_for(123_456_789_000), 1);
    assert_eq!(precision_for(i64::MAX), 1);
    assert_eq!(precision_for(i64::MIN), 1);
}

#[test]
fn precision_ignores_the_sign() {
    assert_eq!(precision_for(-1), 6);
    assert_eq!(precision_for(-10_000), 2);
    assert_eq!(precision_for(-99_999), 2);
    assert_eq!(precision_for(-100_000), 1);
}

#[test]
fn precision_stays_between_one_and_six() {
    let mut s: i64 = 1;
    for _ in 0..18 {
        for x in [s - 1, s, s + 1, -s, 3 * s] {
            let p = precision_for(x);
            assert!((1..=6).contains(&p));
        }
        s *= 10;
    }
}

#[test]
fn magnitude_and_digits() {
    assert_eq!(magnitude_of(0), 0);
    assert_eq!(magnitude_of(-7), 7);
    assert_eq!(magnitude_of(i64::MIN), 1u64 << 63);
    assert_eq!(count_digits(0), 0);
    assert_eq!(count_digits(9), 1);
    assert_eq!(count_digits(10), 2);
    assert_eq!(count_digits(u64::MAX), 20);
}

#[test]
fn decimal_text_of_whole_and_fraction() {
    assert_eq!(format_decimal(15_000_000, 1), "15.0");
    assert_eq!(format_decimal(15_000_000, 6), "15.000000");
    assert_eq!(format_decimal(1_234_567, 6), "1.234567");
    assert_eq!(format_decimal(1_234_567, 3), "1.235");
    assert_eq!(format_decimal(1_234_567, 2), "1.23");
    assert_eq!(format_decimal(1_050_000, 3), "1.050");
    assert_eq!(format_decimal(0, 1), "0.0");
    assert_eq!(format_decimal(7, 6), "0.000007");
    assert_eq!(format_decimal(7, 5), "0.00001");
    assert_eq!(format_decimal(4, 5), "0.00000");
}

#[test]
fn decimal_text_rounds_ties_to_even() {
    assert_eq!(format_decimal(125_000, 2), "0.12");
    assert_eq!(format_decimal(375_000, 2), "0.38");
    assert_eq!(format_decimal(250_000, 1), "0.2");
    assert_eq!(format_decimal(350_000, 1), "0.4");
    assert_eq!(format_decimal(250_001, 1), "0.3");
    assert_eq!(format_decimal(500_000, 0), "0");
    assert_eq!(format_decimal(1_500_000, 0), "2");
    assert_eq!(format_decimal(2_500_000, 0), "2");
}

#[test]
fn decimal_text_pads_beyond_six_decimals_with_zeros() {
    assert_eq!(format_decimal(1_500_000, 7), "1.5000000");
    assert_eq!(format_decimal(-1_234_567, 9), "-1.234567000");
    assert_eq!(format_decimal(0, 12), "0.000000000000");
}

#[test]
fn decimal_text_carries_into_the_whole_part() {
    assert_eq!(format_decimal(999_999, 1), "1.0");
    assert_eq!(format_decimal(9_999_999, 5), "10.00000");
    assert_eq!(format_decimal(99_950_000, 1), "100.0");
}

#[test]
fn decimal_text_of_negative_values() {
    assert_eq!(format_decimal(-1_500_000, 1), "-1.5");
    assert_eq!(format_decimal(-10_000, 1), "-0.0");
    assert_eq!(format_decimal(-125_000, 2), "-0.12");
    assert_eq!(format_decimal(-1, 6), "-0.000001");
}

#[test]
fn decimal_text_at_the_ends_of_the_range() {
    assert_eq!(format_decimal(i64::MAX, 6), "9223372036854.775807");
    assert_eq!(format_decimal(i64::MIN, 6), "-9223372036854.775808");
    assert_eq!(format_decimal(i64::MAX, 1), "9223372036854.8");
    assert_eq!(format_decimal(i64::MIN, 0), "-9223372036855");
}

#[test]
fn decimal_text_agrees_with_float_formatting_on_exact_values() {
    for (value, float) in [(15_000_000i64, 15.0f64), (-2_500_000, -2.5), (125_000, 0.125), (8_000_000_000, 8000.0)] {
        for d in 0..=9usize {
            assert_eq!(format_decimal(value, d), format!("{:.*}", d, float));
        }
    }
}

fn sample() -> KlinePlotPoint {
    KlinePlotPoint::new(
        5_000_000,
        KlineData::new(10_000_000, 15_000_000, 20_000_000, 25_000_000, 30_000_000),
    )
}

#[test]
fn values_text_of_a_vertical_glyph_uses_the_y_scale() {
    let text = sample().default_values_format([1_000_000, 10_000]);
    assert_eq!(
        text,
        "Max = 15.00\nQuartile 3 = 25.00\nMedian = 30.00\nQuartile 1 = 10.00\nMin = 20.00"
    );
}

#[test]
fn values_text_of_a_horizontal_glyph_uses_the_x_scale() {
    let text = sample().horizontal().default_values_format([1_000_000, 10_000]);
    assert_eq!(text, "Max = 15.0\nQuartile 3 = 25.0\nMedian = 30.0\nQuartile 1 = 10.0\nMin = 20.0");
}

#[test]
fn values_text_with_a_zero_scale_has_six_decimals() {
    let e = KlinePlotPoint::new(0, KlineData::new(-1, 1_234_567, 0, 500_000, -2_000_000));
    assert_eq!(
        e.default_values_format([0, 0]),
        "Max = 1.234567\nQuartile 3 = 0.500000\nMedian = -2.000000\nQuartile 1 = -0.000001\nMin = 0.000000"
    );
}

#[test]
fn values_text_rounds_to_the_precision() {
    let e = KlinePlotPoint::new(0, KlineData::new(-1, 1_234_567, 0, 500_000, -2_000_000));
    assert_eq!(
        e.default_values_format([7, -250]),
        "Max = 1.2346\nQuartile 3 = 0.5000\nMedian = -2.0000\nQuartile 1 = -0.0000\nMin = 0.0000"
    );
}
