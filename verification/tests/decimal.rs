use kairos::decimal::{Comparison, Decimal};

fn dec(text: &str) -> Decimal {
    Decimal::parse(text).unwrap()
}

#[test]
fn parse_reads_mantissa_and_scale() {
    let d = dec("43250.12000000");
    assert_eq!(d.mantissa(), 4_325_012_000_000);
    assert_eq!(d.scale(), 8);
    let n = dec("-0.5");
    assert_eq!(n.mantissa(), -5);
    assert_eq!(n.scale(), 1);
    let w = dec("+18000");
    assert_eq!(w.mantissa(), 18000);
    assert_eq!(w.scale(), 0);
}

#[test]
fn parse_rejects_malformed_text() {
    for text in ["", "-", "+", ".", ".5", "5.", "1.2.3", "1e5", " 1", "1 ", "12a", "--1", "١"] {
        assert!(Decimal::parse(text).is_none(), "{:?}", text);
    }
}

#[test]
fn parse_enforces_the_range() {
    assert!(Decimal::parse("79228162514264337593543950335").is_some());
    assert!(Decimal::parse("79228162514264337593543950336").is_none());
    assert!(Decimal::parse("-79228162514264337593543950335").is_some());
    assert!(Decimal::parse("0.0000000000000000000000000001").is_some());
    assert!(Decimal::parse("0.00000000000000000000000000001").is_none());
}

#[test]
fn text_round_trips() {
    for text in ["0", "0.00", "1.50", "-1.50", "43250.12000000", "-0.001", "18000.0", "7"] {
        assert_eq!(dec(text).to_text(), text);
    }
    assert_eq!(dec("+5").to_text(), "5");
    assert_eq!(dec("-0").to_text(), "0");
    assert_eq!(dec("007").to_text(), "7");
}

#[test]
fn compare_is_by_amount() {
    assert_eq!(dec("1.50").compare(&dec("1.5")), Comparison::Equal);
    assert_eq!(dec("1.49").compare(&dec("1.5")), Comparison::Less);
    assert_eq!(dec("1.51").compare(&dec("1.5")), Comparison::Greater);
    assert_eq!(dec("-2").compare(&dec("-1.9999")), Comparison::Less);
    assert_eq!(dec("-1").compare(&dec("1")), Comparison::Less);
    assert_eq!(dec("0").compare(&dec("-0.00")), Comparison::Equal);
    assert_eq!(
        dec("79228162514264337593543950335").compare(&dec("7.9228162514264337593543950335")),
        Comparison::Greater
    );
    assert!(dec("18000").exceeds(&dec("10000.00")));
    assert!(!dec("9000").exceeds(&dec("10000.00")));
    assert!(!dec("10000").exceeds(&dec("10000.00")));
}

#[test]
fn minor_units_round_toward_zero() {
    assert_eq!(dec("1.239").to_minor_units(), 123);
    assert_eq!(dec("-1.239").to_minor_units(), -123);
    assert_eq!(dec("10000").to_minor_units(), 1_000_000);
    assert_eq!(dec("0.009").to_minor_units(), 0);
    assert_eq!(dec("-0.009").to_minor_units(), 0);
    assert_eq!(dec("-1.5").to_unsigned_minor_units(), 0);
    assert_eq!(dec("4.5").to_unsigned_minor_units(), 450);
    assert_eq!(dec("79228162514264337593543950335").to_minor_units(), i64::MAX);
    assert_eq!(dec("-79228162514264337593543950335").to_minor_units(), i64::MIN);
    assert_eq!(dec("79228162514264337593543950335").to_unsigned_minor_units(), u64::MAX);
    assert_eq!(Decimal::from_minor_units(1_000_000).to_text(), "10000.00");
}

#[test]
fn arithmetic_follows_rust_decimal() {
    assert_eq!(dec("2").checked_mul(&dec("9000.0")).unwrap().to_text(), "18000.0");
    assert_eq!(dec("4.50").checked_add(&dec("1.0")).unwrap().to_text(), "5.50");
    assert_eq!(dec("30100").checked_sub(&dec("30000")).unwrap().to_text(), "100");
    assert_eq!(dec("1").checked_div(&dec("4")).unwrap().to_text(), "0.25");
    assert!(dec("1").checked_div(&dec("0")).is_none());
    let max = dec("79228162514264337593543950335");
    assert!(max.checked_mul(&max).is_none());
    assert!(max.checked_add(&max).is_none());
}

#[test]
fn new_checks_both_parts() {
    assert!(Decimal::new(1, 28).is_some());
    assert!(Decimal::new(1, 29).is_none());
    assert!(Decimal::new(79_228_162_514_264_337_593_543_950_335, 0).is_some());
    assert!(Decimal::new(79_228_162_514_264_337_593_543_950_336, 0).is_none());
    assert!(Decimal::new(-79_228_162_514_264_337_593_543_950_336, 0).is_none());
}

#[test]
fn text_reads_back_as_the_same_decimal() {
    for (mantissa, scale) in [
        (0i128, 0u32),
        (0, 28),
        (5, 3),
        (-5, 3),
        (123_456, 2),
        (-1, 28),
        (79_228_162_514_264_337_593_543_950_335, 0),
        (-79_228_162_514_264_337_593_543_950_335, 28),
        (10_000, 4),
        (10_000, 5),
    ] {
        let d = Decimal::new(mantissa, scale).unwrap();
        assert_eq!(Decimal::parse(&d.to_text()), Some(d), "{}", d.to_text());
    }
    assert_eq!(Decimal::new(5, 3).unwrap().to_text(), "0.005");
    assert_eq!(Decimal::new(-1, 28).unwrap().to_text(), "-0.0000000000000000000000000001");
    assert_eq!(
        Decimal::new(-79_228_162_514_264_337_593_543_950_335, 28).unwrap().to_text(),
        "-7.9228162514264337593543950335"
    );
}

#[test]
fn hundredths_pass_through_unchanged() {
    for units in [0i64, 1, -1, 99, -99, 1_000_000, i64::MAX, i64::MIN] {
        assert_eq!(Decimal::from_minor_units(units).to_minor_units(), units);
    }
    for units in [0u64, 1, 450, u64::MAX] {
        assert_eq!(Decimal::from_unsigned_minor_units(units).to_unsigned_minor_units(), units);
    }
    assert_eq!(Decimal::from_unsigned_minor_units(u64::MAX).to_minor_units(), i64::MAX);
    assert_eq!(Decimal::from_i64(-3).to_text(), "-3");
    assert_eq!(Decimal::zero().to_text(), "0");
    assert_eq!(Decimal::max_value().to_text(), "79228162514264337593543950335");
    assert_eq!(Decimal::min_value().to_text(), "-79228162514264337593543950335");
    assert_eq!(Decimal::min_value().abs(), Decimal::max_value());
    assert!(Decimal::zero().is_zero() && !Decimal::zero().is_negative());
}

#[test]
fn saturating_arithmetic_holds_at_the_limits() {
    let max = Decimal::max_value();
    let min = Decimal::min_value();
    assert_eq!(max.saturating_mul(&max), max);
    assert_eq!(min.saturating_mul(&min), max);
    assert_eq!(max.saturating_mul(&min), min);
    assert_eq!(max.saturating_add(&max), max);
    assert_eq!(min.saturating_add(&min), min);
    assert_eq!(dec("1.5").saturating_add(&dec("2.25")).to_text(), "3.75");
    assert_eq!(dec("1.5").saturating_mul(&dec("-2")).to_text(), "-3.0");
    assert_eq!(dec("0").saturating_mul(&dec("9000.0")).to_text(), "0");
}
