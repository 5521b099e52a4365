use slynqix::clock::format_clock;
use slynqix::decimal::{Amount, Decimal};
use slynqix::text::{i32_text, parse_i32, parse_i32_or_zero, ParseError};

fn hundredths(text: &str) -> Option<i64> {
    match Decimal::parse(text) {
        Ok(d) => Some(d.hundredths),
        Err(ParseError {}) => None,
    }
}

#[test]
fn fixed_text_has_two_decimals() {
    assert_eq!(Decimal::from_hundredths(9500).to_fixed(), "95.00");
    assert_eq!(Decimal::from_hundredths(-500).to_fixed(), "-5.00");
    assert_eq!(Decimal::from_hundredths(0).to_fixed(), "0.00");
    assert_eq!(Decimal::from_hundredths(5).to_fixed(), "0.05");
    assert_eq!(Decimal::from_hundredths(-5).to_fixed(), "-0.05");
    assert_eq!(Decimal::from_hundredths(50).to_fixed(), "0.50");
    assert_eq!(Decimal::from_hundredths(2458725).to_fixed(), "24587.25");
    assert_eq!(Decimal::from_hundredths(i64::MAX).to_fixed(), "92233720368547758.07");
    assert_eq!(Decimal::from_hundredths(i64::MIN).to_fixed(), "-92233720368547758.08");
}

#[test]
fn amount_text_covers_the_whole_range() {
    assert_eq!(Amount::from_hundredths(9500).to_fixed(), "95.00");
    assert_eq!(
        Amount::from_hundredths(i128::MAX).to_fixed(),
        "1701411834604692317316873037158841057.27"
    );
    assert_eq!(
        Amount::from_hundredths(i128::MIN).to_fixed(),
        "-1701411834604692317316873037158841057.28"
    );
    assert!(Amount::from_hundredths(0).is_positive());
    assert!(Amount::from_hundredths(1).is_positive());
    assert!(!Amount::from_hundredths(-1).is_positive());
}

#[test]
fn plain_text_drops_trailing_zeros() {
    assert_eq!(Decimal::from_hundredths(10000).to_plain(), "100");
    assert_eq!(Decimal::from_hundredths(10050).to_plain(), "100.5");
    assert_eq!(Decimal::from_hundredths(10025).to_plain(), "100.25");
    assert_eq!(Decimal::from_hundredths(10005).to_plain(), "100.05");
    assert_eq!(Decimal::from_hundredths(0).to_plain(), "0");
    assert_eq!(Decimal::from_hundredths(-70).to_plain(), "-0.7");
    assert_eq!(Decimal::from_hundredths(-1).to_plain(), "-0.01");
    assert_eq!(Decimal::from_hundredths(-300).to_plain(), "-3");
}

#[test]
fn decimal_parse_reads_hundredths() {
    assert_eq!(hundredths("100.00"), Some(10000));
    assert_eq!(hundredths("110"), Some(11000));
    assert_eq!(hundredths("5.5"), Some(550));
    assert_eq!(hundredths("5."), Some(500));
    assert_eq!(hundredths(".5"), Some(50));
    assert_eq!(hundredths(".05"), Some(5));
    assert_eq!(hundredths("+1.25"), Some(125));
    assert_eq!(hundredths("-1.25"), Some(-125));
    assert_eq!(hundredths("-0"), Some(0));
    assert_eq!(hundredths("-.5"), Some(-50));
    assert_eq!(hundredths("0007.10"), Some(710));
    assert_eq!(hundredths("00000000000000000000000000000000000001"), Some(100));
}

#[test]
fn decimal_parse_rejects_other_texts() {
    for text in [
        "", "+", "-", ".", "-.", "+.", "abc", "1.2.3", "1,5", " 1", "1 ", "--1", "+-1", "1-",
        "0x10", "inf", "NaN", "infinity", "-inf", "1.2a", "a.5", "٣", "1.٣", "e", "e1", "1e",
        "1e+", "1e-", ".e1", "-.e1", "1e1.5", "1e 2", "1ee2", "1e2e3", "1e+-2", "1e٣", "1_0",
    ] {
        assert_eq!(hundredths(text), None, "{}", format!("{:?}", text));
        assert_eq!(Decimal::parse_or_zero(text), Decimal::zero());
    }
    assert_eq!(Decimal::parse("x"), Err(ParseError {}));
}

#[test]
fn decimal_parse_rounds_what_lies_beyond_the_hundredths() {
    assert_eq!(hundredths("100.000"), Some(10000));
    assert_eq!(hundredths("1.234"), Some(123));
    assert_eq!(hundredths("1.235"), Some(124));
    assert_eq!(hundredths("1.2349999999999999999999999999999999999"), Some(123));
    assert_eq!(hundredths("0.255"), Some(26));
    assert_eq!(hundredths("-0.255"), Some(-26));
    assert_eq!(hundredths("-0.254"), Some(-25));
    assert_eq!(hundredths("0.005"), Some(1));
    assert_eq!(hundredths("0.0049"), Some(0));
    assert_eq!(hundredths("-0.0049"), Some(0));
    assert_eq!(hundredths("0.995"), Some(100));
    assert_eq!(hundredths("9.999"), Some(1000));
    assert_eq!(hundredths(".0050000"), Some(1));
    assert_eq!(hundredths("0.00000000000000000000000000000000000000000001"), Some(0));
    assert_eq!(hundredths("12.3400000000000000000000000000000000000000000"), Some(1234));
}

#[test]
fn decimal_parse_reads_exponents() {
    assert_eq!(hundredths("1e2"), Some(10000));
    assert_eq!(hundredths("1E2"), Some(10000));
    assert_eq!(hundredths("1e+2"), Some(10000));
    assert_eq!(hundredths("1e3"), Some(100000));
    assert_eq!(hundredths("1e0"), Some(100));
    assert_eq!(hundredths("1e-0"), Some(100));
    assert_eq!(hundredths("1e-1"), Some(10));
    assert_eq!(hundredths("1e-2"), Some(1));
    assert_eq!(hundredths("1e-3"), Some(0));
    assert_eq!(hundredths("5e-3"), Some(1));
    assert_eq!(hundredths("4.9e-3"), Some(0));
    assert_eq!(hundredths("49e-4"), Some(0));
    assert_eq!(hundredths("50e-4"), Some(1));
    assert_eq!(hundredths("-2.5e1"), Some(-2500));
    assert_eq!(hundredths(".5e1"), Some(500));
    assert_eq!(hundredths("5.e1"), Some(5000));
    assert_eq!(hundredths("12345e-2"), Some(12345));
    assert_eq!(hundredths("123456e-3"), Some(12346));
    assert_eq!(hundredths("1.5e0000000000000000000000000000002"), Some(15000));
    assert_eq!(hundredths("0.000000000000000000001e21"), Some(100));
    assert_eq!(hundredths("100000000000000000000e-20"), Some(100));
    assert_eq!(hundredths("0e99999999999999999999999999999"), Some(0));
    assert_eq!(hundredths("0.000e400"), Some(0));
    assert_eq!(hundredths("1e-99999999999999999999999999999"), Some(0));
    assert_eq!(hundredths("9e-400"), Some(0));
    assert_eq!(hundredths("1e16"), Some(1_000_000_000_000_000_000));
    assert_eq!(hundredths("9.2e16"), Some(9_200_000_000_000_000_000));
    assert_eq!(hundredths("9.3e16"), None);
    assert_eq!(hundredths("1e17"), None);
    assert_eq!(hundredths("1e19"), None);
    assert_eq!(hundredths("1e21"), None);
    assert_eq!(hundredths("1e22"), None);
    assert_eq!(hundredths("1e400"), None);
    assert_eq!(hundredths("-1e400"), None);
    assert_eq!(hundredths("1e99999999999999999999999999999"), None);
    assert_eq!(hundredths("0.1e99999999999999999999999999999"), None);
}

#[test]
fn decimal_grammar_agrees_with_float_parsing() {
    for text in [
        "", "+", "-", ".", "1", "+1", "-1", "1.", ".1", "1.5", "1.50000", "1e2", "1E2", "1e+2",
        "1e-2", "1e", "1e+", "e1", ".e1", "1.e1", ".1e1", "1e1.5", "1.2.3", "1,5", " 1", "1 ",
        "--1", "0x10", "1_0", "1f", "1e2e3", "+.5", "-.5e-1", "00.00", "1d", "٣",
    ] {
        let float = text.parse::<f64>().ok();
        assert_eq!(hundredths(text).is_some(), float.is_some(), "{}", format!("{:?}", text));
        if let (Some(ours), Some(theirs)) = (hundredths(text), float) {
            assert_eq!(ours, (theirs * 100.0).round() as i64, "{}", format!("{:?}", text));
        }
    }
}

#[test]
fn decimal_parse_stops_at_the_range_of_the_type() {
    assert_eq!(hundredths("92233720368547758.07"), Some(i64::MAX));
    assert_eq!(hundredths("92233720368547758.074"), Some(i64::MAX));
    assert_eq!(hundredths("92233720368547758.075"), None);
    assert_eq!(hundredths("92233720368547758.08"), None);
    assert_eq!(hundredths("-92233720368547758.084"), Some(i64::MIN));
    assert_eq!(hundredths("-92233720368547758.085"), None);
    assert_eq!(hundredths("-92233720368547758.08"), Some(i64::MIN));
    assert_eq!(hundredths("-92233720368547758.09"), None);
    assert_eq!(hundredths("92233720368547759"), None);
    assert_eq!(hundredths("1000000000000000000000"), None);
    assert_eq!(hundredths("1000000000000000000001"), None);
    assert_eq!(hundredths("99999999999999999999999999999999999999999999999999"), None);
    assert_eq!(
        Decimal::parse_or_zero("92233720368547758.07"),
        Decimal::from_hundredths(i64::MAX)
    );
}

#[test]
fn parse_and_format_round_trip() {
    for v in [0i64, 1, -1, 99, 100, -100, 101, 12345, -98765, i64::MAX, i64::MIN] {
        let d = Decimal::from_hundredths(v);
        assert_eq!(Decimal::parse(&d.to_fixed()), Ok(d));
        assert_eq!(Decimal::parse(&d.to_plain()), Ok(d));
    }
}

#[test]
fn integer_parse_reads_whole_numbers() {
    assert_eq!(parse_i32("10"), Ok(10));
    assert_eq!(parse_i32("0"), Ok(0));
    assert_eq!(parse_i32("-0"), Ok(0));
    assert_eq!(parse_i32("+7"), Ok(7));
    assert_eq!(parse_i32("-12"), Ok(-12));
    assert_eq!(parse_i32("007"), Ok(7));
    assert_eq!(parse_i32("2147483647"), Ok(i32::MAX));
    assert_eq!(parse_i32("-2147483648"), Ok(i32::MIN));
    assert_eq!(parse_i32("2147483648"), Err(ParseError {}));
    assert_eq!(parse_i32("-2147483649"), Err(ParseError {}));
    assert_eq!(parse_i32("99999999999999999999999999999"), Err(ParseError {}));
    for text in ["", "+", "-", "1.0", "1.", "ten", " 1", "1 ", "1e2", "+-1", "٣"] {
        assert_eq!(parse_i32(text), Err(ParseError {}));
        assert_eq!(parse_i32_or_zero(text), 0);
    }
    assert_eq!(parse_i32_or_zero("-45"), -45);
}

#[test]
fn integer_parse_agrees_with_std() {
    for text in ["10", "-3", "+4", "", "-", "2147483648", "-2147483648", "1x", "0000", "1_000"] {
        assert_eq!(parse_i32(text).ok(), text.parse::<i32>().ok(), "{}", format!("{:?}", text));
    }
}

#[test]
fn integer_text_matches_display() {
    for v in [0, 1, -1, 10, -10, 12345, i32::MAX, i32::MIN] {
        assert_eq!(i32_text(v), format!("{}", v));
        assert_eq!(parse_i32(&i32_text(v)), Ok(v));
    }
}

#[test]
fn texts_outside_ascii_are_read_by_character() {
    assert_eq!(parse_i32("₹1"), Err(ParseError {}));
    assert_eq!(parse_i32("1₹"), Err(ParseError {}));
    assert_eq!(hundredths("₹1.00"), None);
    assert_eq!(hundredths("1.0₹"), None);
    assert_eq!(hundredths("1\u{2e}5"), Some(150));
}

#[test]
fn clock_pads_each_part_to_two_digits() {
    assert_eq!(format_clock(0, 0, 0), "00:00:00");
    assert_eq!(format_clock(9, 5, 7), "09:05:07");
    assert_eq!(format_clock(23, 59, 59), "23:59:59");
    assert_eq!(format_clock(10, 0, 30), "10:00:30");
    assert_eq!(format_clock(123, 4, 4294967295), "123:04:4294967295");
    assert_eq!(format_clock(7, 8, 9), format!("{:02}:{:02}:{:02}", 7, 8, 9));
}

#[test]
fn decimal_polarity_counts_zero_as_positive() {
    assert!(Decimal::zero().is_positive());
    assert!(Decimal::from_hundredths(1).is_positive());
    assert!(!Decimal::from_hundredths(-1).is_positive());
    assert_eq!(Decimal::zero(), Decimal::from_hundredths(0));
}
