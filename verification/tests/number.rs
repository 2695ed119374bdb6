use qa_service::number::{format_i32, parse_count, parse_i32, parse_usize, IntErrorKind};

fn kind_of(e: &std::num::ParseIntError) -> IntErrorKind {
    match e.kind() {
        std::num::IntErrorKind::Empty => IntErrorKind::Empty,
        std::num::IntErrorKind::InvalidDigit => IntErrorKind::InvalidDigit,
        std::num::IntErrorKind::PosOverflow => IntErrorKind::PosOverflow,
        std::num::IntErrorKind::NegOverflow => IntErrorKind::NegOverflow,
        other => panic!("unexpected kind {:?}", other),
    }
}

const SAMPLES: [&str; 40] = [
    "", "0", "1", "10", "007", "+5", "-5", "+", "-", "+-5", "-+5", "--5", "++5", " 5", "5 ",
    "5x", "x5", "1_000", "2147483647", "2147483648", "-2147483648", "-2147483649",
    "99999999999", "99999999999x", "999999999x9", "-99999999999", "-9999999999x", "x",
    "٣", "1٣", "0x10", "1e3", "1.0", "+0", "-0", "00000000000000000000001",
    "-00000000000000000002147483648", "18446744073709551615", "18446744073709551616",
    "+18446744073709551615",
];

#[test]
fn parse_i32_reads_plain_numbers() {
    assert_eq!(parse_i32("0"), Ok(0));
    assert_eq!(parse_i32("10"), Ok(10));
    assert_eq!(parse_i32("007"), Ok(7));
    assert_eq!(parse_i32("+5"), Ok(5));
    assert_eq!(parse_i32("-5"), Ok(-5));
    assert_eq!(parse_i32("2147483647"), Ok(i32::MAX));
    assert_eq!(parse_i32("-2147483648"), Ok(i32::MIN));
}

#[test]
fn parse_i32_names_each_failure() {
    assert_eq!(parse_i32(""), Err(IntErrorKind::Empty));
    assert_eq!(parse_i32("x"), Err(IntErrorKind::InvalidDigit));
    assert_eq!(parse_i32("+"), Err(IntErrorKind::InvalidDigit));
    assert_eq!(parse_i32("-"), Err(IntErrorKind::InvalidDigit));
    assert_eq!(parse_i32(" 5"), Err(IntErrorKind::InvalidDigit));
    assert_eq!(parse_i32("1_000"), Err(IntErrorKind::InvalidDigit));
    assert_eq!(parse_i32("2147483648"), Err(IntErrorKind::PosOverflow));
    assert_eq!(parse_i32("-2147483649"), Err(IntErrorKind::NegOverflow));
}

#[test]
fn parse_i32_reports_the_first_failure_from_the_left() {
    assert_eq!(parse_i32("99999999999x"), Err(IntErrorKind::PosOverflow));
    assert_eq!(parse_i32("999999999x9"), Err(IntErrorKind::InvalidDigit));
    assert_eq!(parse_i32("-9999999999x"), Err(IntErrorKind::NegOverflow));
}

#[test]
fn parse_i32_agrees_with_the_standard_library() {
    for text in SAMPLES {
        let expected = text.parse::<i32>().map_err(|e| kind_of(&e));
        assert_eq!(parse_i32(text), expected, "on {:?}", text);
    }
}

#[test]
fn parse_usize_agrees_with_the_standard_library() {
    for text in SAMPLES {
        let expected = text.parse::<usize>().map_err(|e| kind_of(&e));
        assert_eq!(parse_usize(text), expected, "on {:?}", text);
    }
}

#[test]
fn parse_count_reads_numbers_that_are_not_negative() {
    assert_eq!(parse_count("0"), Ok(0));
    assert_eq!(parse_count("+0"), Ok(0));
    assert_eq!(parse_count("-0"), Ok(0));
    assert_eq!(parse_count("-00"), Ok(0));
    assert_eq!(parse_count("10"), Ok(10));
    assert_eq!(parse_count("+5"), Ok(5));
    assert_eq!(parse_count("007"), Ok(7));
    assert_eq!(parse_count("2147483647"), Ok(i32::MAX));
}

#[test]
fn parse_count_takes_no_number_below_zero() {
    assert_eq!(parse_count("-1"), Err(IntErrorKind::NegOverflow));
    assert_eq!(parse_count("-01"), Err(IntErrorKind::NegOverflow));
    assert_eq!(parse_count("-2147483648"), Err(IntErrorKind::NegOverflow));
    assert_eq!(parse_count("-2147483649"), Err(IntErrorKind::NegOverflow));
}

#[test]
fn parse_count_fails_where_an_i32_does_not_read() {
    assert_eq!(parse_count(""), Err(IntErrorKind::Empty));
    assert_eq!(parse_count("-"), Err(IntErrorKind::InvalidDigit));
    assert_eq!(parse_count("x"), Err(IntErrorKind::InvalidDigit));
    assert_eq!(parse_count("-x"), Err(IntErrorKind::InvalidDigit));
    assert_eq!(parse_count("2147483648"), Err(IntErrorKind::PosOverflow));
    assert_eq!(parse_count("99999999999x"), Err(IntErrorKind::PosOverflow));
}

#[test]
fn parse_count_agrees_with_the_standard_library_from_zero_up() {
    for text in SAMPLES {
        let expected = match text.parse::<i32>() {
            Ok(v) if v < 0 => Err(IntErrorKind::NegOverflow),
            Ok(v) => Ok(v),
            Err(e) => Err(kind_of(&e)),
        };
        assert_eq!(parse_count(text), expected, "on {:?}", text);
    }
}

#[test]
fn parse_usize_takes_no_minus() {
    assert_eq!(parse_usize("5"), Ok(5));
    assert_eq!(parse_usize("+5"), Ok(5));
    assert_eq!(parse_usize("-5"), Err(IntErrorKind::InvalidDigit));
    assert_eq!(parse_usize("-0"), Err(IntErrorKind::InvalidDigit));
    assert_eq!(parse_usize(""), Err(IntErrorKind::Empty));
    assert_eq!(
        parse_usize("340282366920938463463374607431768211456"),
        Err(IntErrorKind::PosOverflow)
    );
}

#[test]
fn format_i32_writes_decimal() {
    assert_eq!(format_i32(0), "0");
    assert_eq!(format_i32(7), "7");
    assert_eq!(format_i32(10), "10");
    assert_eq!(format_i32(-1), "-1");
    assert_eq!(format_i32(1203), "1203");
    assert_eq!(format_i32(i32::MAX), "2147483647");
    assert_eq!(format_i32(i32::MIN), "-2147483648");
}

#[test]
fn format_i32_agrees_with_the_standard_library() {
    let mut n: i64 = i32::MIN as i64;
    while n <= i32::MAX as i64 {
        assert_eq!(format_i32(n as i32), (n as i32).to_string());
        n += 9_999_991;
    }
}

#[test]
fn what_was_written_reads_as_itself() {
    for n in [0, 1, -1, 9, 10, -10, 99, 100, 4711, -4711, i32::MAX, i32::MIN] {
        assert_eq!(parse_i32(&format_i32(n)), Ok(n));
    }
}

#[test]
fn int_error_messages_are_those_of_the_standard_library() {
    for text in ["", "x", "2147483648", "-2147483649"] {
        let std_error = text.parse::<i32>().unwrap_err();
        let kind = parse_i32(text).unwrap_err();
        assert_eq!(kind.message(), std_error.to_string());
    }
}
