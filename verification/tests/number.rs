use redshift_rs::number::{
    digit_of, digit_text, parse_decimal, parse_i32, render_int, render_micro, render_nat,
    DecimalError, IntError,
};
use redshift_rs::text::{find_from, part_of, split_colons};

#[test]
fn whole_numbers_are_read() {
    assert_eq!(parse_i32("0"), Ok(0));
    assert_eq!(parse_i32("5500"), Ok(5500));
    assert_eq!(parse_i32("+5500"), Ok(5500));
    assert_eq!(parse_i32("-3500"), Ok(-3500));
    assert_eq!(parse_i32("-0"), Ok(0));
    assert_eq!(parse_i32("0000000000000000000042"), Ok(42));
    assert_eq!(parse_i32("2147483647"), Ok(i32::MAX));
    assert_eq!(parse_i32("-2147483648"), Ok(i32::MIN));
}

#[test]
fn whole_numbers_are_refused() {
    assert_eq!(parse_i32(""), Err(IntError::Empty));
    assert_eq!(parse_i32("+"), Err(IntError::InvalidDigit));
    assert_eq!(parse_i32("-"), Err(IntError::InvalidDigit));
    assert_eq!(parse_i32("12a"), Err(IntError::InvalidDigit));
    assert_eq!(parse_i32(" 12"), Err(IntError::InvalidDigit));
    assert_eq!(parse_i32("1.5"), Err(IntError::InvalidDigit));
    assert_eq!(parse_i32("--1"), Err(IntError::InvalidDigit));
    assert_eq!(parse_i32("\u{663}"), Err(IntError::InvalidDigit));
    assert_eq!(parse_i32("2147483648"), Err(IntError::PosOverflow));
    assert_eq!(parse_i32("+99999999999999999999999999"), Err(IntError::PosOverflow));
    assert_eq!(parse_i32("-2147483649"), Err(IntError::NegOverflow));
    assert_eq!(parse_i32("-99999999999999999999999999"), Err(IntError::NegOverflow));
}

#[test]
fn whole_numbers_agree_with_the_standard_reader() {
    for text in ["7", "-7", "+7", "007", "", "-", "x", "4294967296", "-4294967296", "1e3"] {
        assert_eq!(parse_i32(text).ok(), text.parse::<i32>().ok());
    }
}

#[test]
fn decimals_are_read_as_millionths() {
    assert_eq!(parse_decimal("1"), Ok(1_000_000));
    assert_eq!(parse_decimal("1.0"), Ok(1_000_000));
    assert_eq!(parse_decimal("0.1"), Ok(100_000));
    assert_eq!(parse_decimal(".5"), Ok(500_000));
    assert_eq!(parse_decimal("5."), Ok(5_000_000));
    assert_eq!(parse_decimal("-6.0"), Ok(-6_000_000));
    assert_eq!(parse_decimal("+3"), Ok(3_000_000));
    assert_eq!(parse_decimal("55.7"), Ok(55_700_000));
    assert_eq!(parse_decimal("12.600000"), Ok(12_600_000));
    assert_eq!(parse_decimal("0.000001"), Ok(1));
    assert_eq!(parse_decimal("0.0000019"), Ok(1));
    assert_eq!(parse_decimal("-0.0000019"), Ok(-1));
    assert_eq!(parse_decimal("0.1234567890123456789012345"), Ok(123_456));
    assert_eq!(parse_decimal("-0.833"), Ok(-833_000));
    assert_eq!(parse_decimal("-0"), Ok(0));
    assert_eq!(parse_decimal("007.25"), Ok(7_250_000));
    assert_eq!(parse_decimal("9223372036854.775807"), Ok(i64::MAX));
    assert_eq!(parse_decimal("-9223372036854.775808"), Ok(i64::MIN));
}

#[test]
fn decimals_are_refused() {
    assert_eq!(parse_decimal(""), Err(DecimalError::Empty));
    assert_eq!(parse_decimal("."), Err(DecimalError::Invalid));
    assert_eq!(parse_decimal("-"), Err(DecimalError::Invalid));
    assert_eq!(parse_decimal("+."), Err(DecimalError::Invalid));
    assert_eq!(parse_decimal("1.2.3"), Err(DecimalError::Invalid));
    assert_eq!(parse_decimal("1,5"), Err(DecimalError::Invalid));
    assert_eq!(parse_decimal("1e3"), Err(DecimalError::Invalid));
    assert_eq!(parse_decimal("abc"), Err(DecimalError::Invalid));
    assert_eq!(parse_decimal("1 "), Err(DecimalError::Invalid));
    assert_eq!(parse_decimal("1.-5"), Err(DecimalError::Invalid));
    assert_eq!(parse_decimal("9223372036854.775808"), Err(DecimalError::Invalid));
    assert_eq!(parse_decimal("-9223372036854.775809"), Err(DecimalError::Invalid));
    assert_eq!(parse_decimal("9223372036855"), Err(DecimalError::Invalid));
    assert_eq!(parse_decimal("99999999999999999999999999999999"), Err(DecimalError::Invalid));
}

#[test]
fn numbers_are_written() {
    assert_eq!(render_nat(0), "0");
    assert_eq!(render_nat(9), "9");
    assert_eq!(render_nat(10), "10");
    assert_eq!(render_nat(25_000), "25000");
    assert_eq!(render_nat(u64::MAX), "18446744073709551615");
    assert_eq!(render_int(0), "0");
    assert_eq!(render_int(-1), "-1");
    assert_eq!(render_int(6500), "6500");
    assert_eq!(render_int(i64::MIN), "-9223372036854775808");
    assert_eq!(render_int(i64::MAX), "9223372036854775807");
}

#[test]
fn millionths_are_written_as_decimals() {
    assert_eq!(render_micro(0), "0");
    assert_eq!(render_micro(1_000_000), "1");
    assert_eq!(render_micro(10_000_000), "10");
    assert_eq!(render_micro(100_000), "0.1");
    assert_eq!(render_micro(55_700_000), "55.7");
    assert_eq!(render_micro(-833_000), "-0.833");
    assert_eq!(render_micro(1), "0.000001");
    assert_eq!(render_micro(-1), "-0.000001");
    assert_eq!(render_micro(1_050_000), "1.05");
    assert_eq!(render_micro(123_456_789), "123.456789");
    assert_eq!(render_micro(700_100), "0.7001");
    assert_eq!(render_micro(i64::MAX), "9223372036854.775807");
    assert_eq!(render_micro(i64::MIN), "-9223372036854.775808");
}

#[test]
fn written_decimals_are_read_back() {
    for value in [0, 1, -1, 999_999, 1_000_000, -1_000_001, 42_424_242, i64::MAX, i64::MIN] {
        assert_eq!(parse_decimal(&render_micro(value)), Ok(value));
    }
    for value in [0, 7, -7, 1000, 25_000, i32::MAX, i32::MIN] {
        assert_eq!(parse_i32(&render_int(value as i64)), Ok(value));
    }
}

#[test]
fn digits() {
    let all = ["0", "1", "2", "3", "4", "5", "6", "7", "8", "9"];
    for (value, text) in all.iter().enumerate() {
        assert_eq!(digit_text(value as u8), *text);
        assert_eq!(digit_of(text.chars().next().unwrap()), Some(value as u8));
    }
    assert_eq!(digit_of('/'), None);
    assert_eq!(digit_of(':'), None);
    assert_eq!(digit_of('a'), None);
    assert_eq!(digit_of('\u{0661}'), None);
}

#[test]
fn texts_are_cut_at_colons() {
    assert_eq!(split_colons("5500:3500"), vec!["5500", "3500"]);
    assert_eq!(split_colons("5500"), vec!["5500"]);
    assert_eq!(split_colons(""), vec![""]);
    assert_eq!(split_colons(":"), vec!["", ""]);
    assert_eq!(split_colons("a::b:"), vec!["a", "", "b", ""]);
    assert_eq!(split_colons("gr\u{fc}n:bl\u{e4}u"), vec!["gr\u{fc}n", "bl\u{e4}u"]);
    for text in ["", ":", "1:2:3", "::", "ab", ":ab", "ab:"] {
        assert_eq!(split_colons(text), text.split(':').collect::<Vec<&str>>());
    }
    let chars: Vec<char> = "ab:cd:".chars().collect();
    assert_eq!(find_from(&chars, ':', 0), 2);
    assert_eq!(find_from(&chars, ':', 2), 2);
    assert_eq!(find_from(&chars, ':', 3), 5);
    assert_eq!(find_from(&chars, ':', 6), 6);
    assert_eq!(find_from(&chars, '.', 0), 6);
    assert_eq!(part_of("gamma: ", "x", "1:x:2"), "gamma: x (of 1:x:2)");
}
