use lottery_bot::discord::retry_string;
use lottery_bot::engine::join;
use lottery_bot::text::push_decimal;
use lottery_bot::text::push_signed_decimal;
use lottery_bot::unhandled;

fn dec(n: u128) -> String {
    let mut s = String::new();
    push_decimal(&mut s, n);
    s
}

fn sdec(n: i128) -> String {
    let mut s = String::new();
    push_signed_decimal(&mut s, n);
    s
}

#[test]
fn decimal_of_small_numbers() {
    assert_eq!(dec(0), "0");
    assert_eq!(dec(7), "7");
    assert_eq!(dec(9), "9");
    assert_eq!(dec(10), "10");
    assert_eq!(dec(42), "42");
    assert_eq!(dec(100), "100");
    assert_eq!(dec(10009), "10009");
}

#[test]
fn decimal_of_large_numbers() {
    assert_eq!(dec(u64::MAX as u128), "18446744073709551615");
    assert_eq!(dec(u128::MAX), "340282366920938463463374607431768211455");
}

#[test]
fn decimal_agrees_with_the_standard_formatting() {
    for n in 0..3000u128 {
        assert_eq!(dec(n), n.to_string());
    }
    for n in -3000..3000i128 {
        assert_eq!(sdec(n), n.to_string());
    }
}

#[test]
fn decimal_appends() {
    let mut s = "n=".to_string();
    push_decimal(&mut s, 15);
    assert_eq!(s, "n=15");
    push_signed_decimal(&mut s, -3);
    assert_eq!(s, "n=15-3");
}

#[test]
fn signed_decimal_extremes() {
    assert_eq!(sdec(0), "0");
    assert_eq!(sdec(-1), "-1");
    assert_eq!(sdec(i64::MIN as i128), "-9223372036854775808");
    assert_eq!(sdec(i128::MAX), "170141183460469231731687303715884105727");
    assert_eq!(sdec(i128::MIN), "-170141183460469231731687303715884105728");
}

#[test]
fn join_concatenates() {
    assert_eq!(join("ab", "cd"), "abcd");
    assert_eq!(join("", ""), "");
}

#[test]
fn unhandled_quotes_the_path() {
    assert_eq!(unhandled("/unknown/path"), "No handler defined for route \"/unknown/path\"");
    assert_eq!(unhandled(""), "No handler defined for route \"\"");
    assert_eq!(unhandled("/a\"b\\c"), "No handler defined for route \"/a\\\"b\\\\c\"");
}

#[test]
fn retry_time_in_words() {
    assert_eq!(retry_string(1000 + 4 * 3600), "1970-01-01T04:16:40");
    assert_eq!(retry_string(0), "1970-01-01T00:00:00");
    assert_eq!(retry_string(1_600_000_000), "2020-09-13T12:26:40");
    assert_eq!(retry_string(-1), "1969-12-31T23:59:59");
}

#[test]
fn retry_time_beyond_the_calendar_is_a_number() {
    assert_eq!(retry_string(i64::MAX as i128), "epoch second 9223372036854775807");
    assert_eq!(retry_string(i64::MAX as i128 + 1), "epoch second 9223372036854775808");
    assert_eq!(retry_string(i64::MIN as i128 - 1), "epoch second -9223372036854775809");
}

#[test]
fn decimal_text_is_a_numeral() {
    for n in [0u128, 5, 10, 99, 100, 101, 9_999_999, u128::MAX] {
        let text = dec(n);
        assert!(text.chars().all(|c| c.is_ascii_digit()));
        assert_eq!(text.starts_with('0'), n == 0);
        assert_eq!(text.parse::<u128>().unwrap(), n);
    }
}
