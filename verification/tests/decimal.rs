use room_booking::decimal::{decimal, parse_i32};

#[test]
fn decimal_text_reads_as_std_reads_it() {
    let texts = [
        "", "0", "7", "42", "-42", "+42", "-0", "+0", "007", "-007", "+", "-", "--1", "+-1", "-+1",
        "1-", "1+", " 1", "1 ", "1a", "a1", "12.5", "1e3", "0x10", "2147483647", "2147483648",
        "-2147483648", "-2147483649", "+2147483647", "+2147483648", "00000000000002147483647",
        "99999999999999999999999999", "-99999999999999999999999999", "\u{661}\u{662}", "1\u{e9}",
        "\u{ff11}", "4294967296", "-4294967296",
    ];
    for text in texts {
        assert_eq!(parse_i32(text), text.parse::<i32>().ok(), "{text:?}");
    }
}

#[test]
fn decimal_text_is_written_as_std_writes_it() {
    for value in [0, 1, -1, 9, 10, 11, 99, 100, 101, -10, 1_000_000, 42, -42, i32::MAX, i32::MIN] {
        assert_eq!(decimal(value), value.to_string());
    }
}

#[test]
fn reading_what_was_written_gives_the_integer_back() {
    let mut value: i32 = i32::MIN;
    loop {
        assert_eq!(parse_i32(&decimal(value)), Some(value));
        match value.checked_add(16_777_259) {
            Some(next) => value = next,
            None => break,
        }
    }
    for value in -1000..1000 {
        assert_eq!(parse_i32(&decimal(value)), Some(value));
    }
}

#[test]
fn bounds_of_the_range_are_read_exactly() {
    assert_eq!(parse_i32("2147483647"), Some(i32::MAX));
    assert_eq!(parse_i32("2147483648"), None);
    assert_eq!(parse_i32("-2147483648"), Some(i32::MIN));
    assert_eq!(parse_i32("-2147483649"), None);
    assert_eq!(decimal(i32::MIN), "-2147483648");
    assert_eq!(decimal(i32::MAX), "2147483647");
}
