use interaction::decimal::append_decimal;

fn written(n: u64) -> String {
    let mut out = String::new();
    append_decimal(&mut out, n);
    out
}

#[test]
fn zero_is_written_as_one_digit() {
    assert_eq!(written(0), "0");
}

#[test]
fn single_digits_are_written_as_themselves() {
    assert_eq!(written(1), "1");
    assert_eq!(written(5), "5");
    assert_eq!(written(9), "9");
}

#[test]
fn ten_starts_the_two_digit_numbers() {
    assert_eq!(written(10), "10");
    assert_eq!(written(99), "99");
    assert_eq!(written(100), "100");
}

#[test]
fn every_digit_is_written_in_its_place() {
    assert_eq!(written(1234567890), "1234567890");
}

#[test]
fn largest_number_is_written_in_full() {
    assert_eq!(written(u64::MAX), "18446744073709551615");
}

#[test]
fn decimal_is_appended_after_what_was_there() {
    let mut out = String::from("n=");
    append_decimal(&mut out, 1705);
    assert_eq!(out, "n=1705");
    append_decimal(&mut out, 0);
    assert_eq!(out, "n=17050");
}

#[test]
fn decimal_agrees_with_the_standard_notation() {
    let samples: [u64; 8] = [0, 7, 42, 1000, 65535, 4294967295, 1700000000, u64::MAX - 1];
    for n in samples {
        assert_eq!(written(n), n.to_string());
    }
}
