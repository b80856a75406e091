use libanim::decimal::{push_decimal, to_decimal};

#[test]
fn decimal_of_zero() {
    assert_eq!(to_decimal(0), "0");
}

#[test]
fn decimal_of_single_digits() {
    let expected = ["0", "1", "2", "3", "4", "5", "6", "7", "8", "9"];
    let mut v: i64 = 0;
    while v < 10 {
        assert_eq!(to_decimal(v), expected[v as usize]);
        v += 1;
    }
}

#[test]
fn decimal_of_powers_of_ten() {
    assert_eq!(to_decimal(10), "10");
    assert_eq!(to_decimal(100), "100");
    assert_eq!(to_decimal(1_000_000), "1000000");
    assert_eq!(to_decimal(99), "99");
    assert_eq!(to_decimal(101), "101");
}

#[test]
fn decimal_of_frame_sizes() {
    assert_eq!(to_decimal(1920), "1920");
    assert_eq!(to_decimal(1080), "1080");
    assert_eq!(to_decimal(60), "60");
}

#[test]
fn decimal_of_negative_numbers() {
    assert_eq!(to_decimal(-1), "-1");
    assert_eq!(to_decimal(-10), "-10");
    assert_eq!(to_decimal(-2147483648), "-2147483648");
}

#[test]
fn decimal_of_the_extremes() {
    assert_eq!(to_decimal(i64::MAX), "9223372036854775807");
    assert_eq!(to_decimal(i64::MIN), "-9223372036854775808");
    assert_eq!(to_decimal(i64::MIN + 1), "-9223372036854775807");
}

#[test]
fn decimal_agrees_with_std_formatting() {
    let samples: [i64; 12] = [
        0,
        5,
        -5,
        42,
        -42,
        1234567890,
        -1234567890,
        4294967295,
        2147483647,
        -2147483648,
        i64::MAX,
        i64::MIN,
    ];
    for v in samples {
        assert_eq!(to_decimal(v), format!("{}", v));
    }
}

#[test]
fn push_decimal_appends_to_what_is_there() {
    let mut text = String::from("size=");
    push_decimal(&mut text, 640);
    assert_eq!(text, "size=640");
    push_decimal(&mut text, -480);
    assert_eq!(text, "size=640-480");
    push_decimal(&mut text, 0);
    assert_eq!(text, "size=640-4800");
}
