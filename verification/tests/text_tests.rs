use obsbot_cli::text::{
    buffer_text, push_decimal, push_digits, push_seconds, same_text, terminated_bytes, to_decimal,
    TEXT_BUFFER_LEN,
};

#[test]
fn decimal_of_small_numbers() {
    assert_eq!(to_decimal(0), "0");
    assert_eq!(to_decimal(7), "7");
    assert_eq!(to_decimal(10), "10");
    assert_eq!(to_decimal(109), "109");
    assert_eq!(to_decimal(4000), "4000");
}

#[test]
fn decimal_of_negative_numbers() {
    assert_eq!(to_decimal(-1), "-1");
    assert_eq!(to_decimal(-10), "-10");
    assert_eq!(to_decimal(-2147483648), "-2147483648");
}

#[test]
fn decimal_at_the_limits() {
    assert_eq!(to_decimal(i64::MAX), "9223372036854775807");
    assert_eq!(to_decimal(i64::MIN), "-9223372036854775808");
    assert_eq!(to_decimal(i64::MIN + 1), "-9223372036854775807");
}

#[test]
fn decimal_agrees_with_the_standard_rendering() {
    for n in [-1000i64, -999, -101, -11, -9, 0, 9, 11, 99, 100, 101, 12345, 1_000_000_007] {
        assert_eq!(to_decimal(n), n.to_string());
    }
}

#[test]
fn pushing_appends() {
    let mut out = String::from("x=");
    push_decimal(&mut out, -42);
    assert_eq!(out, "x=-42");
    push_digits(&mut out, 0);
    assert_eq!(out, "x=-420");
    push_digits(&mut out, u64::MAX);
    assert_eq!(out, "x=-42018446744073709551615");
    let mut out = String::from("t=");
    push_seconds(&mut out, 2250);
    assert_eq!(out, "t=2.25");
}

#[test]
fn same_text_compares_characters() {
    assert!(same_text("", ""));
    assert!(same_text("auto-frame", "auto-frame"));
    assert!(!same_text("auto-frame", "auto-fram"));
    assert!(!same_text("auto-frame", "auto-framf"));
    assert!(!same_text("Normal", "normal"));
    assert!(same_text("caf\u{e9}", "caf\u{e9}"));
    assert!(!same_text("caf\u{e9}", "cafe"));
}

#[test]
fn buffer_text_stops_at_the_first_zero() {
    assert_eq!(TEXT_BUFFER_LEN, 64);
    let mut buffer = [0u8; TEXT_BUFFER_LEN];
    buffer[..7].copy_from_slice(b"Meet SE");
    assert_eq!(buffer_text(&buffer), "Meet SE");
    buffer[8..12].copy_from_slice(b"junk");
    assert_eq!(buffer_text(&buffer), "Meet SE");
}

#[test]
fn buffer_text_of_an_empty_text() {
    assert_eq!(buffer_text(&[0u8; 64]), "");
    assert_eq!(buffer_text(&[]), "");
    assert_eq!(buffer_text(b"\0abc"), "");
}

#[test]
fn buffer_text_without_a_zero_takes_everything() {
    assert_eq!(buffer_text(b"RMSEA1234"), "RMSEA1234");
    assert_eq!(buffer_text(&[b'a'; 64]), "a".repeat(64));
}

#[test]
fn buffer_text_decodes_utf8() {
    assert_eq!(buffer_text("caf\u{e9} \u{4e2d}\0".as_bytes()), "caf\u{e9} \u{4e2d}");
}

#[test]
fn buffer_text_replaces_malformed_bytes() {
    assert_eq!(buffer_text(&[b'a', 0xff, b'b', 0, b'c']), "a\u{fffd}b");
    assert_eq!(buffer_text(&[0xc3, 0]), "\u{fffd}");
}

#[test]
fn terminated_bytes_are_those_before_the_zero() {
    assert_eq!(terminated_bytes(b"abc\0def\0"), b"abc");
    assert_eq!(terminated_bytes(b"abc"), b"abc");
    assert_eq!(terminated_bytes(b"\0"), b"");
    assert_eq!(terminated_bytes(b""), b"");
    assert_eq!(terminated_bytes(&[1, 2, 0, 0, 3]), &[1, 2]);
}
