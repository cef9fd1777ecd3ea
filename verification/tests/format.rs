use frontend::text::str_is_blank;
use frontend::format::{format_duration, push_decimal, push_two_digits};

#[test]
fn duration_examples() {
    assert_eq!(format_duration(3661), "01:01:01");
    assert_eq!(format_duration(0), "00:00:00");
    assert_eq!(format_duration(59), "00:00:59");
    assert_eq!(format_duration(86399), "23:59:59");
    assert_eq!(format_duration(360000), "100:00:00");
}

#[test]
fn decimals() {
    let mut s = String::from("x=");
    push_decimal(&mut s, 1234567890);
    assert_eq!(s, "x=1234567890");
    let mut s = String::new();
    push_decimal(&mut s, 0);
    assert_eq!(s, "0");
    let mut s = String::new();
    push_two_digits(&mut s, 7);
    push_two_digits(&mut s, 42);
    push_two_digits(&mut s, 123);
    assert_eq!(s, "0742123");
}

#[test]
fn blank_text_matches_trim() {
    for s in ["", " ", "\t\r\n", "\u{85}\u{2028}\u{205f}", " a ", "x", "\u{200b}"] {
        assert_eq!(str_is_blank(s), s.trim().is_empty(), "{:?}", s);
    }
}
