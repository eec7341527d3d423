use cairo_runners::felt::Felt;
use cairo_runners::format::append_felt;
use cairo_runners::format::format_panic_values;
use cairo_runners::format::is_printable;
use cairo_runners::format::render_values;
use cairo_runners::strutil::str_ends_with;
use cairo_runners::strutil::str_eq;
use cairo_runners::strutil::u64_to_dec;

fn felt_of(tail: &[u8]) -> Felt {
    Felt::from_low_bytes(tail.to_vec())
}

#[test]
fn format_empty_payload_is_bare_brackets() {
    let out = format_panic_values(&vec![]);
    assert_eq!(out, "[]");
}

#[test]
fn format_short_string_is_quoted() {
    let mut s = String::new();
    append_felt(&mut s, &felt_of(b"hello"));
    assert_eq!(s, "'hello'");
}

#[test]
fn format_non_string_is_numeric() {
    let mut s = String::new();
    append_felt(&mut s, &felt_of(&[0x07]));
    assert_eq!(s, "0x7");
}

#[test]
fn format_interior_zero_is_numeric() {
    let mut s = String::new();
    append_felt(&mut s, &felt_of(&[0x41, 0x00, 0x42]));
    assert_eq!(s, "0x410042");
}

#[test]
fn format_zero_value() {
    let mut s = String::new();
    append_felt(&mut s, &felt_of(&[]));
    assert_eq!(s, "0x0");
}

#[test]
fn format_full_width_value_is_numeric() {
    // 32 significant printable bytes exceed the short-string width by one.
    let mut s = String::new();
    append_felt(&mut s, &felt_of(&[0x41u8; 32]));
    assert!(s.starts_with("0x41414141"));
    assert!(!s.contains('\''));
}

#[test]
fn format_joins_values_with_comma_space() {
    let out = format_panic_values(&vec![felt_of(b"ab"), felt_of(&[0x01])]);
    assert_eq!(out, "['ab', 0x1]");
}

#[test]
fn format_panic_payload_of_a_failing_run() {
    let out = format_panic_values(&vec![felt_of(b"good_error_has_occurred")]);
    assert_eq!(out, "['good_error_has_occurred']");
}

#[test]
fn render_success_values_are_not_interpreted_as_text() {
    let out = render_values(&vec![felt_of(b"hi"), felt_of(&[0x25])]);
    assert_eq!(out, "[0x6869, 0x25]");
}

#[test]
fn printable_byte_bounds() {
    assert!(is_printable(0x20));
    assert!(is_printable(0x7e));
    assert!(!is_printable(0x1f));
    assert!(!is_printable(0x7f));
}

#[test]
fn decimal_rendering() {
    assert_eq!(u64_to_dec(0), "0");
    assert_eq!(u64_to_dec(7), "7");
    assert_eq!(u64_to_dec(1234567890), "1234567890");
    assert_eq!(u64_to_dec(u64::MAX), "18446744073709551615");
}

#[test]
fn suffix_and_equality_tests() {
    assert!(str_ends_with("crate::lib::main", "::main"));
    assert!(!str_ends_with("crate::lib::mainx", "::main"));
    assert!(!str_ends_with("in", "::main"));
    assert!(str_eq("cairo", "cairo"));
    assert!(!str_eq("cairo", "cair"));
    assert!(!str_eq("cair", "cairo"));
}

#[test]
fn felt_low_word() {
    let f = felt_of(&[0x01, 0x00, 0x00, 0x00, 0x00, 0x00, 0x00, 0x00, 0x02]);
    assert_eq!(f.low_u64(), 2);
    let g = felt_of(&[0xff; 8]);
    assert_eq!(g.low_u64(), u64::MAX);
    assert_eq!(felt_of(&[]).low_u64(), 0);
}

#[test]
fn felt_equality_is_by_bytes() {
    assert!(felt_of(b"x").eq_felt(&felt_of(b"x")));
    assert!(!felt_of(b"x").eq_felt(&felt_of(b"y")));
    let d = felt_of(b"x").duplicate();
    assert!(d.eq_felt(&felt_of(b"x")));
}
