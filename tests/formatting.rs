use photo_exif::format::{format_value, strip_trailing_nuls, RawValue};
use photo_exif::text::{render_decimal, render_list, render_signed};

#[test]
fn ascii_drops_trailing_nul() {
    let v = RawValue::Ascii(vec![vec![0x41, 0x42, 0x00]]);
    assert_eq!(format_value(&v), "AB");
}

#[test]
fn ascii_uses_first_piece_only() {
    let v = RawValue::Ascii(vec![b"first".to_vec(), b"second".to_vec()]);
    assert_eq!(format_value(&v), "first");
}

#[test]
fn ascii_without_pieces_is_empty() {
    assert_eq!(format_value(&RawValue::Ascii(vec![])), "");
}

#[test]
fn ascii_of_only_nuls_is_empty() {
    assert_eq!(format_value(&RawValue::Ascii(vec![vec![0, 0, 0]])), "");
}

#[test]
fn ascii_keeps_leading_nul() {
    assert_eq!(format_value(&RawValue::Ascii(vec![vec![0, 0x43, 0]])), "\0C");
}

#[test]
fn ascii_replaces_invalid_utf8() {
    let v = RawValue::Ascii(vec![vec![0x41, 0xff, 0x42]]);
    assert_eq!(format_value(&v), "A\u{FFFD}B");
}

#[test]
fn ascii_decodes_utf8() {
    let v = RawValue::Ascii(vec!["Caf\u{e9}\0".as_bytes().to_vec()]);
    assert_eq!(format_value(&v), "Caf\u{e9}");
}

#[test]
fn rational_single_pair() {
    assert_eq!(format_value(&RawValue::Rational(vec![(1, 200)])), "1/200");
}

#[test]
fn rational_list() {
    let v = RawValue::Rational(vec![(1, 2), (3, 4)]);
    assert_eq!(format_value(&v), "[1/2, 3/4]");
}

#[test]
fn srational_negative() {
    assert_eq!(format_value(&RawValue::SRational(vec![(-1, 3)])), "-1/3");
    let v = RawValue::SRational(vec![(i32::MIN, -7), (0, 1)]);
    assert_eq!(format_value(&v), "[-2147483648/-7, 0/1]");
}

#[test]
fn short_single_and_list() {
    assert_eq!(format_value(&RawValue::Short(vec![6])), "6");
    assert_eq!(format_value(&RawValue::Short(vec![1, 22, 333])), "[1, 22, 333]");
    assert_eq!(format_value(&RawValue::Short(vec![])), "[]");
}

#[test]
fn long_single_and_list() {
    assert_eq!(format_value(&RawValue::Long(vec![4294967295])), "4294967295");
    assert_eq!(format_value(&RawValue::Long(vec![0, 10])), "[0, 10]");
}

#[test]
fn undefined_long_is_summarised() {
    let v = RawValue::Undefined(vec![7u8; 40]);
    assert_eq!(format_value(&v), "data length: 40 bytes");
}

#[test]
fn undefined_short_is_listed() {
    let v = RawValue::Undefined((0u8..10).collect());
    assert_eq!(format_value(&v), "[0, 1, 2, 3, 4, 5, 6, 7, 8, 9]");
}

#[test]
fn undefined_boundary_at_32_bytes() {
    let listed = format_value(&RawValue::Undefined(vec![255u8; 32]));
    assert!(listed.starts_with("[255, 255"));
    assert!(listed.ends_with("255]"));
    assert_eq!(format_value(&RawValue::Undefined(vec![255u8; 33])), "data length: 33 bytes");
}

#[test]
fn other_kind_keeps_its_text() {
    assert_eq!(format_value(&RawValue::Other("Byte([1, 2])".to_string())), "Byte([1, 2])");
}

#[test]
fn strip_nuls_only_at_end() {
    assert_eq!(strip_trailing_nuls("ab\0\0"), "ab");
    assert_eq!(strip_trailing_nuls("a\0b"), "a\0b");
    assert_eq!(strip_trailing_nuls(""), "");
}

#[test]
fn decimal_rendering() {
    assert_eq!(render_decimal(0), "0");
    assert_eq!(render_decimal(1234567890), "1234567890");
    assert_eq!(render_decimal(u64::MAX), "18446744073709551615");
    assert_eq!(render_signed(-45), "-45");
    assert_eq!(render_signed(i64::MIN), "-9223372036854775808");
}

#[test]
fn list_rendering() {
    assert_eq!(render_list(&vec![]), "[]");
    assert_eq!(render_list(&vec!["a".to_string()]), "[a]");
    assert_eq!(render_list(&vec!["a".to_string(), "b".to_string()]), "[a, b]");
}
