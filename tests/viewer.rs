use modal_editor::viewer::{format_hex_view, gray_to_ascii, is_likely_binary};

#[test]
fn test_gray_to_ascii() {
    assert_eq!(gray_to_ascii(0), ' ');
    assert_eq!(gray_to_ascii(255), '@');
}

#[test]
fn gray_to_ascii_middle_values() {
    assert_eq!(gray_to_ascii(28), ' ');
    assert_eq!(gray_to_ascii(29), '.');
    assert_eq!(gray_to_ascii(128), '=');
}

#[test]
fn test_format_hex_view_empty() {
    let data: &[u8] = &[];
    let output = format_hex_view(data, false);

    assert!(output.contains("HEX VIEWER"));
    assert!(output.contains("Offset"));
}

#[test]
fn test_format_hex_view_small_data() {
    let data: &[u8] = &[0x48, 0x65, 0x6c, 0x6c, 0x6f];
    let output = format_hex_view(data, false);

    assert!(output.contains("48 65 6C 6C 6F") || output.contains("48 65 6c 6c 6f"));
    assert!(output.contains("Hello"));
}

#[test]
fn test_format_hex_view_truncated_flag() {
    let data: &[u8] = &[0x00, 0x01, 0x02];
    let output = format_hex_view(data, true);

    assert!(output.contains("NOTE: File is larger than 100MB"));
}

#[test]
fn test_format_hex_view_non_printable() {
    let data: &[u8] = &[0x00, 0x01, 0x02, 0x1F];
    let output = format_hex_view(data, false);

    assert!(output.contains("...."));
}

#[test]
fn hex_view_row_layout() {
    let data: Vec<u8> = (0u8..20).collect();
    let output = format_hex_view(&data, false);
    let rows: Vec<&str> = output.lines().filter(|l| l.starts_with("║ 0000")).collect();
    assert_eq!(rows.len(), 2);
    assert_eq!(
        rows[0],
        "║ 00000000  00 01 02 03 04 05 06 07  08 09 0A 0B 0C 0D 0E 0F  ................ ║"
    );
    assert_eq!(
        rows[1],
        "║ 00000010  10 11 12 13                                       ....             ║"
    );
    assert!(!output.contains("NOTE"));
    assert!(output.ends_with("╝\n"));
}

#[test]
fn test_is_likely_binary_empty() {
    assert!(!is_likely_binary(""));
}

#[test]
fn test_is_likely_binary_text() {
    let text = "Hello, World!\nThis is normal text.\n";
    assert!(!is_likely_binary(text));
}

#[test]
fn test_is_likely_binary_with_null() {
    let binary = "Hello\0World";
    assert!(is_likely_binary(binary));
}

#[test]
fn binary_by_control_ratio() {
    assert!(is_likely_binary("\u{1}\u{2}abcdefgh"));
    assert!(!is_likely_binary("\u{1}abcdefghi"));
    let mut late = "a".repeat(8192);
    late.push('\0');
    assert!(!is_likely_binary(&late));
}

use modal_editor::version::version_compatible;

#[test]
fn test_version_compatible() {
    assert!(version_compatible("1.0.0", "1.0.0"));
    assert!(version_compatible("1.1.0", "1.0.0"));
    assert!(version_compatible("2.0.0", "1.9.9"));
    assert!(!version_compatible("0.9.0", "1.0.0"));
    assert!(!version_compatible("1.0.0", "1.0.1"));
}

#[test]
fn version_parts_that_are_not_numbers_are_skipped() {
    assert!(version_compatible("1.2", "1.2.beta"));
    assert!(!version_compatible("1.2", "1.2.3"));
    assert!(version_compatible("1.+3", "1.3"));
    assert!(version_compatible("", ""));
    assert!(!version_compatible("", "0"));
}
