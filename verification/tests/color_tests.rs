use movingtext::color::{format_hex_rgba, hex_cut_misaligned, parse_hex_rgba, parse_pair, ColorMode, Rgba8};

fn c(r: u8, g: u8, b: u8, a: u8) -> Rgba8 {
    Rgba8 { r, g, b, a }
}

#[test]
fn color_mode_default() {
    assert_eq!(ColorMode::default(), ColorMode::Hex);
}

#[test]
fn formats_upper_case_and_drops_opaque_alpha() {
    assert_eq!(format_hex_rgba(c(255, 255, 255, 255), false), "#FFFFFF");
    assert_eq!(format_hex_rgba(c(0x12, 0xab, 0x0, 0x80), false), "#12AB00");
    assert_eq!(format_hex_rgba(c(0x12, 0xab, 0x0, 0x80), true), "#12AB0080");
    assert_eq!(format_hex_rgba(c(1, 2, 3, 255), true), "#010203");
}

#[test]
fn parses_all_four_notations() {
    assert_eq!(parse_hex_rgba("#fa0"), Some(c(0xff, 0xaa, 0x00, 0xff)));
    assert_eq!(parse_hex_rgba("FA08"), Some(c(0xff, 0xaa, 0x00, 0x88)));
    assert_eq!(parse_hex_rgba("  #1e90ff "), Some(c(0x1e, 0x90, 0xff, 0xff)));
    assert_eq!(parse_hex_rgba("##1E90FF80"), Some(c(0x1e, 0x90, 0xff, 0x80)));
}

#[test]
fn rejects_bad_input() {
    assert_eq!(parse_hex_rgba(""), None);
    assert_eq!(parse_hex_rgba("#12345"), None);
    assert_eq!(parse_hex_rgba("#GG0000"), None);
    assert_eq!(parse_hex_rgba("#12 456"), None);
    assert_eq!(parse_hex_rgba("#+++"), None);
    assert_eq!(parse_hex_rgba("#-10000"), None);
}

#[test]
fn sign_quirk_of_radix_parsing() {
    // `u8::from_str_radix` accepts a leading plus sign on a digit pair.
    assert_eq!(parse_pair(b'+', b'f'), Some(15));
    assert_eq!(parse_pair(b'+', b'+'), None);
    assert_eq!(parse_hex_rgba("+f0000"), Some(c(15, 0, 0, 255)));
}

#[test]
fn non_ascii_digits() {
    // "é" takes two bytes; cut at byte 2 it is whole, and fails to parse.
    assert!(!hex_cut_misaligned("é0000"));
    assert_eq!(parse_hex_rgba("é0000"), None);
    // Here the first cut falls inside "é".
    assert!(hex_cut_misaligned("aé000"));
    assert!(!hex_cut_misaligned("#ffffff"));
}

#[test]
fn hex_roundtrip_examples() {
    for col in [c(0, 0, 0, 0), c(1, 2, 3, 4), c(255, 254, 16, 255), c(0x7f, 0x80, 0x9a, 0xfe)] {
        for alpha in [false, true] {
            let text = format_hex_rgba(col, alpha);
            let back = parse_hex_rgba(&text).unwrap();
            let expect = if alpha && col.a < 255 { col } else { Rgba8 { a: 255, ..col } };
            assert_eq!(back, expect, "{text}");
        }
    }
}
