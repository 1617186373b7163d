use egui_fbink::text::{font_path, has_nul, to_char, x8_to_string, FONT_PATH};

fn array(text: &[u8]) -> [u8; 32] {
    let mut out = [0u8; 32];
    for (i, b) in text.iter().enumerate() {
        out[i] = *b;
    }
    out
}

#[test]
fn a_name_ends_at_its_terminator() {
    assert_eq!(x8_to_string(&array(b"Kobo Clara HD")), "Kobo Clara HD");
}

#[test]
fn an_empty_array_is_an_empty_name() {
    assert_eq!(x8_to_string(&[0u8; 32]), "");
}

#[test]
fn a_full_array_is_a_name_of_thirty_two_characters() {
    assert_eq!(x8_to_string(&[b'x'; 32]), "x".repeat(32));
}

#[test]
fn nul_bytes_inside_a_name_are_left_out() {
    let mut bytes = array(b"ab");
    bytes[5] = b'c';
    bytes[31] = b'd';
    assert_eq!(x8_to_string(&bytes), "abcd");
}

#[test]
fn a_byte_is_the_character_with_its_code() {
    assert_eq!(to_char(b'A'), 'A');
    assert_eq!(to_char(0), '\0');
    assert_eq!(to_char(0xe9), '\u{e9}');
    assert_eq!(to_char(255), '\u{ff}');
    let mut bytes = [0u8; 32];
    bytes[0] = 0xe9;
    assert_eq!(x8_to_string(&bytes), "\u{e9}");
}

#[test]
fn a_font_is_looked_for_in_the_font_directory() {
    assert_eq!(FONT_PATH, "fonts/");
    assert_eq!(font_path("Sans.otf"), "fonts/Sans.otf");
    assert_eq!(font_path(""), "fonts/");
}

#[test]
fn a_nul_is_found_wherever_it_stands() {
    assert!(!has_nul(""));
    assert!(!has_nul("plain text, \u{e9} and \u{4e2d}"));
    assert!(has_nul("\0"));
    assert!(has_nul("a\0"));
    assert!(has_nul("\0a"));
    assert!(has_nul("\u{4e2d}\0\u{4e2d}"));
}
