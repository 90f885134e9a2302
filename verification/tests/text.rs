use setup_coding::text::{convert_output_to_string, decode_text, trim_text, DecodeError};

#[test]
fn output_is_decoded_and_trimmed() {
    let text = convert_output_to_string(b"amd64\n".to_vec());
    assert_eq!(text.ok(), Some("amd64".to_string()));
}

#[test]
fn output_loses_white_space_at_both_ends_only() {
    let text = convert_output_to_string(b" \t\r\n Linux  5.15 \n\n".to_vec());
    assert_eq!(text.ok(), Some("Linux  5.15".to_string()));
}

#[test]
fn empty_output_is_empty_text() {
    assert_eq!(convert_output_to_string(Vec::new()).ok(), Some(String::new()));
}

#[test]
fn output_of_white_space_alone_is_empty_text() {
    assert_eq!(convert_output_to_string(b"\n \n".to_vec()).ok(), Some(String::new()));
}

#[test]
fn invalid_utf8_is_a_decode_error() {
    let text = convert_output_to_string(vec![0x61, 0xff, 0x62]);
    assert!(matches!(text, Err(DecodeError {})));
}

#[test]
fn truncated_utf8_is_a_decode_error() {
    // the first two bytes of the three that encode U+20AC
    assert!(decode_text(vec![0xe2, 0x82]).is_err());
}

#[test]
fn decode_keeps_the_characters_that_the_bytes_encode() {
    let text = decode_text("jammy é €\n".as_bytes().to_vec());
    assert_eq!(text.ok(), Some("jammy é €\n".to_string()));
}

#[test]
fn trim_takes_unicode_white_space() {
    assert_eq!(trim_text("\u{a0}\u{2003}x86_64\u{3000}\u{85}"), "x86_64");
}

#[test]
fn trim_leaves_other_characters() {
    // U+200B, the zero width space, does not have the property White_Space
    assert_eq!(trim_text("\u{200b}a\u{200b}"), "\u{200b}a\u{200b}");
}
