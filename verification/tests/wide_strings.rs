use lib::resource::make_int_resource_w;
use lib::wide::{decode_message, wide_null, UNDECODABLE};

#[test]
fn wide_null_ascii() {
    assert_eq!(wide_null("New Window"), vec![78, 101, 119, 32, 87, 105, 110, 100, 111, 119, 0]);
}

#[test]
fn wide_null_empty_is_just_the_terminator() {
    assert_eq!(wide_null(""), vec![0]);
}

#[test]
fn wide_null_basic_plane() {
    // U+00E9 and U+20AC take one unit each.
    assert_eq!(wide_null("\u{e9}\u{20ac}"), vec![0x00E9, 0x20AC, 0]);
}

#[test]
fn wide_null_surrogate_pair() {
    // U+1F600 is outside the basic plane.
    assert_eq!(wide_null("a\u{1F600}"), vec![0x61, 0xD83D, 0xDE00, 0]);
    assert_eq!(wide_null("\u{10FFFF}"), vec![0xDBFF, 0xDFFF, 0]);
    assert_eq!(wide_null("\u{10000}"), vec![0xD800, 0xDC00, 0]);
}

#[test]
fn wide_null_matches_std_encoding() {
    let s = "Fen\u{ea}tre \u{1F4A1} \u{4e2d}\u{6587}";
    let mut expected: Vec<u16> = s.encode_utf16().collect();
    expected.push(0);
    assert_eq!(wide_null(s), expected);
}

#[test]
fn decode_message_round_trip() {
    let s = "Access is denied. \u{1F512} \u{e9}";
    let units: Vec<u16> = s.encode_utf16().collect();
    assert_eq!(decode_message(&units), s);
}

#[test]
fn decode_message_drops_line_breaks() {
    let units: Vec<u16> = "The operation completed successfully.\r\n".encode_utf16().collect();
    assert_eq!(decode_message(&units), "The operation completed successfully.");
    let units: Vec<u16> = "a\rb\nc".encode_utf16().collect();
    assert_eq!(decode_message(&units), "abc");
}

#[test]
fn decode_message_unpaired_surrogates() {
    // A high surrogate followed by an ordinary unit: the unit survives.
    let units = [0xD83D, 0x41];
    let expected: String = [UNDECODABLE, 'A'].iter().collect();
    assert_eq!(decode_message(&units), expected);
    // A lone low surrogate.
    let units = [0x41, 0xDE00, 0x42];
    let expected: String = ['A', UNDECODABLE, 'B'].iter().collect();
    assert_eq!(decode_message(&units), expected);
    // A high surrogate at the end.
    let units = [0x41, 0xD800];
    let expected: String = ['A', UNDECODABLE].iter().collect();
    assert_eq!(decode_message(&units), expected);
    // Two high surrogates, then a low one: the second pair decodes.
    let units = [0xD83D, 0xD83D, 0xDE00];
    let expected: String = [UNDECODABLE, '\u{1F600}'].iter().collect();
    assert_eq!(decode_message(&units), expected);
}

#[test]
fn decode_message_agrees_with_std_lossy_decoding() {
    let units = [0x48, 0xD800, 0x69, 0xDFFF, 0xD83D, 0xDE00, 0x0D, 0x0A, 0x21];
    let expected: String = std::char::decode_utf16(units.iter().copied())
        .map(|r| r.unwrap_or(UNDECODABLE))
        .filter(|c| *c != '\r' && *c != '\n')
        .collect();
    assert_eq!(decode_message(&units), expected);
}

#[test]
fn undecodable_is_the_apl_comment_sign() {
    assert_eq!(UNDECODABLE, '\u{235D}');
}

#[test]
fn wide_null_then_decode_gives_back_the_text() {
    let s = "New Window Class";
    let w = wide_null(s);
    assert_eq!(decode_message(&w[..w.len() - 1]), s);
}

#[test]
fn int_resource_is_the_identifier() {
    assert_eq!(make_int_resource_w(32512), 32512);
    assert_eq!(make_int_resource_w(0), 0);
    assert_eq!(make_int_resource_w(u16::MAX), 0xFFFF);
}
