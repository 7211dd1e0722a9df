use directx::window::wide::utf16_str;

#[test]
fn ascii_is_one_unit_per_char_then_nul() {
    assert_eq!(utf16_str("DirectXWindow"), "DirectXWindow".encode_utf16().chain(Some(0)).collect::<Vec<u16>>());
    assert_eq!(utf16_str("Ab"), vec![0x41, 0x62, 0]);
}

#[test]
fn empty_string_is_just_nul() {
    assert_eq!(utf16_str(""), vec![0]);
}

#[test]
fn astral_chars_become_surrogate_pairs() {
    assert_eq!(utf16_str("\u{1F600}"), vec![0xD83D, 0xDE00, 0]);
    assert_eq!(utf16_str("\u{10000}"), vec![0xD800, 0xDC00, 0]);
    assert_eq!(utf16_str("\u{10FFFF}"), vec![0xDBFF, 0xDFFF, 0]);
    assert_eq!(utf16_str("é€\u{FFFF}"), vec![0xE9, 0x20AC, 0xFFFF, 0]);
}

#[test]
fn matches_std_encoding_and_decodes_back() {
    let samples = ["Hello World", "Grüße, 世界 \u{1F30D}!", "a\u{0}b", "\u{D7FF}\u{E000}"];
    for s in samples.iter() {
        let units = utf16_str(s);
        let expected: Vec<u16> = s.encode_utf16().chain(Some(0)).collect();
        assert_eq!(units, expected);
        assert_eq!(*units.last().unwrap(), 0);
        let decoded = String::from_utf16(&units[..units.len() - 1]).unwrap();
        assert_eq!(&decoded, s);
    }
}
