use musical_bindings::text::decode_skipping;

#[test]
fn decodes_well_formed_text() {
    let s = "aZ é € 𝄞";
    assert_eq!(decode_skipping(s.as_bytes()), s.chars().collect::<Vec<char>>());
    assert_eq!(decode_skipping(b""), Vec::<char>::new());
}

#[test]
fn keeps_a_real_replacement_character() {
    let s = "a\u{FFFD}b";
    assert_eq!(decode_skipping(s.as_bytes()), vec!['a', '\u{FFFD}', 'b']);
}

#[test]
fn skips_malformed_bytes() {
    assert_eq!(decode_skipping(b"a\xffb"), vec!['a', 'b']);
    assert_eq!(decode_skipping(b"\x80\x80x"), vec!['x']);
    assert_eq!(decode_skipping(b"\xe2\x82"), Vec::<char>::new());
    assert_eq!(decode_skipping(b"\xe2\x82A"), vec!['A']);
    assert_eq!(decode_skipping(b"\xc0\xafq"), vec!['q']);
    assert_eq!(decode_skipping(b"\xed\xa0\x80z"), vec!['z']);
    assert_eq!(decode_skipping(b"\xf4\x90\x80\x80k"), vec!['k']);
}

#[test]
fn decodes_boundary_code_points() {
    let s = "\u{7F}\u{80}\u{7FF}\u{800}\u{D7FF}\u{E000}\u{FFFF}\u{10000}\u{10FFFF}";
    assert_eq!(decode_skipping(s.as_bytes()), s.chars().collect::<Vec<char>>());
}
