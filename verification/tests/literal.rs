use abistr::encoding::{Unknown16, Unknown32, Unknown8, Utf16, Utf16ish, Utf32, Utf32ish, Utf8, Utf8ish};
use abistr::literal::{cstr, parse_chars, parse_str, LiteralEncoding, LiteralError, LiteralUnit};
use abistr::{AsCStr, CStrNonNull};

#[test]
fn basics() {
    fn a(_: CStrNonNull<'_, Utf8ish>) {}

    let c = parse_str::<Utf8>("\"C\"").unwrap();
    let _c: CStrNonNull<Utf8> = CStrNonNull::zzz_unsound_do_not_call_this_directly_from_macro_units_with_nul(&c);

    let empty = cstr::<Utf8ish>("\"\"").unwrap();
    let example = cstr::<Utf8ish>("\"example\"").unwrap();
    let not_unicode = cstr::<Utf8ish>("b\"\\xFF\\xFF\"").unwrap();

    assert_eq!(empty.as_cstr().to_bytes(), b"");
    assert_eq!(example.as_cstr().to_bytes(), b"example");
    assert_eq!(not_unicode.as_cstr().to_bytes(), b"\xFF\xFF");

    a(empty.as_cstr());
    a(example.as_cstr());
    a(not_unicode.as_cstr());
}

#[test]
fn basics8() {
    let empty = cstr::<Utf8ish>("\"\"").unwrap();
    let example = cstr::<Utf8ish>("\"example\"").unwrap();
    let not_unicode = cstr::<Utf8ish>("b\"\\xFF\\xFF\"").unwrap();

    assert_eq!(empty.as_cstr().to_units(), b"");
    assert_eq!(example.as_cstr().to_units(), b"example");
    assert_eq!(not_unicode.as_cstr().to_units(), b"\xFF\xFF");
}

#[test]
fn basics16() {
    let c = parse_str::<Utf16>("\"C\"").unwrap();
    assert_eq!(c, [b'C' as u16, 0]);

    let empty = cstr::<Utf16>("\"\"").unwrap();
    let example = cstr::<Utf16>("\"example\"").unwrap();

    assert_eq!(empty.as_cstr().to_units(), []);
    assert_eq!(example.as_cstr().to_units(), [b'e' as u16, b'x' as u16, b'a' as u16, b'm' as u16, b'p' as u16, b'l' as u16, b'e' as u16]);
}

#[test]
fn basics32() {
    let c = parse_str::<Utf32>("\"C\"").unwrap();
    assert_eq!(c, ['C', '\0']);

    let empty = cstr::<Utf32>("\"\"").unwrap();
    let example = cstr::<Utf32>("\"example\"").unwrap();

    assert_eq!(empty.as_cstr().to_units(), []);
    assert_eq!(example.as_cstr().to_units(), "example".chars().collect::<Vec<_>>().as_slice());
}

#[test]
fn hex_escapes() {
    // a byte string of an encoding that takes any byte may hold one
    assert_eq!(parse_str::<Unknown8>("b\"\\xFF\""), Ok(vec![0xFF, 0]));
    assert_eq!(parse_str::<Utf8ish>("b\"\\xFF\""), Ok(vec![0xFF, 0]));
    assert_eq!(parse_str::<Utf8>("b\"\\xFF\""), Err(LiteralError::HexEscapeOutOfRange));
    // up to 7F in any narrow literal
    assert_eq!(parse_str::<Unknown8>("\"\\x7F\""), Ok(vec![0x7F, 0]));
    assert_eq!(parse_str::<Utf8ish>("\"\\x7f\""), Ok(vec![0x7F, 0]));
    assert_eq!(parse_str::<Utf8>("\"\\x7F\""), Ok(vec![0x7F, 0]));
    assert_eq!(parse_str::<Utf8>("\"\\x1b\\x41\""), Ok(vec![0x1B, 0x41, 0]));
    // above 7F without the b
    assert_eq!(parse_str::<Unknown8>("\"\\xFF\""), Err(LiteralError::HexEscapeOutOfRange));
    assert_eq!(parse_str::<Utf8ish>("\"\\x80\""), Err(LiteralError::HexEscapeOutOfRange));
    assert_eq!(parse_str::<Utf8>("\"\\xFF\""), Err(LiteralError::HexEscapeOutOfRange));
    // ambiguous in wide strings
    assert_eq!(parse_str::<Utf16ish>("\"\\xFF\""), Err(LiteralError::AmbiguousHexEscape));
    assert_eq!(parse_str::<Utf32ish>("\"\\x41\""), Err(LiteralError::AmbiguousHexEscape));
    assert_eq!(parse_str::<Utf32>("\"\\x41\""), Err(LiteralError::AmbiguousHexEscape));
    // malformed
    assert_eq!(parse_str::<Utf8>("\"\\x4\""), Err(LiteralError::BadHexEscape));
    assert_eq!(parse_str::<Utf8>("\"\\x4g\""), Err(LiteralError::BadHexEscape));
    assert_eq!(parse_str::<Utf8>("\"\\x\""), Err(LiteralError::BadHexEscape));
    assert_eq!(parse_str::<Utf8>("\"\\x00\""), Err(LiteralError::InteriorNul));
    assert_eq!(parse_str::<Utf16>("\"\\x00\""), Err(LiteralError::InteriorNul));
}

#[test]
fn simple_escapes_and_text() {
    assert_eq!(parse_str::<Utf8>("\"a\\t\\n\\r\\\\\\'\\\"z\""), Ok(b"a\t\n\r\\'\"z\0".to_vec()));
    assert_eq!(parse_str::<Unknown16>("\"\\t\\\"\""), Ok(vec![9, 0x22, 0]));
    assert_eq!(parse_str::<Unknown32>("\"\\n\""), Ok(vec![10, 0]));
    assert_eq!(parse_str::<Utf32>("\"\\r\""), Ok(vec!['\r', '\0']));
    assert_eq!(parse_str::<Utf8>("\"h\u{e9}\u{20AC}\u{1F600}\""), Ok("h\u{e9}\u{20AC}\u{1F600}\0".as_bytes().to_vec()));
    assert_eq!(parse_str::<Utf16>("\"h\u{e9}\u{20AC}\u{1F600}\""), Ok(vec![0x68, 0xE9, 0x20AC, 0xD83D, 0xDE00, 0]));
    assert_eq!(parse_str::<Utf32ish>("\"h\u{1F600}\""), Ok(vec![0x68, 0x1F600, 0]));
    assert_eq!(parse_str::<Utf32>("\"h\u{1F600}\""), Ok(vec!['h', '\u{1F600}', '\0']));
    assert_eq!(parse_str::<Utf8>("\"\\0\""), Err(LiteralError::InteriorNul));
    assert_eq!(parse_str::<Utf8>("\"a\0b\""), Err(LiteralError::InteriorNul));
    assert_eq!(parse_str::<Utf8>("\"\\q\""), Err(LiteralError::UnexpectedEscape('q')));
    assert_eq!(parse_chars::<Utf8>(&['"', '\\', '"']), Err(LiteralError::NoCharacterAfterBackslash));
}

#[test]
fn unicode_escapes() {
    assert_eq!(parse_str::<Utf8>("\"\\u{e9}\""), Ok(vec![0xC3, 0xA9, 0]));
    assert_eq!(parse_str::<Utf8>("\"\\u{20AC}x\""), Ok(vec![0xE2, 0x82, 0xAC, b'x', 0]));
    assert_eq!(parse_str::<Utf8>("\"\\u{10FFFF}\""), Ok(vec![0xF4, 0x8F, 0xBF, 0xBF, 0]));
    assert_eq!(parse_str::<Utf8>("\"\\u{7f}\\u{80}\\u{7ff}\\u{800}\\u{ffff}\\u{10000}\""), Ok("\u{7f}\u{80}\u{7ff}\u{800}\u{ffff}\u{10000}\0".as_bytes().to_vec()));
    assert_eq!(parse_str::<Utf16>("\"\\u{1F600}\""), Ok(vec![0xD83D, 0xDE00, 0]));
    assert_eq!(parse_str::<Utf16>("\"\\u{ffff}\\u{10000}\\u{10ffff}\""), Ok(vec![0xFFFF, 0xD800, 0xDC00, 0xDBFF, 0xDFFF, 0]));
    assert_eq!(parse_str::<Unknown32>("\"\\u{00041}\""), Ok(vec![0x41, 0]));
    assert_eq!(parse_str::<Utf32>("\"\\u{000041}\""), Ok(vec!['A', '\0']));
    assert_eq!(parse_str::<Utf8>("\"\\u{0000041}\""), Err(LiteralError::BadUnicodeEscape));
    assert_eq!(parse_str::<Utf8>("\"\\u{}\""), Err(LiteralError::BadUnicodeEscape));
    assert_eq!(parse_str::<Utf8>("\"\\u{41\""), Err(LiteralError::BadUnicodeEscape));
    assert_eq!(parse_str::<Utf8>("\"\\u{4z}\""), Err(LiteralError::BadUnicodeEscape));
    assert_eq!(parse_str::<Utf8>("\"\\u41\""), Err(LiteralError::NoBraceAfterU));
    assert_eq!(parse_str::<Utf8>("\"\\u\""), Err(LiteralError::NoBraceAfterU));
    assert_eq!(parse_str::<Utf8>("\"\\u{0}\""), Err(LiteralError::InteriorNul));
    assert_eq!(parse_str::<Utf8>("\"\\u{D800}\""), Err(LiteralError::InvalidCodepoint(0xD800)));
    assert_eq!(parse_str::<Utf8>("\"\\u{110000}\""), Err(LiteralError::InvalidCodepoint(0x110000)));
    assert_eq!(parse_str::<Utf8ish>("b\"\\u{41}\""), Err(LiteralError::UnicodeEscapeInBytes));
}

#[test]
fn raw_literals_and_quotes() {
    assert_eq!(parse_str::<Utf8>("r\"a\\tb\""), Ok(b"a\\tb\0".to_vec()));
    assert_eq!(parse_str::<Utf8>("r#\"a\"b\"#"), Ok(b"a\"b\0".to_vec()));
    assert_eq!(parse_str::<Utf8>("r##\"#\"##"), Ok(b"#\0".to_vec()));
    assert_eq!(parse_str::<Utf8ish>("br\"\\xFF\""), Ok(b"\\xFF\0".to_vec()));
    assert_eq!(parse_str::<Utf8ish>("rb#\"x\"#"), Ok(b"x\0".to_vec()));
    assert_eq!(parse_str::<Utf8>("r#\"a\""), Err(LiteralError::UnbalancedHashes));
    assert_eq!(parse_str::<Utf8>("r#"), Err(LiteralError::UnbalancedHashes));
    assert_eq!(parse_str::<Utf8>("abc"), Err(LiteralError::NoOpeningQuote));
    assert_eq!(parse_str::<Utf8>(""), Err(LiteralError::NoOpeningQuote));
    assert_eq!(parse_str::<Utf8>("r##"), Err(LiteralError::NoOpeningQuote));
    assert_eq!(parse_str::<Utf8>("\"abc"), Err(LiteralError::NoClosingQuote));
    assert_eq!(parse_str::<Utf8>("\""), Err(LiteralError::NoClosingQuote));
    assert_eq!(parse_str::<Utf8>("\"\""), Ok(vec![0]));
}

#[test]
fn literal_messages() {
    assert_eq!(LiteralError::InteriorNul.message(), "interior `\0` not permitted in C string");
    assert_eq!(LiteralError::UnexpectedEscape('q').message(), "unexpected escape sequence `\\q` in string");
    assert_eq!(LiteralError::InvalidCodepoint(0xD800).message(), "invalid unicode codepoint U+D800 in `\\u{...}` escape sequence");
    assert_eq!(LiteralError::InvalidCodepoint(0x110000).message(), "invalid unicode codepoint U+110000 in `\\u{...}` escape sequence");
    assert_eq!(LiteralError::InvalidCodepoint(0xAB).message(), "invalid unicode codepoint U+00AB in `\\u{...}` escape sequence");
    assert_eq!(LiteralError::NoOpeningQuote.message(), "expected string literal to start with `\"`");
    assert_eq!(LiteralError::NoClosingQuote.message(), "expected string literal to end with `\"`");
    assert_eq!(LiteralError::BadHexEscape.message(), "expected two hexidecimal characters after `\\x` escape sequence");
    assert_eq!(LiteralError::HexEscapeOutOfRange.message(), "this form of character escape may only be used with characters in the range [\\x00-\\x7f]");
    assert_eq!(LiteralError::NoBraceAfterU.message(), "expected `{` after `\\u` escape sequence");
    assert_eq!(LiteralError::BadUnicodeEscape.message(), "expected 1-6 hexidecimal characters in `\\u{...}` escape sequence");
    assert_eq!(LiteralError::UnicodeEscapeInBytes.message(), "unicode escape sequences cannot be used as a byte or in a byte string");
    assert_eq!(LiteralError::NoCharacterAfterBackslash.message(), "expected character after `\\` in string");
    assert!(LiteralError::AmbiguousHexEscape.message().starts_with("`\\x` escape sequences are ambiguous"));
    assert!(LiteralError::UnbalancedHashes.message().ends_with("starting and ending `#`s"));
}

#[test]
fn literal_names() {
    assert_eq!(<Utf8 as LiteralEncoding>::name(), "Utf8");
    assert_eq!(<Unknown16 as LiteralEncoding>::name(), "Unknown16");
    assert_eq!(<Utf32ish as LiteralEncoding>::name(), "Utf32ish");
    assert_eq!(<u8 as LiteralUnit>::name(), "u8");
    assert_eq!(<char as LiteralUnit>::name(), "char");
    assert!(<Unknown8 as LiteralEncoding>::allow_arbitrary_bytes());
    assert!(<Utf8ish as LiteralEncoding>::allow_arbitrary_bytes());
    assert!(!<Utf8 as LiteralEncoding>::allow_arbitrary_bytes());
    let mut units = Vec::new();
    <u8 as LiteralUnit>::extend(&mut units, '\u{20AC}');
    assert_eq!(units, "\u{20AC}".as_bytes());
    let mut units = Vec::new();
    <u16 as LiteralUnit>::extend(&mut units, '\u{1F600}');
    assert_eq!(units, [0xD83D, 0xDE00]);
    assert_eq!(<u16 as LiteralUnit>::from_byte(0x41), 0x41u16);
    assert_eq!(<char as LiteralUnit>::from_byte(0x41), 'A');
}
