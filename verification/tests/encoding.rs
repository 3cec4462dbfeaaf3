use abistr::encoding::{
    must_cast_slice_checked_partial, split_decodable, take_first, FixedToCharInfalliable,
    FromUnits, FromUnitsInfalliable, ToChars, Unknown32, Unknown8, Utf16, Utf16ish, Utf32,
    Utf32ish, Utf8, Utf8ish, CP437, LC_CTYPE,
};
use abistr::Encoding;

fn decode_all<E: ToChars>(mut units: &[E::Unit]) -> (Vec<Result<char, ()>>, usize) {
    let mut out = Vec::new();
    let mut steps = 0;
    while !units.is_empty() {
        let before = units.len();
        out.push(E::next_char(&mut units));
        assert!(units.len() < before);
        steps += 1;
    }
    (out, steps)
}

#[test]
fn utf8_next_char_takes_one_sequence() {
    let text = "a\u{e9}\u{20AC}\u{1F600}";
    let (chars, steps) = decode_all::<Utf8>(text.as_bytes());
    assert_eq!(chars, vec![Ok('a'), Ok('\u{e9}'), Ok('\u{20AC}'), Ok('\u{1F600}')]);
    assert_eq!(steps, 4);

    let mut units: &[u8] = b"\xC3\xA9z";
    assert_eq!(Utf8::next_char(&mut units), Ok('\u{e9}'));
    assert_eq!(units, b"z");
    let mut empty: &[u8] = b"";
    assert_eq!(Utf8::next_char(&mut empty), Err(()));
    assert_eq!(Utf8ish::next_char(&mut empty), Ok('\u{FFFD}'));
}

#[test]
fn utf8_next_char_errors_advance() {
    // a continuation byte cannot lead: one unit is taken
    let mut units: &[u8] = b"\x80ab";
    assert_eq!(Utf8::next_char(&mut units), Err(()));
    assert_eq!(units, b"ab");
    // neither can the lead of a five byte form
    let mut units: &[u8] = b"\xF8ab";
    assert_eq!(Utf8::next_char(&mut units), Err(()));
    assert_eq!(units, b"ab");
    // a sequence that is cut short takes all that is left
    let mut units: &[u8] = b"\xE2\x82";
    assert_eq!(Utf8::next_char(&mut units), Err(()));
    assert_eq!(units, b"");
    // a sequence that is malformed takes its declared length
    let mut units: &[u8] = b"\xC3Az";
    assert_eq!(Utf8::next_char(&mut units), Err(()));
    assert_eq!(units, b"z");
    // overlong, surrogate, above U+10FFFF
    let mut units: &[u8] = b"\xC0\x80";
    assert_eq!(Utf8::next_char(&mut units), Err(()));
    assert_eq!(units, b"");
    let mut units: &[u8] = b"\xE0\x80\x80";
    assert_eq!(Utf8::next_char(&mut units), Err(()));
    let mut units: &[u8] = b"\xED\xA0\x80";
    assert_eq!(Utf8::next_char(&mut units), Err(()));
    let mut units: &[u8] = b"\xF4\x90\x80\x80";
    assert_eq!(Utf8::next_char(&mut units), Err(()));
    let mut units: &[u8] = b"\xF0\x80\x80\x80";
    assert_eq!(Utf8::next_char(&mut units), Err(()));
    let mut units: &[u8] = b"\xF4\x8F\xBF\xBF";
    assert_eq!(Utf8::next_char(&mut units), Ok('\u{10FFFF}'));
}

#[test]
fn utf8_strict_validation_of_ff_ff_fails_at_offset_zero() {
    match <Utf8 as FromUnits<u8>>::from_units(&[0xFF, 0xFF]) {
        Ok(_) => panic!("0xFF is never valid"),
        Err((valid, invalid)) => {
            assert_eq!(valid.len(), 0);
            assert_eq!(invalid, &[0xFF, 0xFF]);
        },
    }
    match <Utf8 as FromUnits<u8>>::from_units(b"ab\xE2\x82\xACc\xFFd") {
        Ok(_) => panic!(),
        Err((valid, invalid)) => {
            assert_eq!(valid, "ab\u{20AC}c".as_bytes());
            assert_eq!(invalid, b"\xFFd");
        },
    }
    assert_eq!(<Utf8 as FromUnits<u8>>::from_units(b"abc").ok(), Some(&b"abc"[..]));
    let (valid, invalid) = split_decodable::<Utf8>(b"ok\xC3");
    assert_eq!((valid, invalid), (&b"ok"[..], &b"\xC3"[..]));
}

#[test]
fn utf16_lenient_decode_of_two_low_surrogates() {
    let units = [0xDC00u16, 0xDC00];
    let (chars, steps) = decode_all::<Utf16ish>(&units);
    assert_eq!(chars, vec![Ok('\u{FFFD}'), Ok('\u{FFFD}')]);
    assert_eq!(steps, 2);
    assert_eq!(Utf16ish::to_string_lossy(&units), "\u{FFFD}\u{FFFD}");
    assert_eq!(Utf16::to_string_lossy(&units), "\u{FFFD}\u{FFFD}");
}

#[test]
fn utf16_next_char() {
    // a pair: ((high & 0x3FF) << 10) + (low & 0x3FF) + 0x10000
    let mut units: &[u16] = &[0xD83D, 0xDE00, 0x41];
    assert_eq!(Utf16::next_char(&mut units), Ok('\u{1F600}'));
    assert_eq!(units, &[0x41]);
    let mut units: &[u16] = &[0xD800, 0xDC00];
    assert_eq!(Utf16::next_char(&mut units), Ok('\u{10000}'));
    let mut units: &[u16] = &[0xDBFF, 0xDFFF];
    assert_eq!(Utf16::next_char(&mut units), Ok('\u{10FFFF}'));
    // a high surrogate with no low one behind it: the follower stays
    let mut units: &[u16] = &[0xD83D, 0x41];
    assert_eq!(Utf16::next_char(&mut units), Err(()));
    assert_eq!(units, &[0x41]);
    let mut units: &[u16] = &[0xD83D, 0xD83D, 0xDE00];
    assert_eq!(Utf16::next_char(&mut units), Err(()));
    assert_eq!(Utf16::next_char(&mut units), Ok('\u{1F600}'));
    // a high surrogate at the end
    let mut units: &[u16] = &[0xD83D];
    assert_eq!(Utf16::next_char(&mut units), Err(()));
    assert_eq!(units.len(), 0);
    // a low surrogate first
    let mut units: &[u16] = &[0xDE00, 0xD83D];
    assert_eq!(Utf16::next_char(&mut units), Err(()));
    assert_eq!(units, &[0xD83D]);
    // no surrogate
    let mut units: &[u16] = &[0x20AC];
    assert_eq!(Utf16::next_char(&mut units), Ok('\u{20AC}'));
    let mut units: &[u16] = &[];
    assert_eq!(Utf16::next_char(&mut units), Err(()));
    assert_eq!(Utf16ish::next_char(&mut units), Ok('\u{FFFD}'));
}

#[test]
fn utf16_validation_splits_at_the_first_bad_unit() {
    let units = [0x41u16, 0xD83D, 0xDE00, 0xDC00, 0x42];
    match <Utf16 as FromUnits<u16>>::from_units(&units) {
        Ok(_) => panic!(),
        Err((valid, invalid)) => {
            assert_eq!(valid, &[0x41u16, 0xD83D, 0xDE00]);
            assert_eq!(invalid, &[0xDC00u16, 0x42]);
        },
    }
    assert!(<Utf16 as FromUnits<u16>>::from_units(&units[..3]).is_ok());
}

#[test]
fn utf32_validation_splits_at_the_first_bad_unit() {
    let units = [0x41u32, 0x1F600, 0xD800, 0x42];
    let (ok, rest) = must_cast_slice_checked_partial(&units);
    assert_eq!(ok, &['A', '\u{1F600}']);
    assert_eq!(rest, &[0xD800u32, 0x42]);
    match <Utf32 as FromUnits<u32>>::from_units(&units) {
        Ok(_) => panic!(),
        Err((valid, invalid)) => {
            assert_eq!(valid, &['A', '\u{1F600}']);
            assert_eq!(invalid, &[0xD800u32, 0x42]);
        },
    }
    assert_eq!(<Utf32 as FromUnits<u32>>::from_units(&[0x41u32, 0x10FFFF]).ok(), Some(&['A', '\u{10FFFF}'][..]));
    let (ok, rest) = must_cast_slice_checked_partial(&[0x110000u32]);
    assert_eq!((ok.len(), rest.len()), (0, 1));
    let mut units: &[u32] = &[0xDFFF, 0x41];
    assert_eq!(Utf32ish::next_char(&mut units), Ok('\u{FFFD}'));
    assert_eq!(units, &[0x41]);
    assert_eq!(Utf32ish::next_char(&mut units), Ok('A'));
    let mut units: &[u32] = &[0xD800];
    assert_eq!(Utf32ish::next_char(&mut units), Ok('\u{FFFD}'));
    assert!(units.is_empty());
    let mut units: &[u32] = &[0x110000, 7];
    assert_eq!(Utf32ish::next_char(&mut units), Ok('\u{FFFD}'));
    assert_eq!(units, &[7]);
    assert_eq!(Utf32ish::next_char(&mut units), Ok('\u{7}'));
    assert_eq!(Utf32ish::next_char(&mut units), Ok('\u{FFFD}'));
    assert!(units.is_empty());
    assert_eq!(Utf32ish::to_string_lossy(&[0x41, 0xD800, 0x110000, 0x42]), "A\u{FFFD}\u{FFFD}B");
    let mut chars: &[char] = &['x', 'y'];
    assert_eq!(Utf32::next_char(&mut chars), Ok('x'));
    assert_eq!(chars, &['y']);
}

#[test]
fn display_text_round_trips() {
    let texts = ["", "example", "h\u{e9}llo w\u{f6}rld", "\u{20AC}\u{1F600}\u{10FFFF}\u{FFFF}\u{D7FF}\u{E000}", "\u{7F}\u{80}\u{7FF}\u{800}"];
    for text in texts {
        assert_eq!(Utf8::to_string_lossy(text.as_bytes()), text);
        assert_eq!(Utf8ish::to_string_lossy(text.as_bytes()), text);
        let wide: Vec<u16> = text.encode_utf16().collect();
        assert_eq!(Utf16::to_string_lossy(&wide), text);
        assert_eq!(Utf16ish::to_string_lossy(&wide), text);
        let chars: Vec<char> = text.chars().collect();
        assert_eq!(Utf32::to_string_lossy(&chars), text);
        let codes: Vec<u32> = text.chars().map(|c| c as u32).collect();
        assert_eq!(Utf32ish::to_string_lossy(&codes), text);
    }
}

#[test]
fn lenient_decoding_ends_within_len_steps() {
    let inputs: [&[u8]; 6] = [b"", b"\xFF", b"\xC3", b"\xF0\x9F\x98", b"a\x80\xE2\x82\xACz\xF5", b"\xED\xA0\x80\xED\xB0\x80"];
    for units in inputs {
        let (chars, steps) = decode_all::<Utf8ish>(units);
        assert!(steps <= units.len());
        assert!(chars.iter().all(|c| c.is_ok()));
        assert_eq!(Utf8ish::to_string_lossy(units).chars().count(), steps);
    }
    let wide: [&[u16]; 4] = [&[], &[0xD800], &[0xD800, 0xD800, 0xDC00], &[0xDC00, 0x41, 0xDBFF]];
    for units in wide {
        let (_, steps) = decode_all::<Utf16ish>(units);
        assert!(steps <= units.len());
    }
}

#[test]
fn lossy_text_substitutes_once_per_failed_step() {
    assert_eq!(Utf8::to_string_lossy(b"\xFF\xFF"), "\u{FFFD}\u{FFFD}");
    assert_eq!(Utf8ish::to_string_lossy(b"a\xC3Az"), "a\u{FFFD}z");
    assert_eq!(Utf8ish::to_string_lossy(b"a\xE2\x82"), "a\u{FFFD}");
    assert_eq!(Utf16ish::to_string_lossy(&[0xD83D, 0x41]), "\u{FFFD}A");
}

#[test]
fn cp437_maps_every_byte() {
    assert_eq!(CP437::to_char(0x00), '\u{0000}');
    assert_eq!(CP437::to_char(0x01), '\u{263A}');
    assert_eq!(CP437::to_char(0x1F), '\u{25BC}');
    assert_eq!(CP437::to_char(0x20), ' ');
    assert_eq!(CP437::to_char(0x41), 'A');
    assert_eq!(CP437::to_char(0x7E), '~');
    assert_eq!(CP437::to_char(0x7F), '\u{2302}');
    assert_eq!(CP437::to_char(0x80), '\u{00C7}');
    assert_eq!(CP437::to_char(0xE1), '\u{00DF}');
    assert_eq!(CP437::to_char(0xFE), '\u{25A0}');
    assert_eq!(CP437::to_char(0xFF), '\u{00A0}');
    let mut seen = std::collections::HashSet::new();
    for b in 0u8..=255 {
        assert!(seen.insert(CP437::to_char(b)));
    }
    let mut units: &[u8] = &[0x03, 0x41];
    assert_eq!(CP437::next_char(&mut units), Ok('\u{2665}'));
    assert_eq!(units, &[0x41]);
    assert_eq!(CP437::to_string_lossy(&[0x48, 0x69, 0x01, 0xFB]), "Hi\u{263A}\u{221A}");
}

#[test]
fn infallible_casts_keep_the_units() {
    let signed: [i8; 4] = [0, 1, -1, -128];
    assert_eq!(<Unknown8 as FromUnitsInfalliable<i8>>::from_units_infalliable(&signed), &[0u8, 1, 255, 128]);
    assert_eq!(<Utf8ish as FromUnitsInfalliable<i8>>::from_units_infalliable(&signed), &[0u8, 1, 255, 128]);
    assert_eq!(<CP437 as FromUnitsInfalliable<u8>>::from_units_infalliable(b"ab"), b"ab");
    let chars = ['a', '\u{1F600}'];
    assert_eq!(<Unknown32 as FromUnitsInfalliable<char>>::from_units_infalliable(&chars), &[0x61u32, 0x1F600]);
    assert_eq!(<Utf32ish as FromUnitsInfalliable<char>>::from_units_infalliable(&chars), &[0x61u32, 0x1F600]);
    assert_eq!(<Unknown8 as FromUnits<u8>>::from_units(b"\xFF").ok(), Some(&b"\xFF"[..]));
    let _: Utf8ish = Utf8.into();
    let _: Utf16ish = Utf16.into();
    let _: Utf32ish = Utf32.into();
}

#[test]
fn take_first_removes_the_front() {
    let mut slice: &[u8] = b"ab";
    assert_eq!(take_first(&mut slice), Some(&b'a'));
    assert_eq!(slice, b"b");
    assert_eq!(take_first(&mut slice), Some(&b'b'));
    assert_eq!(take_first(&mut slice), None);
    assert_eq!(slice.len(), 0);
}

#[test]
fn debug_fmt_by_width() {
    assert_eq!(Unknown8::debug_fmt(b"a\0\t\r\n'\"\\~\x7f\xff\x1b "), "\"a\\0\\t\\r\\n\\'\\\"\\\\~\\x7f\\xff\\x1b \"");
    assert_eq!(LC_CTYPE::debug_fmt(b"ok"), "\"ok\"");
    assert_eq!(Utf16::debug_fmt(&[0x41, 0, 0x7F, 0xDC00, 0xFFFF, 0x22]), "\"A\\0\\u007f\\udc00\\uffff\\\"\"");
    assert_eq!(Utf32ish::debug_fmt(&[0x41, 0, 0x7F, 0x1F600, 0xFFFFFFFF, 0x10]), "\"A\\0\\u{7f}\\u{1f600}\\u{ffffffff}\\u{10}\"");
    assert_eq!(Utf32::debug_fmt(&['A', '\n', '\u{e9}']), "\"A\\n\\u{e9}\"");
}

#[test]
fn terminated_casts_stop_at_the_terminator() {
    let signed: [i8; 5] = [65, -1, 0, 66, 0];
    assert_eq!(<Unknown8 as FromUnitsInfalliable<i8>>::from_units_infalliable_ptr(&signed, false), &[65u8, 255]);
    assert_eq!(<Unknown8 as FromUnitsInfalliable<i8>>::from_units_infalliable_ptr(&signed, true), &[65u8, 255, 0]);
    assert_eq!(<Utf8 as FromUnits<u8>>::from_units_ptr(b"ok\0\xFF", false).ok(), Some(&b"ok"[..]));
    assert_eq!(<Utf8 as FromUnits<u8>>::from_units_ptr(b"ok\0\xFF", true).ok(), Some(&b"ok\0"[..]));
    assert_eq!(<Utf8 as FromUnits<u8>>::from_units_ptr(b"o\xFFk\0", false).err(), Some((&b"o"[..], &b"\xFFk"[..])));
    assert_eq!(<Utf32 as FromUnits<u32>>::from_units_ptr(&[0x41, 0xD800, 0], true).err(), Some((&['A'][..], &[0xD800u32, 0][..])));
}
