use abistr::encoding::{Unknown8, Utf16, Utf16ish, Utf32, Utf8, Utf8ish};
use abistr::{AsCStr, AsOptCStr, CStrNonNull, CStrPtr};

#[test]
fn struct_interop_narrow() {
    let null = CStrPtr::<Utf8ish>::null();
    let empty = CStrPtr::<Utf8ish>::from_bytes_with_nul(b"\0").unwrap();
    let example = CStrPtr::<Utf8ish>::from_bytes_with_nul(b"example\0").unwrap();
    let not_unicode = CStrPtr::<Utf8ish>::from_bytes_with_nul(b"\xFF\xFF\0").unwrap();
    let r1 = [null, empty, example, not_unicode];
    let r2: Vec<Option<CStrNonNull<Utf8ish>>> = r1.iter().map(|p| p.as_non_null()).collect();

    assert_eq!(r1[0].is_null(), true);
    assert_eq!(r1[1].is_null(), false);
    assert_eq!(r1[2].is_null(), false);
    assert_eq!(r1[3].is_null(), false);

    assert_eq!(r2[0].is_none(), true);
    assert_eq!(r2[1].is_none(), false);
    assert_eq!(r2[2].is_none(), false);
    assert_eq!(r2[3].is_none(), false);

    assert_eq!(r1[0].is_empty(), true);
    assert_eq!(r1[1].is_empty(), true);
    assert_eq!(r1[2].is_empty(), false);
    assert_eq!(r1[3].is_empty(), false);

    assert_eq!(r2[0].as_ref().map_or(true, |s| s.is_empty()), true);
    assert_eq!(r2[1].as_ref().map_or(true, |s| s.is_empty()), true);
    assert_eq!(r2[2].as_ref().map_or(true, |s| s.is_empty()), false);
    assert_eq!(r2[3].as_ref().map_or(true, |s| s.is_empty()), false);

    assert_eq!(r1[0].to_bytes(), b"");
    assert_eq!(r1[1].to_bytes(), b"");
    assert_eq!(r1[2].to_bytes(), b"example");
    assert_eq!(r1[3].to_bytes(), b"\xFF\xFF");

    assert_eq!(r2[0].as_ref().map_or(&b""[..], |s| s.to_bytes()), &b""[..]);
    assert_eq!(r2[1].as_ref().map_or(&b""[..], |s| s.to_bytes()), &b""[..]);
    assert_eq!(r2[2].as_ref().map_or(&b""[..], |s| s.to_bytes()), &b"example"[..]);
    assert_eq!(r2[3].as_ref().map_or(&b""[..], |s| s.to_bytes()), &b"\xFF\xFF"[..]);

    assert_eq!(r1[0].to_bytes_with_nul(), b"\0");
    assert_eq!(r1[1].to_bytes_with_nul(), b"\0");
    assert_eq!(r1[2].to_bytes_with_nul(), b"example\0");
    assert_eq!(r1[3].to_bytes_with_nul(), b"\xFF\xFF\0");

    assert_eq!(r2[0].as_ref().map_or(&b"\0"[..], |s| s.to_bytes_with_nul()), &b"\0"[..]);
    assert_eq!(r2[1].as_ref().map_or(&b"\0"[..], |s| s.to_bytes_with_nul()), &b"\0"[..]);
    assert_eq!(r2[2].as_ref().map_or(&b"\0"[..], |s| s.to_bytes_with_nul()), &b"example\0"[..]);
    assert_eq!(r2[3].as_ref().map_or(&b"\0"[..], |s| s.to_bytes_with_nul()), &b"\xFF\xFF\0"[..]);

    assert_eq!(r1[0].to_str().ok(), Some(""));
    assert_eq!(r1[1].to_str().ok(), Some(""));
    assert_eq!(r1[2].to_str().ok(), Some("example"));
    assert_eq!(r1[3].to_str().is_err(), true);

    assert_eq!(r2[2].as_ref().map_or(None, |s| s.to_str().ok()), Some("example"));
    assert_eq!(r2[3].as_ref().map_or(false, |s| s.to_str().is_err()), true);

    assert_eq!(r1[0].to_string_lossy(), "");
    assert_eq!(r1[1].to_string_lossy(), "");
    assert_eq!(r1[2].to_string_lossy(), "example");
    assert_eq!(r1[3].to_string_lossy(), "\u{FFFD}\u{FFFD}");

    assert_eq!(r2[2].as_ref().map_or(String::new(), |s| s.to_string_lossy()), "example");
    assert_eq!(r2[3].as_ref().map_or(String::new(), |s| s.to_string_lossy()), "\u{FFFD}\u{FFFD}");

    assert_eq!(r1[0].debug(), "\"\"");
    assert_eq!(r1[1].debug(), "\"\"");
    assert_eq!(r1[2].debug(), "\"example\"");
    assert_eq!(r1[3].debug(), "\"\\xff\\xff\"");
    assert_eq!(r2[3].as_ref().unwrap().debug(), "\"\\xff\\xff\"");
}

#[test]
fn struct_interop_wide() {
    let u_empty: &[u16; 0] = &[];
    let u_empty0 = &[0u16];
    let u_example = &[b'e' as u16, b'x' as u16, b'a' as u16, b'm' as u16, b'p' as u16, b'l' as u16, b'e' as u16];
    let u_example0 = &[b'e' as u16, b'x' as u16, b'a' as u16, b'm' as u16, b'p' as u16, b'l' as u16, b'e' as u16, 0u16];
    let u_not_unicode = &[0xDC00u16, 0xDC00];
    let u_not_unicode0 = &[0xDC00u16, 0xDC00, 0];

    let null = CStrPtr::<Utf16ish>::null();
    let empty = CStrPtr::<Utf16ish>::from_units_with_nul(&u_empty0[..]).unwrap();
    let example = CStrPtr::<Utf16ish>::from_units_with_nul(&u_example0[..]).unwrap();
    let not_unicode = CStrPtr::<Utf16ish>::from_units_with_nul(&u_not_unicode0[..]).unwrap();

    assert_eq!(null.is_null(), true);
    assert_eq!(empty.is_null(), false);
    assert_eq!(example.is_null(), false);
    assert_eq!(not_unicode.is_null(), false);

    assert_eq!(null.as_non_null().is_none(), true);
    assert_eq!(empty.as_non_null().is_none(), false);

    assert_eq!(null.is_empty(), true);
    assert_eq!(empty.is_empty(), true);
    assert_eq!(example.is_empty(), false);
    assert_eq!(not_unicode.is_empty(), false);

    assert_eq!(null.to_units(), u_empty);
    assert_eq!(empty.to_units(), u_empty);
    assert_eq!(example.to_units(), u_example);
    assert_eq!(not_unicode.to_units(), u_not_unicode);

    assert_eq!(example.as_non_null().unwrap().to_units(), &u_example[..]);
    assert_eq!(not_unicode.as_non_null().unwrap().to_units(), &u_not_unicode[..]);

    assert_eq!(null.to_units_with_nul(), u_empty0);
    assert_eq!(empty.to_units_with_nul(), u_empty0);
    assert_eq!(example.to_units_with_nul(), u_example0);
    assert_eq!(not_unicode.to_units_with_nul(), u_not_unicode0);
    assert_eq!(not_unicode.as_non_null().unwrap().to_units_with_nul(), &u_not_unicode0[..]);

    assert_eq!(null.to_string_lossy(), "");
    assert_eq!(empty.to_string_lossy(), "");
    assert_eq!(example.to_string_lossy(), "example");
    assert_eq!(not_unicode.to_string_lossy(), "\u{FFFD}\u{FFFD}");

    assert_eq!(null.debug(), "\"\"");
    assert_eq!(empty.debug(), "\"\"");
    assert_eq!(example.debug(), "\"example\"");
    assert_eq!(not_unicode.debug(), "\"\\udc00\\udc00\"");
    assert_eq!(not_unicode.as_non_null().unwrap().debug(), "\"\\udc00\\udc00\"");
}

#[test]
fn null_view_is_the_empty_string() {
    let null = CStrPtr::<Unknown8>::null();
    assert!(null.is_null());
    assert!(null.is_empty());
    assert_eq!(null.to_units().len(), 0);
    assert_eq!(null.assume_utf8ish().to_string_lossy(), "");
    let default = CStrPtr::<Unknown8>::default();
    assert!(!default.is_null());
    assert!(default.is_empty());
    assert!(CStrNonNull::<Utf16>::default().is_empty());
}

#[test]
fn from_units_with_nul_rejects_what_is_no_string() {
    assert!(CStrPtr::<Unknown8>::from_bytes_with_nul(b"").is_err());
    assert!(CStrPtr::<Unknown8>::from_bytes_with_nul(b"abc").is_err());
    assert!(CStrPtr::<Unknown8>::from_bytes_with_nul(b"a\0c\0").is_err());
    assert!(CStrPtr::<Unknown8>::from_bytes_with_nul(b"abc\0").is_ok());
    assert!(CStrNonNull::<Utf8>::from_bytes_with_nul(b"abc\0").is_ok());
    assert!(CStrNonNull::<Utf8>::from_bytes_with_nul(b"\xFF\xFF\0").is_err());
    assert!(CStrNonNull::<Utf8>::from_bytes_with_nul("h\u{e9}\u{20AC}\u{1F600}\0".as_bytes()).is_ok());
    assert!(CStrNonNull::<Utf16>::from_units_with_nul(&[0x0041u16, 0xD83D, 0xDE00, 0][..]).is_ok());
    assert!(CStrNonNull::<Utf16>::from_units_with_nul(&[0x0041u16, 0xD83D, 0][..]).is_err());
    assert!(CStrNonNull::<Utf32>::from_units_with_nul(&[0x41u32, 0x1F600, 0][..]).is_ok());
    assert!(CStrNonNull::<Utf32>::from_units_with_nul(&[0x41u32, 0xD800, 0][..]).is_err());
    assert!(CStrNonNull::<Utf32>::from_units_with_nul(&[0x41u32, 0x110000, 0][..]).is_err());
    let signed: [i8; 3] = [-1, 65, 0];
    let view = CStrNonNull::<Unknown8>::from_units_with_nul(&signed[..]).unwrap();
    assert_eq!(view.to_units(), b"\xFFA");
}

#[test]
fn unchecked_view_ends_at_the_first_terminator() {
    let view = CStrNonNull::<Unknown8>::from_bytes_with_nul_unchecked(b"ab\0cd\0");
    assert_eq!(view.to_units(), b"ab");
    assert_eq!(view.to_units_with_nul(), b"ab\0");
    let view = CStrNonNull::<Utf8>::zzz_unsound_do_not_call_this_directly_from_macro_units_with_nul(b"C\0");
    assert_eq!(view.to_str(), "C");
}

#[test]
fn narrowing_casts_keep_the_units() {
    let strict = CStrNonNull::<Utf8>::from_bytes_with_nul("h\u{e9}llo\0".as_bytes()).unwrap();
    let before = strict.to_units();
    let lenient: CStrNonNull<Utf8ish> = AsCStr::<Utf8ish>::as_cstr(&strict);
    assert_eq!(lenient.to_units(), before);
    let opaque: CStrNonNull<Unknown8> = AsCStr::<Unknown8>::as_cstr(&lenient);
    assert_eq!(opaque.to_units(), before);
    let direct: CStrNonNull<Unknown8> = AsCStr::<Unknown8>::as_cstr(&strict);
    assert_eq!(direct.to_units(), before);
    assert_eq!(opaque.assume_utf8ish().to_units(), before);

    let wide = CStrPtr::<Utf16>::from_units_with_nul(&[0x41u16, 0xD83D, 0xDE00, 0][..]).unwrap();
    let lenient: CStrPtr<Utf16ish> = AsOptCStr::<Utf16ish>::as_opt_cstr(&wide);
    assert_eq!(lenient.to_units(), wide.to_units());
    assert_eq!(lenient.to_string_lossy(), "A\u{1F600}");

    let chars = ['a', '\u{1F600}', '\0'];
    let utf32 = CStrNonNull::<Utf32>::from_units_with_nul(&chars[..]).unwrap();
    let lenient: CStrNonNull<abistr::encoding::Utf32ish> = AsCStr::as_cstr(&utf32);
    assert_eq!(lenient.to_units(), &[0x61u32, 0x1F600][..]);
    assert_eq!(utf32.to_string_lossy(), "a\u{1F600}");
    assert_eq!(lenient.to_string_lossy(), "a\u{1F600}");
    assert_eq!(utf32.debug(), "\"a\\u{1f600}\"");
}

#[test]
fn assume_utf32_reads_units_as_scalars() {
    let units = [0x61u32, 0x1F600, 0, 0xD800];
    let opaque = CStrNonNull::<abistr::encoding::Unknown32>::from_units_with_nul_unchecked(&units);
    let strict = opaque.assume_utf32();
    assert_eq!(strict.to_units(), &['a', '\u{1F600}']);
    let lenient = CStrPtr::from(opaque.assume_utf32ish());
    assert_eq!(lenient.assume_utf32().to_units_with_nul(), &['a', '\u{1F600}', '\0']);
    assert!(CStrPtr::<abistr::encoding::Utf32ish>::null().assume_utf32().is_null());
    let strict8 = CStrNonNull::<Unknown8>::from_bytes_with_nul(b"ok\0").unwrap().assume_utf8();
    assert_eq!(strict8.to_str(), "ok");
    let strict8 = CStrPtr::<Utf8ish>::from_bytes_with_nul(b"ok\0").unwrap().assume_utf8();
    assert_eq!(strict8.to_str(), "ok");
    let strict16 = CStrNonNull::<abistr::encoding::Unknown16>::from_units_with_nul(&[0x6Fu16, 0][..]).unwrap().assume_utf16();
    assert_eq!(strict16.to_string_lossy(), "o");
    assert_eq!(CStrPtr::from_non_null(strict16).assume_encoding::<Utf16ish>().to_units(), &[0x6Fu16]);
}
