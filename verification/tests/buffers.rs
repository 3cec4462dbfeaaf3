use abistr::encoding::{Utf8ish, Utf16ish};
use abistr::CStrBuf;

type CB8 = CStrBuf<Utf8ish, 8>;

#[test]
fn from() {
    {
        assert_eq!(CB8::from_truncate(b"1234567890").to_bytes(), b"1234567");
    }
    {
        assert_eq!(CB8::from_truncate_without_nul(b"1234567890").to_bytes(), b"12345678");
    }
    {
        assert_eq!(CB8::try_from(b"1234567890").is_err(), true);
        assert_eq!(CB8::try_from(b"12345678").is_err(), true);
        assert_eq!(CB8::try_from(b"1234567").unwrap().to_bytes(), b"1234567");
    }
    {
        assert_eq!(CB8::try_from_without_nul(b"1234567890").is_err(), true);
        assert_eq!(CB8::try_from_without_nul(b"12345678").unwrap().to_bytes(), b"12345678");
        assert_eq!(CB8::try_from_without_nul(b"1234567").unwrap().to_bytes(), b"1234567");
    }
}

#[test]
fn set() {
    let reference = CB8::from_truncate(b"ref");
    {
        let mut cb = reference;
        assert_eq!(cb.set_truncate(b"1234567890").is_err(), true);
        assert_eq!(cb.to_bytes(), b"1234567");
        assert_eq!(cb.set_truncate(b"1234").is_err(), false);
        assert_eq!(cb.to_bytes(), b"1234");
    }
    {
        let mut cb = reference;
        assert_eq!(cb.set_truncate_without_nul(b"1234567890").is_err(), true);
        assert_eq!(cb.to_bytes(), b"12345678");
        assert_eq!(cb.set_truncate_without_nul(b"1234").is_err(), false);
        assert_eq!(cb.to_bytes(), b"1234");
    }
    {
        let mut cb = reference;
        assert_eq!(cb.try_set(b"1234567890").is_err(), true);
        assert_eq!(cb.to_bytes(), b"ref");
        assert_eq!(cb.try_set(b"12345678").is_err(), true);
        assert_eq!(cb.to_bytes(), b"ref");
        assert_eq!(cb.try_set(b"1234").is_err(), false);
        assert_eq!(cb.to_bytes(), b"1234");
    }
    {
        let mut cb = reference;
        assert_eq!(cb.try_set_without_nul(b"1234567890").is_err(), true);
        assert_eq!(cb.to_bytes(), b"ref");
        assert_eq!(cb.try_set_without_nul(b"12345678").is_err(), false);
        assert_eq!(cb.to_bytes(), b"12345678");
        assert_eq!(cb.try_set_without_nul(b"1234").is_err(), false);
        assert_eq!(cb.to_bytes(), b"1234");
    }
}

#[test]
fn set_truncate_keeps_seven_of_ten_and_terminates() {
    let mut cb = CB8::default();
    assert!(cb.set_truncate(b"1234567890").is_err());
    assert_eq!(cb.buffer(), b"1234567\0");
    assert!(cb.validate().is_ok());
}

#[test]
fn try_set_without_room_for_terminator_changes_nothing() {
    let mut cb = CB8::from_truncate(b"ref");
    let before = cb.buffer().to_vec();
    assert!(cb.try_set(b"12345678").is_err());
    assert_eq!(cb.buffer(), &before[..]);
    assert!(cb.try_set(b"1234567").is_ok());
    assert_eq!(cb.buffer(), b"1234567\0");
}

#[test]
fn default_is_all_nul_at_every_width() {
    let narrow = CStrBuf::<Utf8ish, 5>::default();
    assert_eq!(narrow.buffer(), &[0u8; 5]);
    assert!(narrow.is_empty());
    assert_eq!(narrow.to_units().len(), 0);
    let wide = CStrBuf::<Utf16ish, 3>::default();
    assert_eq!(wide.buffer(), &[0u16; 3]);
    assert!(wide.validate().is_ok());
}

#[test]
fn full_buffer_is_not_terminated_until_truncated() {
    let mut cb = CB8::from_truncate_without_nul(b"ffffffff");
    assert_eq!(cb.to_units(), b"ffffffff");
    assert!(cb.validate().is_err());
    assert!(cb.to_units_with_nul().is_err());
    assert_eq!(cb.nul_truncate().to_bytes(), b"fffffff");
    assert_eq!(cb.buffer(), b"fffffff\0");
    assert!(cb.validate().is_ok());
    assert_eq!(cb.to_units_with_nul().unwrap(), b"fffffff\0");
}

#[test]
fn set_truncate_then_validate_never_fails() {
    let inputs: [&[u8]; 5] = [b"", b"a", b"1234567", b"12345678", b"123456789012345"];
    for data in inputs {
        let mut cb = CB8::from_truncate_without_nul(b"ffffffff");
        let _ = cb.set_truncate(data);
        assert!(cb.validate().is_ok());
        let mut one = CStrBuf::<Utf8ish, 1>::default();
        let _ = one.set_truncate(data);
        assert!(one.validate().is_ok());
        assert_eq!(one.buffer(), b"\0");
    }
}

#[test]
fn buffer_text() {
    let mut cb = CStrBuf::<Utf8ish, 16>::default();
    cb.try_set(b"example").unwrap();
    assert_eq!(cb.to_str().unwrap(), "example");
    assert_eq!(cb.to_string_lossy(), "example");
    assert_eq!(cb.debug(), "\"example\"");
    cb.try_set(b"\xFF\xFF").unwrap();
    assert!(cb.to_str().is_err());
    assert_eq!(cb.to_string_lossy(), "\u{FFFD}\u{FFFD}");
    assert_eq!(cb.debug(), "\"\\xff\\xff\"");
    assert_eq!(cb.to_bytes_with_nul().unwrap(), b"\xFF\xFF\0");
    cb.buffer_mut()[0] = b'A';
    assert_eq!(cb.to_bytes(), b"A\xFF");
}

#[test]
fn struct_interop() {
    type B = CStrBuf<Utf8ish, 16>;
    let mut empty2_c = [b'f'; 16];
    empty2_c[0] = 0;
    let mut not_unicode_c = [0u8; 16];
    not_unicode_c[0] = 0xFF;
    not_unicode_c[1] = 0xFF;

    let mut empty = B::from_truncate_without_nul(&[0u8; 16]);
    let mut empty2 = B::from_truncate_without_nul(&empty2_c);
    let mut empty3 = B::from_truncate_without_nul(&[b'f'; 16]);
    let mut example = B::from_truncate_without_nul(&[0u8; 16]);
    let mut full = B::from_truncate_without_nul(&[b'f'; 16]);
    let mut not_unicode = B::from_truncate_without_nul(&not_unicode_c);
    example.try_set(b"example").unwrap();
    empty3 = Default::default();

    assert_eq!(empty.is_empty(), true);
    assert_eq!(empty2.is_empty(), true);
    assert_eq!(empty3.is_empty(), true);
    assert_eq!(example.is_empty(), false);
    assert_eq!(full.is_empty(), false);
    assert_eq!(not_unicode.is_empty(), false);

    assert_eq!(empty.buffer(), b"\0\0\0\0\0\0\0\0\0\0\0\0\0\0\0\0");
    assert_eq!(empty2.buffer(), b"\0fffffffffffffff");
    assert_eq!(empty3.buffer(), b"\0\0\0\0\0\0\0\0\0\0\0\0\0\0\0\0");
    assert_eq!(example.buffer(), b"example\0\0\0\0\0\0\0\0\0");
    assert_eq!(full.buffer(), b"ffffffffffffffff");
    assert_eq!(not_unicode.buffer(), b"\xFF\xFF\0\0\0\0\0\0\0\0\0\0\0\0\0\0");

    assert_eq!(empty.to_bytes(), b"");
    assert_eq!(empty2.to_bytes(), b"");
    assert_eq!(empty3.to_bytes(), b"");
    assert_eq!(example.to_bytes(), b"example");
    assert_eq!(full.to_bytes(), b"ffffffffffffffff");
    assert_eq!(not_unicode.to_bytes(), b"\xFF\xFF");

    assert_eq!(empty.to_bytes_with_nul().ok(), Some(&b"\0"[..]));
    assert_eq!(empty2.to_bytes_with_nul().ok(), Some(&b"\0"[..]));
    assert_eq!(empty3.to_bytes_with_nul().ok(), Some(&b"\0"[..]));
    assert_eq!(example.to_bytes_with_nul().ok(), Some(&b"example\0"[..]));
    assert_eq!(full.to_bytes_with_nul().is_err(), true);
    assert_eq!(not_unicode.to_bytes_with_nul().ok(), Some(&b"\xFF\xFF\0"[..]));

    assert_eq!(empty.to_str().ok(), Some(""));
    assert_eq!(empty2.to_str().ok(), Some(""));
    assert_eq!(empty3.to_str().ok(), Some(""));
    assert_eq!(example.to_str().ok(), Some("example"));
    assert_eq!(full.to_str().ok(), Some("ffffffffffffffff"));
    assert_eq!(not_unicode.to_str().is_err(), true);

    assert_eq!(empty.to_string_lossy(), "");
    assert_eq!(empty2.to_string_lossy(), "");
    assert_eq!(empty3.to_string_lossy(), "");
    assert_eq!(example.to_string_lossy(), "example");
    assert_eq!(full.to_string_lossy(), "ffffffffffffffff");
    assert_eq!(not_unicode.to_string_lossy(), "\u{FFFD}\u{FFFD}");

    assert_eq!(empty.validate().is_err(), false);
    assert_eq!(empty2.validate().is_err(), false);
    assert_eq!(empty3.validate().is_err(), false);
    assert_eq!(example.validate().is_err(), false);
    assert_eq!(full.validate().is_err(), true);
    assert_eq!(not_unicode.validate().is_err(), false);

    assert_eq!(empty.debug(), "\"\"");
    assert_eq!(empty2.debug(), "\"\"");
    assert_eq!(empty3.debug(), "\"\"");
    assert_eq!(example.debug(), "\"example\"");
    assert_eq!(full.debug(), "\"ffffffffffffffff\"");
    assert_eq!(not_unicode.debug(), "\"\\xff\\xff\"");

    assert_eq!(empty.buffer_mut(), b"\0\0\0\0\0\0\0\0\0\0\0\0\0\0\0\0");
    assert_eq!(empty2.buffer_mut(), b"\0fffffffffffffff");
    assert_eq!(empty3.buffer_mut(), b"\0\0\0\0\0\0\0\0\0\0\0\0\0\0\0\0");
    assert_eq!(example.buffer_mut(), b"example\0\0\0\0\0\0\0\0\0");
    assert_eq!(full.buffer_mut(), b"ffffffffffffffff");
    assert_eq!(not_unicode.buffer_mut(), b"\xFF\xFF\0\0\0\0\0\0\0\0\0\0\0\0\0\0");

    assert_eq!(empty.nul_truncate().to_bytes(), b"");
    assert_eq!(empty2.nul_truncate().to_bytes(), b"");
    assert_eq!(empty3.nul_truncate().to_bytes(), b"");
    assert_eq!(example.nul_truncate().to_bytes(), b"example");
    assert_eq!(full.nul_truncate().to_bytes(), b"fffffffffffffff");
    assert_eq!(not_unicode.nul_truncate().to_bytes(), b"\xFF\xFF");

    assert_eq!(empty.buffer(), b"\0\0\0\0\0\0\0\0\0\0\0\0\0\0\0\0");
    assert_eq!(empty2.buffer(), b"\0ffffffffffffff\0");
    assert_eq!(empty3.buffer(), b"\0\0\0\0\0\0\0\0\0\0\0\0\0\0\0\0");
    assert_eq!(example.buffer(), b"example\0\0\0\0\0\0\0\0\0");
    assert_eq!(full.buffer(), b"fffffffffffffff\0");
    assert_eq!(not_unicode.buffer(), b"\xFF\xFF\0\0\0\0\0\0\0\0\0\0\0\0\0\0");

    assert_eq!(empty.validate().is_err(), false);
    assert_eq!(empty2.validate().is_err(), false);
    assert_eq!(empty3.validate().is_err(), false);
    assert_eq!(example.validate().is_err(), false);
    assert_eq!(full.validate().is_err(), false);
    assert_eq!(not_unicode.validate().is_err(), false);
}
