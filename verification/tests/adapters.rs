use abistr::encoding::{Unknown16, Unknown32, Unknown8, Utf16, Utf32, Utf8, Utf8ish};
use abistr::{AsCStr, AsOptCStr, CStrNonNull, CStrPtr, EString0, InteriorNulError, TryIntoAsCStr, TryIntoAsOptCStr};

fn f(value: impl TryIntoAsCStr<Unknown8>) -> Option<Vec<u8>> {
    value.try_into().ok().map(|target| target.as_cstr().to_units_with_nul().to_vec())
}

fn o(value: impl TryIntoAsOptCStr<Unknown8>) -> Option<Option<Vec<u8>>> {
    value.try_into().ok().map(|target| {
        let view = target.as_opt_cstr();
        if view.is_null() { None } else { Some(view.to_units_with_nul().to_vec()) }
    })
}

#[test]
fn try_into_as_cstr_basic_usage() {
    let literal = CStrNonNull::<Unknown8>::from_bytes_with_nul(b"test\0").unwrap();
    assert_eq!(f("test"), Some(b"test\0".to_vec()));
    assert_eq!(f(literal), Some(b"test\0".to_vec()));
    assert_eq!(f(String::from("test")), Some(b"test\0".to_vec()));
    assert_eq!(f(&String::from("test")), Some(b"test\0".to_vec()));
    assert_eq!(f("te\0st"), None);
}

#[test]
fn try_into_as_traits_basic_usage() {
    let literal = CStrNonNull::<Unknown8>::from_bytes_with_nul(b"test\0").unwrap();
    assert_eq!(o(()), Some(None));
    assert_eq!(o("test"), Some(Some(b"test\0".to_vec())));
    assert_eq!(o(literal), Some(Some(b"test\0".to_vec())));
    assert_eq!(o(CStrPtr::from(literal)), Some(Some(b"test\0".to_vec())));
    assert_eq!(o(String::from("test")), Some(Some(b"test\0".to_vec())));
    assert_eq!(o(Some("test")), Some(Some(b"test\0".to_vec())));
    assert_eq!(o(Some(literal)), Some(Some(b"test\0".to_vec())));
    assert_eq!(o(Some(String::from("test"))), Some(Some(b"test\0".to_vec())));
    assert_eq!(o(None::<&str>), Some(None));
    assert_eq!(o(CStrPtr::<Unknown8>::null()), Some(None));
    assert_eq!(o(Some("te\0st")), None);
    assert_eq!(o("\0"), None);
}

#[test]
fn text_is_transcoded_into_the_target_width() {
    let text = "a\u{e9}\u{20AC}\u{1F600}";
    let s: EString0<Utf8> = TryIntoAsCStr::<Utf8>::try_into(text).unwrap();
    assert_eq!(s.as_cstr().to_units(), text.as_bytes());
    assert_eq!(s.as_cstr().to_str(), text);
    let s: EString0<Utf16> = TryIntoAsCStr::<Utf16>::try_into(text).unwrap();
    assert_eq!(s.as_cstr().to_units(), &text.encode_utf16().collect::<Vec<u16>>()[..]);
    assert_eq!(s.as_units_with_nul(), &[0x61u16, 0xE9, 0x20AC, 0xD83D, 0xDE00, 0][..]);
    let s: EString0<Unknown16> = TryIntoAsCStr::<Unknown16>::try_into(String::from(text)).unwrap();
    assert_eq!(s.as_units_with_nul().len(), 6);
    let s: EString0<Utf32> = TryIntoAsCStr::<Utf32>::try_into(text).unwrap();
    assert_eq!(s.as_cstr().to_units(), &['a', '\u{e9}', '\u{20AC}', '\u{1F600}'][..]);
    let s: EString0<Unknown32> = TryIntoAsCStr::<Unknown32>::try_into(text).unwrap();
    assert_eq!(s.as_units_with_nul(), &[0x61u32, 0xE9, 0x20AC, 0x1F600, 0][..]);
    let r: Result<EString0<Utf16>, InteriorNulError> = TryIntoAsCStr::<Utf16>::try_into("a\0b");
    assert!(r.is_err());
    let r: Result<EString0<Utf32>, InteriorNulError> = TryIntoAsCStr::<Utf32>::try_into("\0");
    assert_eq!(r.err().map(|e| e.description()), Some("data provided contains interior nuls"));
}

#[test]
fn owned_string_checks_for_interior_nul() {
    assert!(EString0::<Utf8ish>::from_vec_no_nul(b"a\0b".to_vec()).is_err());
    assert!(EString0::<Utf8ish>::from_units(b"\0").is_err());
    let s = EString0::<Utf8ish>::from_units(b"ab").unwrap();
    assert_eq!(s.as_units_with_nul(), b"ab\0");
    assert_eq!(AsOptCStr::<Utf8ish>::as_opt_cstr(&s).to_units(), b"ab");
    let empty = EString0::<Utf8ish>::from_vec_no_nul(Vec::new()).unwrap();
    assert_eq!(empty.as_units_with_nul(), b"\0");
    assert!(empty.as_cstr_non_null().is_empty());
}
