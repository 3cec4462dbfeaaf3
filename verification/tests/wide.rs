use abistr::encoding::{Unknown16, Unknown32, Utf16, Utf16ish, Utf32, Utf32ish};
use abistr::{AsCStr, AsOptCStr, CStrNonNull, CStrPtr, EString0, TryIntoAsCStr};
use widestring::{U16CString, U16String, U32CString, U32String, Utf16String, Utf32String};

#[test]
fn views_to_wide_strings() {
    let u_example0 = [b'e' as u16, b'x' as u16, 0u16, b'z' as u16];
    let view = CStrNonNull::<Utf16ish>::from_units_with_nul_unchecked(&u_example0);
    assert_eq!(view.to_u16cstr().as_slice_with_nul(), &u_example0[..3]);
    assert_eq!(view.to_u16cstr(), U16CString::from_vec(vec![b'e' as u16, b'x' as u16]).unwrap());
    assert_eq!(view.to_u16str().as_slice(), &u_example0[..2]);
    let null = CStrPtr::<Utf16ish>::null();
    assert_eq!(null.to_u16cstr().as_slice_with_nul(), &[0u16]);
    assert_eq!(null.to_u16str().len(), 0);
    assert_eq!(CStrPtr::from(view).to_u16str().into_vec(), vec![b'e' as u16, b'x' as u16]);
    assert_eq!(CStrPtr::from(view).to_u16cstr().into_vec_with_nul(), vec![b'e' as u16, b'x' as u16, 0]);

    let wide = [0x1F600u32, 0x41, 0];
    let view = CStrNonNull::<Unknown32>::from_units_with_nul(&wide[..]).unwrap();
    assert_eq!(view.to_u32cstr().as_slice_with_nul(), &wide);
    assert_eq!(view.to_u32str().as_slice(), &wide[..2]);
    assert_eq!(CStrPtr::from(view).to_u32cstr().as_slice(), &wide[..2]);
    assert_eq!(CStrPtr::from(view).to_u32str().as_slice(), &wide[..2]);
}

#[test]
fn wide_c_strings_are_c_strings() {
    let s = U16CString::from_vec(vec![0x48u16, 0x69]).unwrap();
    assert_eq!(AsCStr::<Unknown16>::as_cstr(&s).to_units_with_nul(), &[0x48u16, 0x69, 0]);
    assert_eq!(AsCStr::<Utf16ish>::as_cstr(&s).to_string_lossy(), "Hi");
    assert_eq!(AsOptCStr::<Unknown16>::as_opt_cstr(&s).to_units(), &[0x48u16, 0x69]);
    assert!(!AsOptCStr::<Unknown16>::as_opt_cstr(&s).is_null());
    let s = U32CString::from_vec(vec![0x48u32, 0x1F600]).unwrap();
    assert_eq!(AsCStr::<Unknown32>::as_cstr(&s).to_units_with_nul(), &[0x48u32, 0x1F600, 0]);
    assert_eq!(AsCStr::<Utf32ish>::as_cstr(&s).to_string_lossy(), "H\u{1F600}");
    assert_eq!(AsOptCStr::<Unknown32>::as_opt_cstr(&s).to_units(), &[0x48u32, 0x1F600]);
}

#[test]
fn wide_text_gets_a_terminator() {
    let text = "a\u{1F600}";
    let s: EString0<Utf16> = TryIntoAsCStr::<Utf16>::try_into(Utf16String::from_str(text)).unwrap();
    assert_eq!(s.as_units_with_nul(), &[0x61u16, 0xD83D, 0xDE00, 0]);
    let s: EString0<Utf16ish> = TryIntoAsCStr::<Utf16ish>::try_into(Utf16String::from_str(text)).unwrap();
    assert_eq!(s.as_cstr().to_string_lossy(), text);
    let s: EString0<Unknown16> = TryIntoAsCStr::<Unknown16>::try_into(Utf16String::from_str(text)).unwrap();
    assert_eq!(s.as_units_with_nul().len(), 4);
    let s: EString0<Unknown16> = TryIntoAsCStr::<Unknown16>::try_into(U16String::from_vec(vec![0xDC00u16, 7])).unwrap();
    assert_eq!(s.as_units_with_nul(), &[0xDC00u16, 7, 0]);
    let r: Result<EString0<Unknown16>, _> = TryIntoAsCStr::<Unknown16>::try_into(U16String::from_vec(vec![1u16, 0, 2]));
    assert!(r.is_err());
    let r: Result<EString0<Utf16>, _> = TryIntoAsCStr::<Utf16>::try_into(Utf16String::from_str("a\0"));
    assert!(r.is_err());

    let s: EString0<Utf32> = TryIntoAsCStr::<Utf32>::try_into(Utf32String::from_str(text)).unwrap();
    assert_eq!(s.as_units_with_nul(), &['a', '\u{1F600}', '\0']);
    let s: EString0<Utf32ish> = TryIntoAsCStr::<Utf32ish>::try_into(Utf32String::from_str(text)).unwrap();
    assert_eq!(s.as_units_with_nul(), &[0x61u32, 0x1F600, 0]);
    let s: EString0<Unknown32> = TryIntoAsCStr::<Unknown32>::try_into(Utf32String::from_str(text)).unwrap();
    assert_eq!(s.as_units_with_nul(), &[0x61u32, 0x1F600, 0]);
    let s: EString0<Unknown32> = TryIntoAsCStr::<Unknown32>::try_into(U32String::from_vec(vec![0xFFFFFFFFu32])).unwrap();
    assert_eq!(s.as_units_with_nul(), &[0xFFFFFFFFu32, 0]);
    let r: Result<EString0<Unknown32>, _> = TryIntoAsCStr::<Unknown32>::try_into(U32String::from_vec(vec![0u32]));
    assert!(r.is_err());
}
