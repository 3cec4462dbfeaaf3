use abistr::encoding::Utf8ish;
use abistr::{strlen, BufferTooSmallError, CStrBuf, CStrPtr, FromUnitsWithNulError, InteriorNulError, NotNulTerminatedError};
use abistr::unit::{find_nul, Unit};

#[test]
fn each_error_has_an_input_that_gives_it() {
    let e: BufferTooSmallError = CStrBuf::<Utf8ish, 2>::try_from(b"ab").err().unwrap();
    assert_eq!(e.description(), "data provided is too large for the buffer");
    let e: NotNulTerminatedError = CStrBuf::<Utf8ish, 2>::from_truncate_without_nul(b"ab").validate().err().unwrap();
    assert_eq!(e.description(), "data provided is not nul terminated");
    let e: FromUnitsWithNulError = CStrPtr::<Utf8ish>::from_bytes_with_nul(b"ab").err().unwrap();
    assert_eq!(e.description(), "data provided is not nul terminated, contains interior nuls, or contains invalid sequences for the Encoding");
    let e: InteriorNulError = InteriorNulError::check(&b"a\0"[..]).err().unwrap();
    assert_eq!(e.description(), "data provided contains interior nuls");
    assert_eq!(InteriorNulError::check(&[1u16, 2][..]), Ok(()));
    assert_eq!(e, e.clone());
}

#[test]
fn unit_model() {
    assert_eq!(<u8 as Unit>::NUL, 0);
    assert_eq!(<u16 as Unit>::NUL, 0);
    assert_eq!(<u32 as Unit>::NUL, 0);
    assert_eq!(<i8 as Unit>::NUL, 0);
    assert_eq!(<char as Unit>::NUL, '\0');
    assert_eq!(<u8 as Unit>::empty(), &[0u8]);
    assert_eq!(<char as Unit>::empty(), &['\0']);
    assert_eq!(<u8 as Unit>::zeroed::<4>(), [0u8; 4]);
    assert_eq!(<u16 as Unit>::zeroed::<3>(), [0u16; 3]);
    assert_eq!(<u32 as Unit>::zeroed::<0>(), [0u32; 0]);
    assert_eq!(<char as Unit>::zeroed::<2>(), ['\0'; 2]);
    assert!(0u32.is_nul() && !1u32.is_nul() && '\0'.is_nul() && !'0'.is_nul());
    assert_eq!(strlen(&b"abc\0def\0"[..]), 3);
    assert_eq!(strlen(&[0u16][..]), 0);
    assert_eq!(find_nul(&b"abc"[..]), None);
    assert_eq!(find_nul(&[7u32, 0, 0][..]), Some(1));
}
