use abistr::fmt::{c16_units, c32_units, char_units, cstr_bytes};

#[test]
fn cstr_bytes_escapes() {
    assert_eq!(cstr_bytes(b""), "\"\"");
    assert_eq!(cstr_bytes(b"example"), "\"example\"");
    assert_eq!(cstr_bytes(b"\xFF\xFF"), "\"\\xff\\xff\"");
    assert_eq!(cstr_bytes(b"\0\t\r\n'\"\\"), "\"\\0\\t\\r\\n\\'\\\"\\\\\"");
    assert_eq!(cstr_bytes(b"\x01\x1f\x20\x7e\x7f\x80\xab"), "\"\\x01\\x1f ~\\x7f\\x80\\xab\"");
}

#[test]
fn c16_units_escapes() {
    assert_eq!(c16_units(&[]), "\"\"");
    assert_eq!(c16_units(&[0x65, 0x78]), "\"ex\"");
    assert_eq!(c16_units(&[0xDC00, 0xDC00]), "\"\\udc00\\udc00\"");
    assert_eq!(c16_units(&[0, 9, 13, 10, 0x27, 0x22, 0x5C]), "\"\\0\\t\\r\\n\\'\\\"\\\\\"");
    assert_eq!(c16_units(&[0x1, 0x7F, 0xABCD, 0x0100]), "\"\\u0001\\u007f\\uabcd\\u0100\"");
}

#[test]
fn c32_units_escapes() {
    assert_eq!(c32_units(&[]), "\"\"");
    assert_eq!(c32_units(&[0x65, 0x78]), "\"ex\"");
    assert_eq!(c32_units(&[0, 9, 13, 10, 0x27, 0x22, 0x5C]), "\"\\0\\t\\r\\n\\'\\\"\\\\\"");
    assert_eq!(c32_units(&[0x1, 0x7F, 0x10, 0x1F600, 0xFFFFFFFF]), "\"\\u{1}\\u{7f}\\u{10}\\u{1f600}\\u{ffffffff}\"");
    assert_eq!(char_units(&['a', '\u{1F600}', '\0']), "\"a\\u{1f600}\\0\"");
}
