use abistr::encoding::windows::{debug, CodePage, CurrentThread, PsuedoCodePage, System};
use abistr::encoding::{Utf8, Utf8ish};
use abistr::Encoding;

#[test]
fn code_page_numbers() {
    assert_eq!(u32::from(CodePage::new_unchecked(437)), 437);
    assert_eq!(u32::from(PsuedoCodePage::new_unchecked(3)), 3);
    assert_eq!(u32::from(CodePage::from(Utf8)), 65001);
    assert_eq!(u32::from(CodePage::from(Utf8ish)), 65001);
    assert_eq!(u32::from(PsuedoCodePage::from(System)), 0);
    assert_eq!(u32::from(PsuedoCodePage::from(CurrentThread)), 3);
    assert!(PsuedoCodePage::from(CodePage::new_unchecked(1252)) == PsuedoCodePage::new_unchecked(1252));
    assert_eq!(System::debug_fmt(b"a\xff"), "\"a\\xff\"");
}

#[test]
fn code_page_debug_text() {
    assert_eq!(debug("PsuedoCodePage", 0, None), "PsuedoCodePage(0 CP_ACP)");
    assert_eq!(debug("PsuedoCodePage", 1, None), "PsuedoCodePage(1 CP_OEMCP)");
    assert_eq!(debug("PsuedoCodePage", 2, None), "PsuedoCodePage(2 CP_MACCP)");
    assert_eq!(debug("PsuedoCodePage", 3, None), "PsuedoCodePage(3 CP_THREAD_CP)");
    assert_eq!(debug("PsuedoCodePage", 42, Some(&[0x41])), "PsuedoCodePage(42 CP_SYMBOL)");
    assert_eq!(debug("CodePage", 65001, None), "CodePage(65001)");
    assert_eq!(debug("CodePage", 4294967295, None), "CodePage(4294967295)");
    assert_eq!(debug("CodePage", 10, None), "CodePage(10)");
    let name: Vec<u16> = "437   (OEM - \"United States\")".encode_utf16().collect();
    assert_eq!(debug("CodePage", 437, Some(&name)), "CodePage(437   (OEM - \\\"United States\\\"))");
    assert_eq!(CodePage::new_unchecked(437).debug(Some(&[0x34, 0xDC00])), "CodePage(4\u{FFFD})");
    assert_eq!(PsuedoCodePage::new_unchecked(3).debug(None), "PsuedoCodePage(3 CP_THREAD_CP)");
    assert_eq!(CodePage::new_unchecked(1252).debug(Some(&[])), "CodePage()");
}
