//! The encodings of Windows: code pages, and the places that choose one.
//!
//! A Windows process has several code pages in force at once: that of the
//! system, that of the current thread, and those of the console's input and
//! output. They need not agree, they are not all based on ASCII, and any of
//! them may change while a string is in flight. Units with one of these tags
//! carry no claim; which code page a tag stands for is for the platform to
//! say, and the number it gives is not interpreted here beyond being shown.

use crate::encoding::{lossy_text, Encoding, ToChars, Utf16ish, Utf8, Utf8ish};
use crate::fmt::{cstr_bytes, cstr_bytes_text};
use vstd::prelude::*;
use vstd::string::StringExecFns;

verus! {

/// The "ANSI" code page that the process runs under: some narrow encoding,
/// that need not be a superset of ASCII.
#[derive(Clone, Copy)]
pub struct WindowsCurrentAnsiCodePage;

/// `CP_ACP`: the code page of the system.
#[derive(Clone, Copy)]
pub struct System;

/// `CP_THREAD_ACP`: the code page of the current thread.
#[derive(Clone, Copy)]
pub struct CurrentThread;

/// The code page of the console's input.
#[derive(Clone, Copy)]
pub struct ConsoleInput;

/// The code page of the console's output.
#[derive(Clone, Copy)]
pub struct ConsoleOutput;

impl Encoding for WindowsCurrentAnsiCodePage {
    type Unit = u8;

    open spec fn valid(units: Seq<u8>) -> bool {
        true
    }

    proof fn lemma_valid(units: Seq<u8>) {
    }

    open spec fn debug_text(units: Seq<u8>) -> Seq<char> {
        cstr_bytes_text(units)
    }

    fn debug_fmt(units: &[u8]) -> (text: String) {
        cstr_bytes(units)
    }
}

impl Encoding for System {
    type Unit = u8;

    open spec fn valid(units: Seq<u8>) -> bool {
        true
    }

    proof fn lemma_valid(units: Seq<u8>) {
    }

    open spec fn debug_text(units: Seq<u8>) -> Seq<char> {
        cstr_bytes_text(units)
    }

    fn debug_fmt(units: &[u8]) -> (text: String) {
        cstr_bytes(units)
    }
}

impl Encoding for CurrentThread {
    type Unit = u8;

    open spec fn valid(units: Seq<u8>) -> bool {
        true
    }

    proof fn lemma_valid(units: Seq<u8>) {
    }

    open spec fn debug_text(units: Seq<u8>) -> Seq<char> {
        cstr_bytes_text(units)
    }

    fn debug_fmt(units: &[u8]) -> (text: String) {
        cstr_bytes(units)
    }
}

impl Encoding for ConsoleInput {
    type Unit = u8;

    open spec fn valid(units: Seq<u8>) -> bool {
        true
    }

    proof fn lemma_valid(units: Seq<u8>) {
    }

    open spec fn debug_text(units: Seq<u8>) -> Seq<char> {
        cstr_bytes_text(units)
    }

    fn debug_fmt(units: &[u8]) -> (text: String) {
        cstr_bytes(units)
    }
}

impl Encoding for ConsoleOutput {
    type Unit = u8;

    open spec fn valid(units: Seq<u8>) -> bool {
        true
    }

    proof fn lemma_valid(units: Seq<u8>) {
    }

    open spec fn debug_text(units: Seq<u8>) -> Seq<char> {
        cstr_bytes_text(units)
    }

    fn debug_fmt(units: &[u8]) -> (text: String) {
        cstr_bytes(units)
    }
}

/// A code page identifier. It should name a real code page, such as 65001
/// (UTF-8), not a pseudo code page such as 3 (`CP_THREAD_ACP`).
#[derive(Clone, Copy, PartialEq, Eq, Hash)]
pub struct CodePage(pub u32);

/// A code page identifier, or a pseudo code page such as `CP_ACP` (the
/// system's) or `CP_THREAD_ACP` (the current thread's).
#[derive(Clone, Copy, PartialEq, Eq, Hash)]
pub struct PsuedoCodePage(pub u32);

impl CodePage {
    /// The identifier.
    pub open spec fn number(self) -> u32 {
        self.0
    }

    /// The code page with the identifier `value`, which nothing checks.
    pub fn new_unchecked(value: u32) -> (r: CodePage)
        ensures
            r.number() == value,
    {
        CodePage(value)
    }
}

impl PsuedoCodePage {
    /// The identifier.
    pub open spec fn number(self) -> u32 {
        self.0
    }

    /// The code page, or pseudo code page, with the identifier `value`, which
    /// nothing checks.
    pub fn new_unchecked(value: u32) -> (r: PsuedoCodePage)
        ensures
            r.number() == value,
    {
        PsuedoCodePage(value)
    }
}

impl From<CodePage> for u32 {
    fn from(src: CodePage) -> (r: u32) {
        src.0
    }
}

impl vstd::std_specs::convert::FromSpecImpl<CodePage> for u32 {
    open spec fn obeys_from_spec() -> bool {
        true
    }

    open spec fn from_spec(src: CodePage) -> u32 {
        src.number()
    }
}

impl From<PsuedoCodePage> for u32 {
    fn from(src: PsuedoCodePage) -> (r: u32) {
        src.0
    }
}

impl vstd::std_specs::convert::FromSpecImpl<PsuedoCodePage> for u32 {
    open spec fn obeys_from_spec() -> bool {
        true
    }

    open spec fn from_spec(src: PsuedoCodePage) -> u32 {
        src.number()
    }
}

impl From<Utf8> for CodePage {
    fn from(_src: Utf8) -> (r: CodePage) {
        CodePage::new_unchecked(65001)
    }
}

impl vstd::std_specs::convert::FromSpecImpl<Utf8> for CodePage {
    open spec fn obeys_from_spec() -> bool {
        true
    }

    open spec fn from_spec(_src: Utf8) -> CodePage {
        CodePage(65001)
    }
}

impl From<Utf8ish> for CodePage {
    fn from(_src: Utf8ish) -> (r: CodePage) {
        CodePage::new_unchecked(65001)
    }
}

impl vstd::std_specs::convert::FromSpecImpl<Utf8ish> for CodePage {
    open spec fn obeys_from_spec() -> bool {
        true
    }

    open spec fn from_spec(_src: Utf8ish) -> CodePage {
        CodePage(65001)
    }
}

impl From<System> for PsuedoCodePage {
    fn from(_src: System) -> (r: PsuedoCodePage) {
        PsuedoCodePage(0)
    }
}

impl vstd::std_specs::convert::FromSpecImpl<System> for PsuedoCodePage {
    open spec fn obeys_from_spec() -> bool {
        true
    }

    open spec fn from_spec(_src: System) -> PsuedoCodePage {
        PsuedoCodePage(0)
    }
}

impl From<CurrentThread> for PsuedoCodePage {
    fn from(_src: CurrentThread) -> (r: PsuedoCodePage) {
        PsuedoCodePage(3)
    }
}

impl vstd::std_specs::convert::FromSpecImpl<CurrentThread> for PsuedoCodePage {
    open spec fn obeys_from_spec() -> bool {
        true
    }

    open spec fn from_spec(_src: CurrentThread) -> PsuedoCodePage {
        PsuedoCodePage(3)
    }
}

impl From<CodePage> for PsuedoCodePage {
    fn from(src: CodePage) -> (r: PsuedoCodePage) {
        PsuedoCodePage(src.0)
    }
}

impl vstd::std_specs::convert::FromSpecImpl<CodePage> for PsuedoCodePage {
    open spec fn obeys_from_spec() -> bool {
        true
    }

    open spec fn from_spec(src: CodePage) -> PsuedoCodePage {
        PsuedoCodePage(src.number())
    }
}

/// The decimal digit for `n`, a number below 10.
pub open spec fn decimal_digit(n: int) -> char {
    ('0' as int + n) as char
}

/// `v` in decimal.
pub open spec fn decimal(v: int) -> Seq<char>
    decreases v,
{
    if v < 10 {
        seq![decimal_digit(v)]
    } else {
        decimal(v / 10).push(decimal_digit(v % 10))
    }
}

/// The name of the pseudo code page with the identifier `codepage`, where it
/// is one.
pub open spec fn pseudo_name(codepage: u32) -> Option<Seq<char>> {
    if codepage == 0 {
        Some("CP_ACP"@)
    } else if codepage == 1 {
        Some("CP_OEMCP"@)
    } else if codepage == 2 {
        Some("CP_MACCP"@)
    } else if codepage == 3 {
        Some("CP_THREAD_CP"@)
    } else if codepage == 42 {
        Some("CP_SYMBOL"@)
    } else {
        None
    }
}

/// `text` with a backslash in front of every double quote.
pub open spec fn quotes_escaped(text: Seq<char>) -> Seq<char>
    decreases text.len(),
{
    if text.len() == 0 {
        Seq::<char>::empty()
    } else if text.last() == '"' {
        quotes_escaped(text.drop_last()).push('\\').push('"')
    } else {
        quotes_escaped(text.drop_last()).push(text.last())
    }
}

/// What `debug` writes.
pub open spec fn debug_text(ty: Seq<char>, codepage: u32, name: Option<Seq<u16>>) -> Seq<char> {
    match pseudo_name(codepage) {
        Some(pseudo) => ty + seq!['('] + decimal(codepage as int) + seq![' '] + pseudo + seq![')'],
        None => match name {
            Some(units) => ty + seq!['('] + quotes_escaped(lossy_text::<Utf16ish>(units)) + seq![
                ')',
            ],
            None => ty + seq!['('] + decimal(codepage as int) + seq![')'],
        },
    }
}

fn push_decimal(text: &mut String, v: u32)
    ensures
        final(text)@ == old(text)@ + decimal(v as int),
    decreases v,
{
    if v >= 10 {
        push_decimal(text, v / 10);
        text.push((48u8 + (v % 10) as u8) as char);
        assert(old(text)@ + decimal(v as int) == (old(text)@ + decimal((v / 10) as int)).push(
            decimal_digit((v % 10) as int),
        ));
    } else {
        text.push((48u8 + v as u8) as char);
        assert(old(text)@ + decimal(v as int) == old(text)@.push(decimal_digit(v as int)));
    }
}

/// Appends the text of `units`, read as lenient UTF-16, with a backslash in
/// front of every double quote.
fn push_quotes_escaped(text: &mut String, units: &[u16])
    ensures
        final(text)@ == old(text)@ + quotes_escaped(lossy_text::<Utf16ish>(units@)),
{
    let name = Utf16ish::to_string_lossy(units);
    let name = name.as_str();
    let n = name.unicode_len();
    let mut i: usize = 0;
    while i < n
        invariant
            i <= n,
            n == name@.len(),
            text@ == old(text)@ + quotes_escaped(name@.take(i as int)),
        decreases n - i,
    {
        let ch = name.get_char(i);
        assert(name@.take(i + 1).drop_last() == name@.take(i as int));
        if ch == '"' {
            text.push('\\');
        }
        text.push(ch);
        i += 1;
    }
    assert(name@.take(n as int) == name@);
}

/// Shows a code page identifier of the type named `ty`.
///
/// A pseudo code page is shown by its number and its name. Any other is shown
/// by `name`, the description that the platform gave for it, where it gave
/// one, and by its number alone where it gave none.
pub fn debug(ty: &str, codepage: u32, name: Option<&[u16]>) -> (text: String)
    ensures
        text@ == debug_text(ty@, codepage, match name {
            Some(units) => Some(units@),
            None => None,
        }),
{
    let pseudo: Option<&'static str> = if codepage == 0 {
        Some("CP_ACP")
    } else if codepage == 1 {
        Some("CP_OEMCP")
    } else if codepage == 2 {
        Some("CP_MACCP")
    } else if codepage == 3 {
        Some("CP_THREAD_CP")
    } else if codepage == 42 {
        Some("CP_SYMBOL")
    } else {
        None
    };
    let mut text = String::new();
    text.append(ty);
    text.push('(');
    match pseudo {
        Some(pseudo) => {
            push_decimal(&mut text, codepage);
            text.push(' ');
            text.append(pseudo);
        },
        None => match name {
            Some(units) => {
                push_quotes_escaped(&mut text, units);
            },
            None => {
                push_decimal(&mut text, codepage);
            },
        },
    }
    text.push(')');
    text
}

impl CodePage {
    /// Shows the code page, by the description `name` that the platform gave
    /// for it where it gave one.
    pub fn debug(&self, name: Option<&[u16]>) -> (text: String)
        ensures
            text@ == debug_text("CodePage"@, self.number(), match name {
                Some(units) => Some(units@),
                None => None,
            }),
    {
        debug("CodePage", self.0, name)
    }
}

impl PsuedoCodePage {
    /// Shows the code page, by the description `name` that the platform gave
    /// for it where it gave one.
    pub fn debug(&self, name: Option<&[u16]>) -> (text: String)
        ensures
            text@ == debug_text("PsuedoCodePage"@, self.number(), match name {
                Some(units) => Some(units@),
                None => None,
            }),
    {
        debug("PsuedoCodePage", self.0, name)
    }
}

} // verus!
