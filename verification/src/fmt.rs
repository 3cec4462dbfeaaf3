//! Escaped text for code units, as a debugger or a log would show a C string.

use vstd::prelude::*;

verus! {

/// The lowercase hexadecimal digit for `n`, a number below 16.
pub open spec fn hex_digit(n: int) -> char {
    if n < 10 {
        ('0' as int + n) as char
    } else {
        ('a' as int + n - 10) as char
    }
}

/// The last `digits` hexadecimal digits of `v`, zero padded.
pub open spec fn hex_fixed(v: int, digits: nat) -> Seq<char>
    decreases digits,
{
    if digits == 0 {
        Seq::<char>::empty()
    } else {
        hex_fixed(v / 16, (digits - 1) as nat).push(hex_digit(v % 16))
    }
}

/// `v` in hexadecimal, without padding.
pub open spec fn hex_min(v: int) -> Seq<char>
    decreases v,
{
    if v < 16 {
        seq![hex_digit(v)]
    } else {
        hex_min(v / 16).push(hex_digit(v % 16))
    }
}

/// The escapes that every width shares: the named control characters, the
/// quotes, the backslash, and printable ASCII as itself.
pub open spec fn plain_escape(u: int) -> Option<Seq<char>> {
    if u == 0x00 {
        Some(seq!['\\', '0'])
    } else if u == 0x09 {
        Some(seq!['\\', 't'])
    } else if u == 0x0D {
        Some(seq!['\\', 'r'])
    } else if u == 0x0A {
        Some(seq!['\\', 'n'])
    } else if u == 0x27 {
        Some(seq!['\\', '\''])
    } else if u == 0x22 {
        Some(seq!['\\', '"'])
    } else if u == 0x5C {
        Some(seq!['\\', '\\'])
    } else if 0x20 <= u <= 0x7E {
        Some(seq![u as char])
    } else {
        None
    }
}

/// How one byte is shown: `\xNN` where no shared escape applies.
pub open spec fn escape_byte(b: u8) -> Seq<char> {
    match plain_escape(b as int) {
        Some(text) => text,
        None => seq!['\\', 'x'] + hex_fixed(b as int, 2),
    }
}

/// How one 16-bit unit is shown: `\uNNNN`, in the manner of C++, where no
/// shared escape applies. Rust has no escape for a UTF-16 code unit, and the
/// form chosen says so: a surrogate pair does not survive the round trip.
pub open spec fn escape_unit16(u: u16) -> Seq<char> {
    match plain_escape(u as int) {
        Some(text) => text,
        None => seq!['\\', 'u'] + hex_fixed(u as int, 4),
    }
}

/// How one 32-bit unit is shown: `\u{N}` where no shared escape applies.
pub open spec fn escape_unit32(u: u32) -> Seq<char> {
    match plain_escape(u as int) {
        Some(text) => text,
        None => seq!['\\', 'u', '{'] + hex_min(u as int) + seq!['}'],
    }
}

/// The escapes of `units`, one after the other.
pub open spec fn escaped<T>(units: Seq<T>, escape: spec_fn(T) -> Seq<char>) -> Seq<char>
    decreases units.len(),
{
    if units.len() == 0 {
        Seq::<char>::empty()
    } else {
        escaped(units.drop_last(), escape) + escape(units.last())
    }
}

/// `units` escaped, between double quotes.
pub open spec fn quoted<T>(units: Seq<T>, escape: spec_fn(T) -> Seq<char>) -> Seq<char> {
    seq!['"'] + escaped(units, escape) + seq!['"']
}

/// What `cstr_bytes` writes for `bytes`.
pub open spec fn cstr_bytes_text(bytes: Seq<u8>) -> Seq<char> {
    quoted(bytes, |b: u8| escape_byte(b))
}

/// What `c16_units` writes for `units`.
pub open spec fn c16_units_text(units: Seq<u16>) -> Seq<char> {
    quoted(units, |u: u16| escape_unit16(u))
}

/// What `c32_units` writes for `units`.
pub open spec fn c32_units_text(units: Seq<u32>) -> Seq<char> {
    quoted(units, |u: u32| escape_unit32(u))
}

/// What `char_units` writes for `units`.
pub open spec fn char_units_text(units: Seq<char>) -> Seq<char> {
    quoted(units, |c: char| escape_unit32(c as u32))
}

/// One more unit at the end adds its escape at the end.
proof fn lemma_escaped_step<T>(units: Seq<T>, escape: spec_fn(T) -> Seq<char>, i: int)
    requires
        0 <= i < units.len(),
    ensures
        escaped(units.take(i + 1), escape) == escaped(units.take(i), escape) + escape(units[i]),
{
    assert(units.take(i + 1).drop_last() == units.take(i));
}

fn push_hex_digit(text: &mut String, n: u8)
    requires
        n < 16,
    ensures
        final(text)@ == old(text)@.push(hex_digit(n as int)),
{
    if n < 10 {
        text.push((48u8 + n) as char);
    } else {
        text.push((97u8 + (n - 10)) as char);
    }
}

fn push_hex_fixed(text: &mut String, v: u16, digits: u8)
    requires
        digits <= 4,
    ensures
        final(text)@ == old(text)@ + hex_fixed(v as int, digits as nat),
    decreases digits,
{
    if digits > 0 {
        push_hex_fixed(text, v / 16, digits - 1);
        push_hex_digit(text, (v % 16) as u8);
        assert(old(text)@ + hex_fixed(v as int, digits as nat) == (old(text)@ + hex_fixed(
            (v / 16) as int,
            (digits - 1) as nat,
        )).push(hex_digit((v % 16) as int)));
    } else {
        assert(old(text)@ + hex_fixed(v as int, 0) == old(text)@);
    }
}

fn push_hex_min(text: &mut String, v: u32)
    ensures
        final(text)@ == old(text)@ + hex_min(v as int),
    decreases v,
{
    if v >= 16 {
        push_hex_min(text, v / 16);
        push_hex_digit(text, (v % 16) as u8);
        assert(old(text)@ + hex_min(v as int) == (old(text)@ + hex_min((v / 16) as int)).push(
            hex_digit((v % 16) as int),
        ));
    } else {
        push_hex_digit(text, v as u8);
        assert(old(text)@ + hex_min(v as int) == old(text)@.push(hex_digit(v as int)));
    }
}

/// Appends the shared escape of `u`, if it has one, and says whether it had.
fn push_plain_escape(text: &mut String, u: u32) -> (done: bool)
    ensures
        done == plain_escape(u as int) is Some,
        done ==> final(text)@ == old(text)@ + plain_escape(u as int)->0,
        !done ==> final(text)@ == old(text)@,
{
    let second: char = if u == 0x00 {
        '0'
    } else if u == 0x09 {
        't'
    } else if u == 0x0D {
        'r'
    } else if u == 0x0A {
        'n'
    } else if u == 0x27 {
        '\''
    } else if u == 0x22 {
        '"'
    } else if u == 0x5C {
        '\\'
    } else if 0x20 <= u && u <= 0x7E {
        text.push((u as u8) as char);
        assert(old(text)@ + seq![u as char] == old(text)@.push(u as char));
        return true;
    } else {
        return false;
    };
    text.push('\\');
    text.push(second);
    assert(old(text)@ + seq!['\\', second] == old(text)@.push('\\').push(second));
    true
}

/// Shows `bytes` as a quoted C string: printable ASCII as itself, the usual
/// control characters by name, any other byte as `\xNN`.
pub fn cstr_bytes(bytes: &[u8]) -> (text: String)
    ensures
        text@ == cstr_bytes_text(bytes@),
{
    let ghost escape = |b: u8| escape_byte(b);
    let mut text = String::new();
    text.push('"');
    let mut i: usize = 0;
    while i < bytes.len()
        invariant
            i <= bytes@.len(),
            escape == (|b: u8| escape_byte(b)),
            text@ == seq!['"'] + escaped(bytes@.take(i as int), escape),
        decreases bytes@.len() - i,
    {
        let b = bytes[i];
        let ghost before = text@;
        if !push_plain_escape(&mut text, b as u32) {
            text.push('\\');
            text.push('x');
            push_hex_fixed(&mut text, b as u16, 2);
            assert(text@ == before + (seq!['\\', 'x'] + hex_fixed(b as int, 2)));
        }
        proof {
            lemma_escaped_step(bytes@, escape, i as int);
            assert(text@ == before + escape(b));
        }
        i += 1;
    }
    text.push('"');
    assert(bytes@.take(i as int) == bytes@);
    text
}

/// Shows 16-bit `units` as a quoted string: printable ASCII as itself, the
/// usual control characters by name, any other unit as `\uNNNN`.
pub fn c16_units(units: &[u16]) -> (text: String)
    ensures
        text@ == c16_units_text(units@),
{
    let ghost escape = |u: u16| escape_unit16(u);
    let mut text = String::new();
    text.push('"');
    let mut i: usize = 0;
    while i < units.len()
        invariant
            i <= units@.len(),
            escape == (|u: u16| escape_unit16(u)),
            text@ == seq!['"'] + escaped(units@.take(i as int), escape),
        decreases units@.len() - i,
    {
        let u = units[i];
        let ghost before = text@;
        if !push_plain_escape(&mut text, u as u32) {
            text.push('\\');
            text.push('u');
            push_hex_fixed(&mut text, u, 4);
            assert(text@ == before + (seq!['\\', 'u'] + hex_fixed(u as int, 4)));
        }
        proof {
            lemma_escaped_step(units@, escape, i as int);
            assert(text@ == before + escape(u));
        }
        i += 1;
    }
    text.push('"');
    assert(units@.take(i as int) == units@);
    text
}

/// Appends the escape of one 32-bit unit.
fn push_escape_unit32(text: &mut String, u: u32)
    ensures
        final(text)@ == old(text)@ + escape_unit32(u),
{
    if !push_plain_escape(text, u) {
        text.push('\\');
        text.push('u');
        text.push('{');
        push_hex_min(text, u);
        text.push('}');
        assert(text@ == old(text)@ + (seq!['\\', 'u', '{'] + hex_min(u as int) + seq!['}']));
    }
}

/// Shows 32-bit `units` as a quoted string: printable ASCII as itself, the
/// usual control characters by name, any other unit as `\u{N}`.
pub fn c32_units(units: &[u32]) -> (text: String)
    ensures
        text@ == c32_units_text(units@),
{
    let ghost escape = |u: u32| escape_unit32(u);
    let mut text = String::new();
    text.push('"');
    let mut i: usize = 0;
    while i < units.len()
        invariant
            i <= units@.len(),
            escape == (|u: u32| escape_unit32(u)),
            text@ == seq!['"'] + escaped(units@.take(i as int), escape),
        decreases units@.len() - i,
    {
        let ghost before = text@;
        push_escape_unit32(&mut text, units[i]);
        proof {
            lemma_escaped_step(units@, escape, i as int);
            assert(text@ == before + escape(units@[i as int]));
        }
        i += 1;
    }
    text.push('"');
    assert(units@.take(i as int) == units@);
    text
}

/// Shows scalar values as a quoted string, each by its number as `c32_units`
/// shows a unit.
pub fn char_units(units: &[char]) -> (text: String)
    ensures
        text@ == char_units_text(units@),
{
    let ghost escape = |c: char| escape_unit32(c as u32);
    let mut text = String::new();
    text.push('"');
    let mut i: usize = 0;
    while i < units.len()
        invariant
            i <= units@.len(),
            escape == (|c: char| escape_unit32(c as u32)),
            text@ == seq!['"'] + escaped(units@.take(i as int), escape),
        decreases units@.len() - i,
    {
        let ghost before = text@;
        push_escape_unit32(&mut text, units[i] as u32);
        proof {
            lemma_escaped_step(units@, escape, i as int);
            assert(text@ == before + escape(units@[i as int]));
        }
        i += 1;
    }
    text.push('"');
    assert(units@.take(i as int) == units@);
    text
}

} // verus!
