//! String literals as C strings: what the text of a Rust string literal, as
//! it stands in a source file, holds once it is read as a C string of some
//! encoding.
//!
//! The literal may be plain (`"..."`), a byte string (`b"..."`), raw
//! (`r#"..."#`) or both. What comes out are the units of the string with
//! their terminator: free of any other terminator and valid for the encoding,
//! which is what the views ask of units that they take without a look.

use crate::encoding::utf16::{encode_utf16_scalar, valid_utf16};
use crate::encoding::{
    Encoding, Unknown16, Unknown32, Unknown8, Utf16, Utf16ish, Utf32, Utf32ish, Utf8, Utf8ish,
};
use crate::estring::EString0;
use crate::try_into_as_traits::str_to_chars;
use crate::unit::{has_nul, is_terminated, lemma_nul_index_unique, lemma_nul_is_zero, Unit};
use vstd::prelude::*;
use vstd::string::StringExecFns;
use vstd::utf8::{encode_scalar, is_scalar, valid_utf8};

verus! {

/// Why a literal is no C string.
#[derive(Clone, Copy, Debug, PartialEq, Eq)]
pub enum LiteralError {
    /// A raw literal opens with more `#`s than it closes with.
    UnbalancedHashes,
    /// The literal does not start with `"`.
    NoOpeningQuote,
    /// The literal does not end with `"`.
    NoClosingQuote,
    /// The literal holds a terminator, written out or as an escape.
    InteriorNul,
    /// A backslash is the last character.
    NoCharacterAfterBackslash,
    /// A backslash is followed by a character that starts no escape.
    UnexpectedEscape(char),
    /// `\x` is not followed by two hexadecimal digits.
    BadHexEscape,
    /// `\x` in a wide string, where it could mean a byte or a unit.
    AmbiguousHexEscape,
    /// `\x` above `7f` where the literal is no byte string or the encoding
    /// takes no arbitrary bytes.
    HexEscapeOutOfRange,
    /// `\u` in a byte string.
    UnicodeEscapeInBytes,
    /// `\u` is not followed by `{`.
    NoBraceAfterU,
    /// `\u{` is not followed by one to six hexadecimal digits and `}`.
    BadUnicodeEscape,
    /// `\u{...}` names a number that is no scalar value.
    InvalidCodepoint(u32),
}

/// A code unit that a literal can be written in.
pub trait LiteralUnit: Unit {
    /// The unit for the ASCII character `b`.
    spec fn from_ascii(b: u8) -> Self;

    /// The units that encode `c` at this width.
    spec fn encoded(c: char) -> Seq<Self>;

    /// Whether a unit is a byte, so that `\x` can name one.
    spec fn byte_sized() -> bool;

    /// The name of the unit's type.
    spec fn unit_name() -> Seq<char>;

    /// The name of the unit's type.
    fn name() -> (r: &'static str)
        ensures
            r@ == Self::unit_name(),
    ;

    /// Whether a unit is a byte, so that `\x` can name one.
    fn is_byte_sized() -> (r: bool)
        ensures
            r == Self::byte_sized(),
    ;

    /// The unit for the byte `b`.
    fn from_byte(b: u8) -> (r: Self)
        ensures
            r == Self::from_ascii(b),
    ;

    /// Appends the units that encode `c`.
    fn extend(units: &mut Vec<Self>, c: char)
        ensures
            final(units)@ == old(units)@ + Self::encoded(c),
    ;

    /// The unit of a byte other than zero is no terminator, and neither is any
    /// of the units that encode a scalar value other than zero.
    proof fn lemma_no_nul(b: u8, c: char)
        ensures
            b != 0 ==> Self::from_ascii(b) != Self::NUL,
            c != '\0' ==> !has_nul(Self::encoded(c)),
    ;
}

/// An encoding that a literal can be written in.
pub trait LiteralEncoding: Encoding where Self::Unit: LiteralUnit {
    /// Whether any byte may stand in a byte string literal of this encoding.
    spec fn arbitrary_bytes() -> bool;

    /// The name of the encoding's tag.
    spec fn tag_name() -> Seq<char>;

    /// The name of the encoding's tag.
    fn name() -> (r: &'static str)
        ensures
            r@ == Self::tag_name(),
    ;

    /// Whether any byte may stand in a byte string literal of this encoding.
    fn allow_arbitrary_bytes() -> (r: bool)
        ensures
            r == Self::arbitrary_bytes(),
    ;

    /// Valid units stay valid when an ASCII character, an allowed byte or the
    /// encoding of a scalar value is appended.
    proof fn lemma_append_valid(units: Seq<Self::Unit>, b: u8, c: char)
        requires
            Self::valid(units),
        ensures
            b <= 0x7F || (Self::arbitrary_bytes() && <Self::Unit as LiteralUnit>::byte_sized())
                ==> Self::valid(units.push(<Self::Unit as LiteralUnit>::from_ascii(b))),
            Self::valid(units + <Self::Unit as LiteralUnit>::encoded(c)),
    ;
}

/// The value of the hexadecimal digit `c`, where it is one.
pub open spec fn hex_value(c: char) -> Option<int> {
    if '0' <= c <= '9' {
        Some(c as int - '0' as int)
    } else if 'a' <= c <= 'f' {
        Some(c as int - 'a' as int + 10)
    } else if 'A' <= c <= 'F' {
        Some(c as int - 'A' as int + 10)
    } else {
        None
    }
}

/// The kind of a literal, read off its prefix: whether it is a byte string,
/// whether it is raw, and how many characters the prefix has.
pub open spec fn literal_prefix(literal: Seq<char>) -> (bool, bool, int) {
    if literal.len() >= 2 && ((literal[0] == 'r' && literal[1] == 'b') || (literal[0] == 'b'
        && literal[1] == 'r')) {
        (true, true, 2)
    } else if literal.len() >= 1 && literal[0] == 'r' {
        (false, true, 1)
    } else if literal.len() >= 1 && literal[0] == 'b' {
        (true, false, 1)
    } else {
        (false, false, 0)
    }
}

/// A literal without the `#`s around it, which have to come in pairs.
pub open spec fn without_hashes(literal: Seq<char>) -> Result<Seq<char>, LiteralError>
    decreases literal.len(),
{
    if literal.len() > 0 && literal[0] == '#' {
        if literal.len() >= 2 && literal.last() == '#' {
            without_hashes(literal.subrange(1, literal.len() - 1))
        } else {
            Err(LiteralError::UnbalancedHashes)
        }
    } else {
        Ok(literal)
    }
}

/// A literal without the quotes around it.
pub open spec fn without_quotes(literal: Seq<char>) -> Result<Seq<char>, LiteralError> {
    if literal.len() == 0 || literal[0] != '"' {
        Err(LiteralError::NoOpeningQuote)
    } else if literal.len() < 2 || literal.last() != '"' {
        Err(LiteralError::NoClosingQuote)
    } else {
        Ok(literal.subrange(1, literal.len() - 1))
    }
}

/// The number that the digits of a `\u{...}` escape name, read from `body[at]`
/// on with `value` read so far from `count` digits, and the index behind the
/// closing brace.
pub open spec fn unicode_escape(body: Seq<char>, at: int, value: int, count: int) -> Result<
    (int, int),
    LiteralError,
>
    decreases 7 - count,
{
    if at >= body.len() || count > 6 || count < 0 {
        Err(LiteralError::BadUnicodeEscape)
    } else if body[at] == '}' && count != 0 {
        Ok((value, at + 1))
    } else if hex_value(body[at]) is Some && count != 6 {
        unicode_escape(body, at + 1, value * 16 + hex_value(body[at])->0, count + 1)
    } else {
        Err(LiteralError::BadUnicodeEscape)
    }
}

/// What the front of the body of a literal holds: the units of one character
/// or escape, and the number of characters that it takes.
pub open spec fn token<E: LiteralEncoding>(body: Seq<char>, bytes: bool, raw: bool) -> Result<
    (Seq<E::Unit>, int),
    LiteralError,
> where E::Unit: LiteralUnit {
    let c = body[0];
    if c == '\\' && !raw {
        if body.len() < 2 {
            Err(LiteralError::NoCharacterAfterBackslash)
        } else if body[1] == '0' {
            Err(LiteralError::InteriorNul)
        } else if body[1] == 't' {
            Ok((seq![<E::Unit as LiteralUnit>::from_ascii(0x09)], 2))
        } else if body[1] == 'n' {
            Ok((seq![<E::Unit as LiteralUnit>::from_ascii(0x0A)], 2))
        } else if body[1] == 'r' {
            Ok((seq![<E::Unit as LiteralUnit>::from_ascii(0x0D)], 2))
        } else if body[1] == '\\' {
            Ok((seq![<E::Unit as LiteralUnit>::from_ascii(0x5C)], 2))
        } else if body[1] == '\'' {
            Ok((seq![<E::Unit as LiteralUnit>::from_ascii(0x27)], 2))
        } else if body[1] == '"' {
            Ok((seq![<E::Unit as LiteralUnit>::from_ascii(0x22)], 2))
        } else if body[1] == 'x' {
            if body.len() < 4 || hex_value(body[2]) is None || hex_value(body[3]) is None {
                Err(LiteralError::BadHexEscape)
            } else {
                let v = hex_value(body[2])->0 * 16 + hex_value(body[3])->0;
                if v == 0 {
                    Err(LiteralError::InteriorNul)
                } else if !<E::Unit as LiteralUnit>::byte_sized() {
                    Err(LiteralError::AmbiguousHexEscape)
                } else if !(bytes && E::arbitrary_bytes()) && v > 0x7F {
                    Err(LiteralError::HexEscapeOutOfRange)
                } else {
                    Ok((seq![<E::Unit as LiteralUnit>::from_ascii(v as u8)], 4))
                }
            }
        } else if body[1] == 'u' {
            if bytes {
                Err(LiteralError::UnicodeEscapeInBytes)
            } else if body.len() < 3 || body[2] != '{' {
                Err(LiteralError::NoBraceAfterU)
            } else {
                match unicode_escape(body, 3, 0, 0) {
                    Err(e) => Err(e),
                    Ok((v, end)) => if v == 0 {
                        Err(LiteralError::InteriorNul)
                    } else if !(0 <= v <= 0xFFFF_FFFF) || !is_scalar(v as u32) {
                        Err(LiteralError::InvalidCodepoint(v as u32))
                    } else {
                        Ok((<E::Unit as LiteralUnit>::encoded(v as u32 as char), end))
                    },
                }
            }
        } else {
            Err(LiteralError::UnexpectedEscape(body[1]))
        }
    } else if c == '\0' {
        Err(LiteralError::InteriorNul)
    } else {
        Ok((<E::Unit as LiteralUnit>::encoded(c), 1))
    }
}

/// What is left of `body` behind `taken` characters.
pub open spec fn body_after(body: Seq<char>, taken: int) -> Seq<char> {
    if 1 <= taken <= body.len() {
        body.skip(taken)
    } else {
        Seq::<char>::empty()
    }
}

/// The units that the body of a literal holds.
pub open spec fn body_units<E: LiteralEncoding>(body: Seq<char>, bytes: bool, raw: bool) -> Result<
    Seq<E::Unit>,
    LiteralError,
> where E::Unit: LiteralUnit
    decreases body.len(),
{
    if body.len() == 0 {
        Ok(Seq::<E::Unit>::empty())
    } else {
        match token::<E>(body, bytes, raw) {
            Err(e) => Err(e),
            Ok((units, taken)) => match body_units::<E>(body_after(body, taken), bytes, raw) {
                Err(e) => Err(e),
                Ok(rest) => Ok(units + rest),
            },
        }
    }
}

/// The units that a literal holds as a C string of encoding `E`, terminator
/// included.
pub open spec fn literal_units<E: LiteralEncoding>(literal: Seq<char>) -> Result<
    Seq<E::Unit>,
    LiteralError,
> where E::Unit: LiteralUnit {
    let (bytes, raw, prefix) = literal_prefix(literal);
    match without_hashes(literal.skip(prefix)) {
        Err(e) => Err(e),
        Ok(quoted) => match without_quotes(quoted) {
            Err(e) => Err(e),
            Ok(body) => match body_units::<E>(body, bytes, raw) {
                Err(e) => Err(e),
                Ok(units) => Ok(units.push(E::Unit::NUL)),
            },
        },
    }
}

/// The bytes of the UTF-8 forms are in their ranges, and none of them is zero
/// but the one byte of U+0000.
proof fn lemma_utf8_bytes(v: u32)
    by (bit_vector)
    ensures
        (v & 0x7F) <= 0x7F,
        ((v >> 6) & 0x1F) <= 0x1F,
        ((v >> 12) & 0x0F) <= 0x0F,
        ((v >> 18) & 0x07) <= 0x07,
        (v & 0x3F) <= 0x3F,
        ((v >> 6) & 0x3F) <= 0x3F,
        ((v >> 12) & 0x3F) <= 0x3F,
        0 < v <= 0x7F ==> (v & 0x7F) as u8 != 0,
        0xC0u8 | (((v >> 6) & 0x1F) as u8) != 0,
        0xE0u8 | (((v >> 12) & 0x0F) as u8) != 0,
        0xF0u8 | (((v >> 18) & 0x07) as u8) != 0,
        0x80u8 | ((v & 0x3F) as u8) != 0,
        0x80u8 | (((v >> 6) & 0x3F) as u8) != 0,
        0x80u8 | (((v >> 12) & 0x3F) as u8) != 0,
{
}

impl LiteralUnit for u8 {
    open spec fn from_ascii(b: u8) -> u8 {
        b
    }

    open spec fn encoded(c: char) -> Seq<u8> {
        encode_scalar(c as u32)
    }

    open spec fn byte_sized() -> bool {
        true
    }

    open spec fn unit_name() -> Seq<char> {
        "u8"@
    }

    fn name() -> (r: &'static str) {
        "u8"
    }

    fn is_byte_sized() -> (r: bool) {
        true
    }

    fn from_byte(b: u8) -> (r: u8) {
        b
    }

    fn extend(units: &mut Vec<u8>, c: char) {
        let v = c as u32;
        proof {
            vstd::utf8::char_is_scalar(c);
            lemma_utf8_bytes(v);
        }
        if v <= 0x7F {
            units.push((v & 0x7F) as u8);
            assert(units@ == old(units)@ + encode_scalar(v));
        } else if v <= 0x7FF {
            units.push(0xC0 | (((v >> 6) & 0x1F) as u8));
            units.push(0x80 | ((v & 0x3F) as u8));
            assert(units@ == old(units)@ + encode_scalar(v));
        } else if v <= 0xFFFF {
            units.push(0xE0 | (((v >> 12) & 0x0F) as u8));
            units.push(0x80 | (((v >> 6) & 0x3F) as u8));
            units.push(0x80 | ((v & 0x3F) as u8));
            assert(units@ == old(units)@ + encode_scalar(v));
        } else {
            units.push(0xF0 | (((v >> 18) & 0x07) as u8));
            units.push(0x80 | (((v >> 12) & 0x3F) as u8));
            units.push(0x80 | (((v >> 6) & 0x3F) as u8));
            units.push(0x80 | ((v & 0x3F) as u8));
            assert(units@ == old(units)@ + encode_scalar(v));
        }
    }

    proof fn lemma_no_nul(b: u8, c: char) {
        lemma_nul_is_zero();
        let v = c as u32;
        vstd::utf8::char_is_scalar(c);
        lemma_utf8_bytes(v);
        if c != '\0' {
            vstd::utf8::char_u32_cast(c, v);
            vstd::utf8::char_u32_cast('\0', 0u32);
            assert(v != 0);
            let e = encode_scalar(v);
            assert forall|i: int| 0 <= i < e.len() implies e[i] != 0u8 by {}
        }
    }
}

impl LiteralUnit for u16 {
    open spec fn from_ascii(b: u8) -> u16 {
        b as u16
    }

    open spec fn encoded(c: char) -> Seq<u16> {
        encode_utf16_scalar(c)
    }

    open spec fn byte_sized() -> bool {
        false
    }

    open spec fn unit_name() -> Seq<char> {
        "u16"@
    }

    fn name() -> (r: &'static str) {
        "u16"
    }

    fn is_byte_sized() -> (r: bool) {
        false
    }

    fn from_byte(b: u8) -> (r: u16) {
        b as u16
    }

    fn extend(units: &mut Vec<u16>, c: char) {
        crate::try_into_as_traits::push_utf16(units, c);
    }

    proof fn lemma_no_nul(b: u8, c: char) {
        lemma_nul_is_zero();
        let v = c as u32;
        vstd::utf8::char_is_scalar(c);
        if c != '\0' {
            vstd::utf8::char_u32_cast(c, v);
            vstd::utf8::char_u32_cast('\0', 0u32);
            let e = encode_utf16_scalar(c);
            assert forall|i: int| 0 <= i < e.len() implies e[i] != 0u16 by {}
        }
    }
}

impl LiteralUnit for u32 {
    open spec fn from_ascii(b: u8) -> u32 {
        b as u32
    }

    open spec fn encoded(c: char) -> Seq<u32> {
        seq![c as u32]
    }

    open spec fn byte_sized() -> bool {
        false
    }

    open spec fn unit_name() -> Seq<char> {
        "u32"@
    }

    fn name() -> (r: &'static str) {
        "u32"
    }

    fn is_byte_sized() -> (r: bool) {
        false
    }

    fn from_byte(b: u8) -> (r: u32) {
        b as u32
    }

    fn extend(units: &mut Vec<u32>, c: char) {
        units.push(c as u32);
        assert(units@ == old(units)@ + seq![c as u32]);
    }

    proof fn lemma_no_nul(b: u8, c: char) {
        lemma_nul_is_zero();
        if c != '\0' {
            vstd::utf8::char_u32_cast(c, c as u32);
            vstd::utf8::char_u32_cast('\0', 0u32);
            let e = seq![c as u32];
            assert forall|i: int| 0 <= i < e.len() implies e[i] != 0u32 by {}
        }
    }
}

impl LiteralUnit for char {
    open spec fn from_ascii(b: u8) -> char {
        b as char
    }

    open spec fn encoded(c: char) -> Seq<char> {
        seq![c]
    }

    open spec fn byte_sized() -> bool {
        false
    }

    open spec fn unit_name() -> Seq<char> {
        "char"@
    }

    fn name() -> (r: &'static str) {
        "char"
    }

    fn is_byte_sized() -> (r: bool) {
        false
    }

    fn from_byte(b: u8) -> (r: char) {
        b as char
    }

    fn extend(units: &mut Vec<char>, c: char) {
        units.push(c);
        assert(units@ == old(units)@ + seq![c]);
    }

    proof fn lemma_no_nul(b: u8, c: char) {
        lemma_nul_is_zero();
        if b != 0 {
            vstd::utf8::char_u32_cast(b as char, b as u32);
            vstd::utf8::char_u32_cast('\0', 0u32);
        }
        if c != '\0' {
            let e = seq![c];
            assert forall|i: int| 0 <= i < e.len() implies e[i] != '\0' by {}
        }
    }
}

impl LiteralEncoding for Utf8 {
    open spec fn arbitrary_bytes() -> bool {
        false
    }

    open spec fn tag_name() -> Seq<char> {
        "Utf8"@
    }

    fn name() -> (r: &'static str) {
        "Utf8"
    }

    fn allow_arbitrary_bytes() -> (r: bool) {
        false
    }

    proof fn lemma_append_valid(units: Seq<<Utf8 as Encoding>::Unit>, b: u8, c: char) {
        let one = seq![b];
        if b <= 0x7F {
            assert(vstd::utf8::valid_first_scalar(one)) by {
                assert(b & 0x7F == b) by (bit_vector)
                    requires
                        b <= 0x7F,
                ;
            }
            assert(vstd::utf8::pop_first_scalar(one) == Seq::<u8>::empty());
            assert(valid_utf8(one)) by {
                reveal_with_fuel(vstd::utf8::valid_utf8, 2);
            }
            vstd::utf8::valid_utf8_concat(units, one);
            assert(units + one == units.push(b));
        }
        let text = seq![c];
        vstd::utf8::encode_utf8_valid_utf8(text);
        reveal_with_fuel(vstd::utf8::encode_utf8, 2);
        assert(encode_scalar(c as u32) + Seq::<u8>::empty() == encode_scalar(c as u32));
        assert(vstd::utf8::encode_utf8(text) == encode_scalar(c as u32));
        vstd::utf8::valid_utf8_concat(units, encode_scalar(c as u32));
    }
}

impl LiteralEncoding for Utf8ish {
    open spec fn arbitrary_bytes() -> bool {
        true
    }

    open spec fn tag_name() -> Seq<char> {
        "Utf8ish"@
    }

    fn name() -> (r: &'static str) {
        "Utf8ish"
    }

    fn allow_arbitrary_bytes() -> (r: bool) {
        true
    }

    proof fn lemma_append_valid(units: Seq<<Utf8ish as Encoding>::Unit>, b: u8, c: char) {
    }
}

impl LiteralEncoding for Unknown8 {
    open spec fn arbitrary_bytes() -> bool {
        true
    }

    open spec fn tag_name() -> Seq<char> {
        "Unknown8"@
    }

    fn name() -> (r: &'static str) {
        "Unknown8"
    }

    fn allow_arbitrary_bytes() -> (r: bool) {
        true
    }

    proof fn lemma_append_valid(units: Seq<<Unknown8 as Encoding>::Unit>, b: u8, c: char) {
    }
}

impl LiteralEncoding for Utf16 {
    open spec fn arbitrary_bytes() -> bool {
        false
    }

    open spec fn tag_name() -> Seq<char> {
        "Utf16"@
    }

    fn name() -> (r: &'static str) {
        "Utf16"
    }

    fn allow_arbitrary_bytes() -> (r: bool) {
        false
    }

    proof fn lemma_append_valid(units: Seq<<Utf16 as Encoding>::Unit>, b: u8, c: char) {
        let one = seq![b as u16];
        if b <= 0x7F {
            assert(one.skip(1) == Seq::<u16>::empty());
            assert(valid_utf16(one)) by {
                reveal_with_fuel(crate::encoding::utf16::valid_utf16, 2);
            }
            crate::encoding::utf16::lemma_valid_utf16_concat(units, one);
            assert(units + one == units.push(b as u16));
        }
        crate::encoding::utf16::lemma_valid_utf16_scalar(c);
        crate::encoding::utf16::lemma_valid_utf16_concat(units, encode_utf16_scalar(c));
    }
}

impl LiteralEncoding for Utf16ish {
    open spec fn arbitrary_bytes() -> bool {
        false
    }

    open spec fn tag_name() -> Seq<char> {
        "Utf16ish"@
    }

    fn name() -> (r: &'static str) {
        "Utf16ish"
    }

    fn allow_arbitrary_bytes() -> (r: bool) {
        false
    }

    proof fn lemma_append_valid(units: Seq<<Utf16ish as Encoding>::Unit>, b: u8, c: char) {
    }
}

impl LiteralEncoding for Unknown16 {
    open spec fn arbitrary_bytes() -> bool {
        false
    }

    open spec fn tag_name() -> Seq<char> {
        "Unknown16"@
    }

    fn name() -> (r: &'static str) {
        "Unknown16"
    }

    fn allow_arbitrary_bytes() -> (r: bool) {
        false
    }

    proof fn lemma_append_valid(units: Seq<<Unknown16 as Encoding>::Unit>, b: u8, c: char) {
    }
}

impl LiteralEncoding for Utf32 {
    open spec fn arbitrary_bytes() -> bool {
        false
    }

    open spec fn tag_name() -> Seq<char> {
        "Utf32"@
    }

    fn name() -> (r: &'static str) {
        "Utf32"
    }

    fn allow_arbitrary_bytes() -> (r: bool) {
        false
    }

    proof fn lemma_append_valid(units: Seq<<Utf32 as Encoding>::Unit>, b: u8, c: char) {
    }
}

impl LiteralEncoding for Utf32ish {
    open spec fn arbitrary_bytes() -> bool {
        false
    }

    open spec fn tag_name() -> Seq<char> {
        "Utf32ish"@
    }

    fn name() -> (r: &'static str) {
        "Utf32ish"
    }

    fn allow_arbitrary_bytes() -> (r: bool) {
        false
    }

    proof fn lemma_append_valid(units: Seq<<Utf32ish as Encoding>::Unit>, b: u8, c: char) {
    }
}

impl LiteralEncoding for Unknown32 {
    open spec fn arbitrary_bytes() -> bool {
        false
    }

    open spec fn tag_name() -> Seq<char> {
        "Unknown32"@
    }

    fn name() -> (r: &'static str) {
        "Unknown32"
    }

    fn allow_arbitrary_bytes() -> (r: bool) {
        false
    }

    proof fn lemma_append_valid(units: Seq<<Unknown32 as Encoding>::Unit>, b: u8, c: char) {
    }
}

/// Error or units: `units` in front of what `rest` holds.
pub open spec fn prepend<U>(units: Seq<U>, rest: Result<Seq<U>, LiteralError>) -> Result<
    Seq<U>,
    LiteralError,
> {
    match rest {
        Ok(rest) => Ok(units + rest),
        Err(e) => Err(e),
    }
}

/// The value of the hexadecimal digit `c`, where it is one.
fn hex_digit_value(c: char) -> (r: Option<u8>)
    ensures
        r is Some <==> hex_value(c) is Some,
        r matches Some(v) ==> v == hex_value(c)->0 && v < 16,
{
    let v = c as u32;
    if '0' <= c && c <= '9' {
        Some((v - 0x30) as u8)
    } else if 'a' <= c && c <= 'f' {
        Some((v - 0x61 + 10) as u8)
    } else if 'A' <= c && c <= 'F' {
        Some((v - 0x41 + 10) as u8)
    } else {
        None
    }
}

/// Reads the digits and the closing brace of a `\u{...}` escape, which start
/// at `body[3]`.
fn read_unicode_escape(body: &[char]) -> (r: Result<(u32, usize), LiteralError>)
    ensures
        match unicode_escape(body@, 3, 0, 0) {
            Ok((v, end)) => r == Ok::<(u32, usize), LiteralError>((v as u32, end as usize)) && 0
                <= v <= 0xFF_FFFF && 4 <= end <= body@.len(),
            Err(e) => r == Err::<(u32, usize), LiteralError>(e),
        },
{
    let mut v: u32 = 0;
    let mut count: usize = 0;
    loop
        invariant
            count <= 6,
            0 <= v < pow16(count as int),
            unicode_escape(body@, 3 + count, v as int, count as int) == unicode_escape(
                body@,
                3,
                0,
                0,
            ),
        decreases 7 - count,
    {
        let at = 3 + count;
        if at >= body.len() {
            return Err(LiteralError::BadUnicodeEscape);
        }
        let c = body[at];
        if c == '}' && count != 0 {
            return Ok((v, at + 1));
        }
        match hex_digit_value(c) {
            Some(d) => {
                if count == 6 {
                    return Err(LiteralError::BadUnicodeEscape);
                }
                v = v * 16 + d as u32;
                count = count + 1;
            },
            None => {
                return Err(LiteralError::BadUnicodeEscape);
            },
        }
    }
}

/// Sixteen to the power of `n`, for the few `n` that an escape can reach.
pub open spec fn pow16(n: int) -> int {
    if n <= 0 {
        1
    } else if n == 1 {
        0x10
    } else if n == 2 {
        0x100
    } else if n == 3 {
        0x1000
    } else if n == 4 {
        0x1_0000
    } else if n == 5 {
        0x10_0000
    } else {
        0x100_0000
    }
}

/// Reads one character or escape off the front of `body` and appends its
/// units. Gives the number of characters that it took.
fn read_token<E: LiteralEncoding>(
    body: &[char],
    bytes: bool,
    raw: bool,
    units: &mut Vec<E::Unit>,
) -> (r: Result<usize, LiteralError>) where E::Unit: LiteralUnit
    requires
        body@.len() > 0,
        E::valid(old(units)@),
        !has_nul(old(units)@),
    ensures
        match token::<E>(body@, bytes, raw) {
            Ok((token, taken)) => r == Ok::<usize, LiteralError>(taken as usize) && 1 <= taken
                <= body@.len() && final(units)@ == old(units)@ + token && E::valid(
                final(units)@,
            ) && !has_nul(final(units)@),
            Err(e) => r == Err::<usize, LiteralError>(e),
        },
{
    let c = body[0];
    let ghost before = units@;
    if c == '\\' && !raw {
        if body.len() < 2 {
            return Err(LiteralError::NoCharacterAfterBackslash);
        }
        let escape = body[1];
        let ascii: u8 = if escape == '0' {
            return Err(LiteralError::InteriorNul);
        } else if escape == 't' {
            0x09
        } else if escape == 'n' {
            0x0A
        } else if escape == 'r' {
            0x0D
        } else if escape == '\\' {
            0x5C
        } else if escape == '\'' {
            0x27
        } else if escape == '"' {
            0x22
        } else if escape == 'x' {
            if body.len() < 4 {
                return Err(LiteralError::BadHexEscape);
            }
            let v: u8 = match (hex_digit_value(body[2]), hex_digit_value(body[3])) {
                (Some(high), Some(low)) => high * 16 + low,
                _ => {
                    return Err(LiteralError::BadHexEscape);
                },
            };
            if v == 0 {
                return Err(LiteralError::InteriorNul);
            } else if !<E::Unit as LiteralUnit>::is_byte_sized() {
                return Err(LiteralError::AmbiguousHexEscape);
            } else if !(bytes && E::allow_arbitrary_bytes()) && v > 0x7F {
                return Err(LiteralError::HexEscapeOutOfRange);
            }
            units.push(<E::Unit as LiteralUnit>::from_byte(v));
            proof {
                let unit = <E::Unit as LiteralUnit>::from_ascii(v);
                E::lemma_append_valid(before, v, 'a');
                <E::Unit as LiteralUnit>::lemma_no_nul(v, 'a');
                lemma_push_no_nul(before, unit);
                assert(before.push(unit) == before + seq![unit]);
            }
            return Ok(4);
        } else if escape == 'u' {
            if bytes {
                return Err(LiteralError::UnicodeEscapeInBytes);
            }
            if body.len() < 3 || body[2] != '{' {
                return Err(LiteralError::NoBraceAfterU);
            }
            let (v, end) = match read_unicode_escape(body) {
                Ok(found) => found,
                Err(e) => {
                    return Err(e);
                },
            };
            if v == 0 {
                return Err(LiteralError::InteriorNul);
            }
            let c = match char::from_u32(v) {
                Some(c) => c,
                None => {
                    return Err(LiteralError::InvalidCodepoint(v));
                },
            };
            <E::Unit as LiteralUnit>::extend(units, c);
            proof {
                vstd::utf8::char_u32_cast('\0', 0u32);
                E::lemma_append_valid(before, 0u8, c);
                <E::Unit as LiteralUnit>::lemma_no_nul(0u8, c);
                lemma_concat_no_nul(before, <E::Unit as LiteralUnit>::encoded(c));
            }
            return Ok(end);
        } else {
            return Err(LiteralError::UnexpectedEscape(escape));
        };
        units.push(<E::Unit as LiteralUnit>::from_byte(ascii));
        proof {
            let unit = <E::Unit as LiteralUnit>::from_ascii(ascii);
            E::lemma_append_valid(before, ascii, 'a');
            <E::Unit as LiteralUnit>::lemma_no_nul(ascii, 'a');
            lemma_push_no_nul(before, unit);
            assert(before.push(unit) == before + seq![unit]);
        }
        Ok(2)
    } else if c == '\0' {
        Err(LiteralError::InteriorNul)
    } else {
        <E::Unit as LiteralUnit>::extend(units, c);
        proof {
            E::lemma_append_valid(before, 0u8, c);
            <E::Unit as LiteralUnit>::lemma_no_nul(0u8, c);
            lemma_concat_no_nul(before, <E::Unit as LiteralUnit>::encoded(c));
        }
        Ok(1)
    }
}

/// Units without a terminator stay so when a unit that is none is appended.
proof fn lemma_push_no_nul<U: Unit>(units: Seq<U>, unit: U)
    requires
        !has_nul(units),
        unit != U::NUL,
    ensures
        !has_nul(units.push(unit)),
{
    let all = units.push(unit);
    if has_nul(all) {
        let i = choose|i: int| 0 <= i < all.len() && all[i] == U::NUL;
        if i < units.len() {
            assert(units[i] == U::NUL);
        }
    }
}

/// Units without a terminator stay so when units without one are appended.
proof fn lemma_concat_no_nul<U: Unit>(units: Seq<U>, more: Seq<U>)
    requires
        !has_nul(units),
        !has_nul(more),
    ensures
        !has_nul(units + more),
{
    let all = units + more;
    if has_nul(all) {
        let i = choose|i: int| 0 <= i < all.len() && all[i] == U::NUL;
        if i < units.len() {
            assert(units[i] == U::NUL);
        } else {
            assert(more[i - units.len()] == U::NUL);
        }
    }
}

/// Reads the body of a literal: the units of its characters and escapes, one
/// after the other.
fn parse_body<E: LiteralEncoding>(body: &[char], bytes: bool, raw: bool) -> (r: Result<
    Vec<E::Unit>,
    LiteralError,
>) where E::Unit: LiteralUnit
    ensures
        match body_units::<E>(body@, bytes, raw) {
            Ok(units) => r matches Ok(found) && found@ == units && E::valid(units) && !has_nul(
                units,
            ),
            Err(e) => r matches Err(found) && found == e,
        },
{
    let mut units: Vec<E::Unit> = Vec::new();
    let mut rest = body;
    proof {
        E::lemma_valid(units@);
        assert(units@ == Seq::<E::Unit>::empty());
    }
    while rest.len() > 0
        invariant
            E::valid(units@),
            !has_nul(units@),
            prepend(units@, body_units::<E>(rest@, bytes, raw)) == body_units::<E>(
                body@,
                bytes,
                raw,
            ),
        decreases rest@.len(),
    {
        let ghost before = units@;
        match read_token::<E>(rest, bytes, raw, &mut units) {
            Ok(taken) => {
                let (_, after) = rest.split_at(taken);
                proof {
                    let found = token::<E>(rest@, bytes, raw)->Ok_0.0;
                    assert(after@ == body_after(rest@, taken as int));
                    match body_units::<E>(after@, bytes, raw) {
                        Ok(tail) => {
                            assert(before + (found + tail) == (before + found) + tail);
                        },
                        Err(_) => {},
                    }
                }
                rest = after;
            },
            Err(e) => {
                return Err(e);
            },
        }
    }
    assert(units@ + Seq::<E::Unit>::empty() == units@);
    Ok(units)
}

/// Reads a literal, given by its characters, as a C string of encoding `E`.
pub fn parse_chars<E: LiteralEncoding>(literal: &[char]) -> (r: Result<
    Vec<E::Unit>,
    LiteralError,
>) where E::Unit: LiteralUnit
    ensures
        match literal_units::<E>(literal@) {
            Ok(units) => r matches Ok(found) && found@ == units,
            Err(e) => r matches Err(found) && found == e,
        },
        r matches Ok(found) ==> is_terminated(found@) && E::valid(found@.drop_last()),
{
    let len = literal.len();
    let (bytes, raw, prefix): (bool, bool, usize) = if len >= 2 && ((literal[0] == 'r'
        && literal[1] == 'b') || (literal[0] == 'b' && literal[1] == 'r')) {
        (true, true, 2)
    } else if len >= 1 && literal[0] == 'r' {
        (false, true, 1)
    } else if len >= 1 && literal[0] == 'b' {
        (true, false, 1)
    } else {
        (false, false, 0)
    };
    let mut from: usize = prefix;
    let mut to: usize = len;
    assert(literal@.subrange(from as int, to as int) == literal@.skip(prefix as int));
    while from < to && literal[from] == '#'
        invariant
            prefix <= from <= to <= len,
            len == literal@.len(),
            literal_prefix(literal@) == (bytes, raw, prefix as int),
            without_hashes(literal@.subrange(from as int, to as int)) == without_hashes(
                literal@.skip(prefix as int),
            ),
        decreases to - from,
    {
        let ghost quoted = literal@.subrange(from as int, to as int);
        assert(quoted[0] == '#');
        assert(quoted.last() == literal@[to - 1]);
        if to - from < 2 || literal[to - 1] != '#' {
            return Err(LiteralError::UnbalancedHashes);
        }
        assert(quoted.subrange(1, quoted.len() - 1) == literal@.subrange(from + 1, to - 1));
        from = from + 1;
        to = to - 1;
    }
    let ghost quoted = literal@.subrange(from as int, to as int);
    assert(from < to ==> quoted[0] == literal@[from as int]);
    if from >= to || literal[from] != '"' {
        return Err(LiteralError::NoOpeningQuote);
    }
    assert(quoted.last() == literal@[to - 1]);
    if to - from < 2 || literal[to - 1] != '"' {
        return Err(LiteralError::NoClosingQuote);
    }
    let (head, _) = literal.split_at(to - 1);
    let (_, body) = head.split_at(from + 1);
    assert(body@ == quoted.subrange(1, quoted.len() - 1));
    match parse_body::<E>(body, bytes, raw) {
        Ok(units) => {
            let mut units = units;
            let ghost content = units@;
            units.push(E::Unit::NUL);
            proof {
                lemma_nul_index_unique(units@, content.len() as int);
                assert(units@.drop_last() == content);
            }
            Ok(units)
        },
        Err(e) => Err(e),
    }
}

/// Reads a literal, as it stands in a source file, as a C string of encoding
/// `E`: the units of the string with their terminator, which is the only one
/// among them, and valid for `E`.
pub fn parse_str<E: LiteralEncoding>(literal: &str) -> (r: Result<Vec<E::Unit>, LiteralError>) where
    E::Unit: LiteralUnit,

    ensures
        match literal_units::<E>(literal@) {
            Ok(units) => r matches Ok(found) && found@ == units,
            Err(e) => r matches Err(found) && found == e,
        },
        r matches Ok(found) ==> is_terminated(found@) && E::valid(found@.drop_last()),
{
    let chars = str_to_chars(literal);
    parse_chars::<E>(chars.as_slice())
}

/// The uppercase hexadecimal digit for `n`, a number below 16.
pub open spec fn upper_hex_digit(n: int) -> char {
    if n < 10 {
        ('0' as int + n) as char
    } else {
        ('A' as int + n - 10) as char
    }
}

/// The last `digits` uppercase hexadecimal digits of `v`, zero padded.
pub open spec fn upper_hex_fixed(v: int, digits: nat) -> Seq<char>
    decreases digits,
{
    if digits == 0 {
        Seq::<char>::empty()
    } else {
        upper_hex_fixed(v / 16, (digits - 1) as nat).push(upper_hex_digit(v % 16))
    }
}

/// `v` in uppercase hexadecimal, without padding.
pub open spec fn upper_hex_min(v: int) -> Seq<char>
    decreases v,
{
    if v < 16 {
        seq![upper_hex_digit(v)]
    } else {
        upper_hex_min(v / 16).push(upper_hex_digit(v % 16))
    }
}

/// `v` in uppercase hexadecimal, with zeros in front of fewer than four
/// digits.
pub open spec fn upper_hex(v: int) -> Seq<char> {
    if v < 0x1_0000 {
        upper_hex_fixed(v, 4)
    } else {
        upper_hex_min(v)
    }
}

fn push_upper_hex_digit(text: &mut String, n: u8)
    requires
        n < 16,
    ensures
        final(text)@ == old(text)@.push(upper_hex_digit(n as int)),
{
    if n < 10 {
        text.push((48u8 + n) as char);
    } else {
        text.push((65u8 + (n - 10)) as char);
    }
}

fn push_upper_hex_fixed(text: &mut String, v: u32, digits: u8)
    ensures
        final(text)@ == old(text)@ + upper_hex_fixed(v as int, digits as nat),
    decreases digits,
{
    if digits > 0 {
        push_upper_hex_fixed(text, v / 16, digits - 1);
        push_upper_hex_digit(text, (v % 16) as u8);
        assert(old(text)@ + upper_hex_fixed(v as int, digits as nat) == (old(text)@
            + upper_hex_fixed((v / 16) as int, (digits - 1) as nat)).push(
            upper_hex_digit((v % 16) as int),
        ));
    } else {
        assert(old(text)@ + upper_hex_fixed(v as int, 0) == old(text)@);
    }
}

fn push_upper_hex_min(text: &mut String, v: u32)
    ensures
        final(text)@ == old(text)@ + upper_hex_min(v as int),
    decreases v,
{
    if v >= 16 {
        push_upper_hex_min(text, v / 16);
        push_upper_hex_digit(text, (v % 16) as u8);
        assert(old(text)@ + upper_hex_min(v as int) == (old(text)@ + upper_hex_min(
            (v / 16) as int,
        )).push(upper_hex_digit((v % 16) as int)));
    } else {
        push_upper_hex_digit(text, v as u8);
        assert(old(text)@ + upper_hex_min(v as int) == old(text)@.push(
            upper_hex_digit(v as int),
        ));
    }
}

fn push_upper_hex(text: &mut String, v: u32)
    ensures
        final(text)@ == old(text)@ + upper_hex(v as int),
{
    if v < 0x1_0000 {
        push_upper_hex_fixed(text, v, 4);
    } else {
        push_upper_hex_min(text, v);
    }
}

impl LiteralError {
    /// What `message` says.
    pub open spec fn message_text(self) -> Seq<char> {
        match self {
            LiteralError::UnbalancedHashes => "expected string literal to havea balanced number of starting and ending `#`s"@,
            LiteralError::NoOpeningQuote => "expected string literal to start with `\"`"@,
            LiteralError::NoClosingQuote => "expected string literal to end with `\"`"@,
            LiteralError::InteriorNul => "interior `\0` not permitted in C string"@,
            LiteralError::NoCharacterAfterBackslash => "expected character after `\\` in string"@,
            LiteralError::UnexpectedEscape(c) => "unexpected escape sequence `\\"@.push(c)
                + "` in string"@,
            LiteralError::BadHexEscape => "expected two hexidecimal characters after `\\x` escape sequence"@,
            LiteralError::AmbiguousHexEscape => "`\\x` escape sequences are ambiguous - and thus forbidden - inside wide strings (should it be 1 byte? 1 code unit? 2 hex values? 4? 8?)"@,
            LiteralError::HexEscapeOutOfRange => "this form of character escape may only be used with characters in the range [\\x00-\\x7f]"@,
            LiteralError::UnicodeEscapeInBytes => "unicode escape sequences cannot be used as a byte or in a byte string"@,
            LiteralError::NoBraceAfterU => "expected `{` after `\\u` escape sequence"@,
            LiteralError::BadUnicodeEscape => "expected 1-6 hexidecimal characters in `\\u{...}` escape sequence"@,
            LiteralError::InvalidCodepoint(v) => "invalid unicode codepoint U+"@ + upper_hex(
                v as int,
            ) + " in `\\u{...}` escape sequence"@,
        }
    }

    /// What is wrong with the literal, in words.
    pub fn message(&self) -> (text: String)
        ensures
            text@ == self.message_text(),
    {
        match self {
            LiteralError::UnbalancedHashes => String::from_str(
                "expected string literal to havea balanced number of starting and ending `#`s",
            ),
            LiteralError::NoOpeningQuote => String::from_str(
                "expected string literal to start with `\"`",
            ),
            LiteralError::NoClosingQuote => String::from_str(
                "expected string literal to end with `\"`",
            ),
            LiteralError::InteriorNul => String::from_str(
                "interior `\0` not permitted in C string",
            ),
            LiteralError::NoCharacterAfterBackslash => String::from_str(
                "expected character after `\\` in string",
            ),
            LiteralError::UnexpectedEscape(c) => {
                let mut text = String::from_str("unexpected escape sequence `\\");
                text.push(*c);
                text.append("` in string");
                text
            },
            LiteralError::BadHexEscape => String::from_str(
                "expected two hexidecimal characters after `\\x` escape sequence",
            ),
            LiteralError::AmbiguousHexEscape => String::from_str(
                "`\\x` escape sequences are ambiguous - and thus forbidden - inside wide strings (should it be 1 byte? 1 code unit? 2 hex values? 4? 8?)",
            ),
            LiteralError::HexEscapeOutOfRange => String::from_str(
                "this form of character escape may only be used with characters in the range [\\x00-\\x7f]",
            ),
            LiteralError::UnicodeEscapeInBytes => String::from_str(
                "unicode escape sequences cannot be used as a byte or in a byte string",
            ),
            LiteralError::NoBraceAfterU => String::from_str(
                "expected `{` after `\\u` escape sequence",
            ),
            LiteralError::BadUnicodeEscape => String::from_str(
                "expected 1-6 hexidecimal characters in `\\u{...}` escape sequence",
            ),
            LiteralError::InvalidCodepoint(v) => {
                let mut text = String::from_str("invalid unicode codepoint U+");
                push_upper_hex(&mut text, *v);
                text.append(" in `\\u{...}` escape sequence");
                text
            },
        }
    }
}

/// Reads a literal, as it stands in a source file, into an owned C string of
/// encoding `E`.
pub fn cstr<E: LiteralEncoding>(literal: &str) -> (r: Result<EString0<E>, LiteralError>) where
    E::Unit: LiteralUnit,

    ensures
        match literal_units::<E>(literal@) {
            Ok(units) => r matches Ok(found) && found@ == units.drop_last(),
            Err(e) => r matches Err(found) && found == e,
        },
{
    match parse_str::<E>(literal) {
        Ok(units) => Ok(EString0::from_vec_with_nul(units)),
        Err(e) => Err(e),
    }
}

} // verus!
