//! UTF-8, strict and lenient.

use crate::encoding::{
    after_front, decodable, decodable_len, lossy_text, scalar_or_replacement, split_decodable,
    Decoding, Encoding, FromUnits, FromUnitsInfalliable, ToChars, REPLACEMENT_CHARACTER,
};
use crate::fmt::{cstr_bytes, cstr_bytes_text};
use crate::outside::cast_i8_units;
use vstd::prelude::*;
use vstd::utf8::{
    decode_first_scalar, decode_utf8, encode_utf8, is_char_boundary_iff_not_is_continuation_byte,
    length_of_first_scalar, pop_first_scalar, valid_first_scalar, valid_utf8, valid_utf8_split,
};

verus! {

/// Valid UTF-8. This is the encoding of most Rust strings.
#[derive(Clone, Copy)]
pub struct Utf8;

/// UTF-8 that might contain invalid sequences, invalid code points and the
/// like. A common encoding on Linux.
#[derive(Clone, Copy)]
pub struct Utf8ish;

/// How many units a sequence has that starts with `lead`: 1 to 4, or 0 where
/// `lead` cannot start a sequence (a continuation byte, or the lead of one of
/// the 5 and 6 byte forms that UTF-8 no longer has).
pub open spec fn declared_len(lead: u8) -> int {
    if lead <= 0x7F {
        1
    } else if lead <= 0xBF {
        0
    } else if lead <= 0xDF {
        2
    } else if lead <= 0xEF {
        3
    } else if lead <= 0xF7 {
        4
    } else {
        0
    }
}

impl Encoding for Utf8 {
    type Unit = u8;

    open spec fn valid(units: Seq<u8>) -> bool {
        valid_utf8(units)
    }

    proof fn lemma_valid(units: Seq<u8>) {
        let all = units.push(0u8);
        crate::unit::lemma_nul_is_zero();
        if valid_utf8(all) {
            let last = units.len() as int;
            assert(all[last] == 0u8);
            is_char_boundary_iff_not_is_continuation_byte(all, last);
            valid_utf8_split(all, last);
            assert(all.subrange(0, last) == units);
        }
    }

    open spec fn debug_text(units: Seq<u8>) -> Seq<char> {
        cstr_bytes_text(units)
    }

    fn debug_fmt(units: &[u8]) -> (text: String) {
        cstr_bytes(units)
    }
}

impl Encoding for Utf8ish {
    type Unit = u8;

    open spec fn valid(units: Seq<u8>) -> bool {
        true
    }

    proof fn lemma_valid(units: Seq<u8>) {
    }

    open spec fn debug_text(units: Seq<u8>) -> Seq<char> {
        cstr_bytes_text(units)
    }

    fn debug_fmt(units: &[u8]) -> (text: String) {
        cstr_bytes(units)
    }
}

impl Decoding for Utf8 {
    open spec fn front(units: Seq<u8>) -> Option<char> {
        if valid_first_scalar(units) {
            Some(decode_first_scalar(units) as char)
        } else {
            None
        }
    }

    open spec fn front_len(units: Seq<u8>) -> int {
        if units.len() == 0 {
            0
        } else if declared_len(units[0]) == 0 {
            1
        } else if declared_len(units[0]) > units.len() {
            units.len() as int
        } else {
            declared_len(units[0])
        }
    }

    proof fn lemma_front_len(units: Seq<u8>) {
    }
}

/// Whether `b` has the form of a continuation byte, `10xxxxxx`.
fn is_continuation(b: u8) -> (r: bool)
    ensures
        r == vstd::utf8::is_continuation_byte(b),
{
    0x80 <= b && b <= 0xBF
}

/// Reads the sequence `ch`, which is as long as its lead byte declares, as one
/// scalar value: none where a continuation byte is missing, the encoding is
/// overlong, or the number is a surrogate or above U+10FFFF.
fn decode_sequence(ch: &[u8]) -> (r: Option<char>)
    requires
        ch@.len() > 0,
        ch@.len() == declared_len(ch@[0]),
    ensures
        r == Utf8::front(ch@),
{
    let lead = ch[0];
    if ch.len() == 1 {
        assert(lead & 0x7F == lead) by (bit_vector)
            requires
                lead <= 0x7F,
        ;
        Some(lead as char)
    } else if ch.len() == 2 {
        let b1 = ch[1];
        if !is_continuation(b1) {
            return None;
        }
        let cp: u32 = (((lead & 0x1F) as u32) << 6) | ((b1 & 0x3F) as u32);
        assert(cp <= 0x7FF) by (bit_vector)
            requires
                cp == (((lead & 0x1F) as u32) << 6) | ((b1 & 0x3F) as u32),
        ;
        if cp < 0x80 {
            None
        } else {
            char::from_u32(cp)
        }
    } else if ch.len() == 3 {
        let b1 = ch[1];
        let b2 = ch[2];
        if !is_continuation(b1) || !is_continuation(b2) {
            return None;
        }
        let cp: u32 = (((lead & 0x0F) as u32) << 12) | (((b1 & 0x3F) as u32) << 6) | ((b2
            & 0x3F) as u32);
        assert(cp <= 0xFFFF) by (bit_vector)
            requires
                cp == (((lead & 0x0F) as u32) << 12) | (((b1 & 0x3F) as u32) << 6) | ((b2
                    & 0x3F) as u32),
        ;
        if cp < 0x800 {
            None
        } else {
            char::from_u32(cp)
        }
    } else {
        let b1 = ch[1];
        let b2 = ch[2];
        let b3 = ch[3];
        if !is_continuation(b1) || !is_continuation(b2) || !is_continuation(b3) {
            return None;
        }
        let cp: u32 = (((lead & 0x07) as u32) << 18) | (((b1 & 0x3F) as u32) << 12) | (((b2
            & 0x3F) as u32) << 6) | ((b3 & 0x3F) as u32);
        if cp < 0x10000 {
            None
        } else {
            char::from_u32(cp)
        }
    }
}

/// Whether a sequence decodes depends on no unit behind it.
proof fn lemma_front_of_sequence(units: Seq<u8>)
    requires
        units.len() > 0,
        1 <= declared_len(units[0]) <= units.len(),
    ensures
        Utf8::front(units) == Utf8::front(units.take(declared_len(units[0]))),
{
    let ch = units.take(declared_len(units[0]));
    assert(ch[0] == units[0]);
    if declared_len(units[0]) >= 2 {
        assert(ch[1] == units[1]);
    }
    if declared_len(units[0]) >= 3 {
        assert(ch[2] == units[2]);
    }
    if declared_len(units[0]) >= 4 {
        assert(ch[3] == units[3]);
    }
}

impl ToChars for Utf8 {
    fn next_char(units: &mut &[u8]) -> (r: Result<char, ()>) {
        let all: &[u8] = *units;
        if all.len() == 0 {
            assert(all@.skip(0) == all@);
            return Err(());
        }
        let lead = all[0];
        let size: usize = if lead <= 0x7F {
            1
        } else if lead <= 0xBF {
            0
        } else if lead <= 0xDF {
            2
        } else if lead <= 0xEF {
            3
        } else if lead <= 0xF7 {
            4
        } else {
            0
        };
        if size == 0 {
            let (_, after) = all.split_at(1);
            *units = after;
            return Err(());
        }
        if size > all.len() {
            let (_, after) = all.split_at(all.len());
            *units = after;
            return Err(());
        }
        let (ch, after) = all.split_at(size);
        *units = after;
        proof {
            lemma_front_of_sequence(all@);
        }
        match decode_sequence(ch) {
            Some(c) => Ok(c),
            None => Err(()),
        }
    }
}

impl Decoding for Utf8ish {
    open spec fn front(units: Seq<u8>) -> Option<char> {
        Some(scalar_or_replacement(Utf8::front(units)))
    }

    open spec fn front_len(units: Seq<u8>) -> int {
        Utf8::front_len(units)
    }

    proof fn lemma_front_len(units: Seq<u8>) {
    }
}

impl ToChars for Utf8ish {
    fn next_char(units: &mut &[u8]) -> (r: Result<char, ()>) {
        match Utf8::next_char(units) {
            Ok(c) => Ok(c),
            Err(_) => Ok(REPLACEMENT_CHARACTER),
        }
    }
}

impl FromUnitsInfalliable<i8> for Utf8ish {
    open spec fn unit_from(unit: i8) -> u8 {
        unit as u8
    }

    proof fn lemma_all_valid(units: Seq<u8>) {
    }

    fn from_units_infalliable(units: &[i8]) -> (r: &[u8]) {
        cast_i8_units(units)
    }
}

impl FromUnitsInfalliable<u8> for Utf8ish {
    open spec fn unit_from(unit: u8) -> u8 {
        unit
    }

    proof fn lemma_all_valid(units: Seq<u8>) {
    }

    fn from_units_infalliable(units: &[u8]) -> (r: &[u8]) {
        units
    }
}

impl From<Utf8> for Utf8ish {
    fn from(_strict: Utf8) -> (r: Utf8ish) {
        Utf8ish
    }
}

impl vstd::std_specs::convert::FromSpecImpl<Utf8> for Utf8ish {
    open spec fn obeys_from_spec() -> bool {
        true
    }

    open spec fn from_spec(_strict: Utf8) -> Utf8ish {
        Utf8ish
    }
}

/// A step of the strict decoder succeeds exactly on a well-formed sequence,
/// and then takes exactly that sequence.
pub proof fn lemma_utf8_front(units: Seq<u8>)
    ensures
        Utf8::front(units) is Some <==> valid_first_scalar(units),
        valid_first_scalar(units) ==> Utf8::front_len(units) == length_of_first_scalar(units)
            && after_front::<Utf8>(units) == pop_first_scalar(units),
{
}

/// The prefix of `units` that the strict decoder reads without a failure is
/// valid UTF-8, and it is all of `units` exactly when `units` is valid UTF-8.
pub proof fn lemma_utf8_decodable(units: Seq<u8>)
    ensures
        valid_utf8(units.take(decodable_len::<Utf8>(units))),
        decodable::<Utf8>(units) <==> valid_utf8(units),
    decreases units.len(),
{
    crate::encoding::lemma_decodable_len::<Utf8>(units);
    if units.len() == 0 {
        assert(units.take(0) == units);
    } else if !valid_first_scalar(units) {
        assert(valid_utf8(units.take(0)));
    } else {
        lemma_utf8_front(units);
        let n = length_of_first_scalar(units);
        let rest = pop_first_scalar(units);
        lemma_utf8_decodable(rest);
        crate::encoding::lemma_decodable_len::<Utf8>(rest);
        let m = decodable_len::<Utf8>(rest);
        let prefix = units.take(n + m);
        assert(prefix[0] == units[0]);
        assert(valid_first_scalar(prefix)) by {
            if n >= 2 {
                assert(prefix[1] == units[1]);
            }
            if n >= 3 {
                assert(prefix[2] == units[2]);
            }
            if n >= 4 {
                assert(prefix[3] == units[3]);
            }
        }
        assert(pop_first_scalar(prefix) == rest.take(m));
    }
}

/// On valid UTF-8 the text is the decoded string, with no replacement in it.
pub proof fn lemma_utf8_text(units: Seq<u8>)
    requires
        valid_utf8(units),
    ensures
        lossy_text::<Utf8>(units) == decode_utf8(units),
        lossy_text::<Utf8ish>(units) == decode_utf8(units),
    decreases units.len(),
{
    if units.len() > 0 {
        lemma_utf8_front(units);
        lemma_utf8_text(pop_first_scalar(units));
    }
}

/// Text that is encoded as UTF-8 and decoded again is the text it was, by the
/// strict decoder and by the lenient one.
pub proof fn lemma_utf8_round_trip(text: Seq<char>)
    ensures
        valid_utf8(encode_utf8(text)),
        lossy_text::<Utf8>(encode_utf8(text)) == text,
        lossy_text::<Utf8ish>(encode_utf8(text)) == text,
{
    vstd::utf8::encode_utf8_valid_utf8(text);
    vstd::utf8::encode_utf8_decode_utf8(text);
    lemma_utf8_text(encode_utf8(text));
}

/// The lenient decoder reads what the strict one reads, and differs only in
/// not reporting the failures.
pub proof fn lemma_utf8ish_text(units: Seq<u8>)
    ensures
        lossy_text::<Utf8ish>(units) == lossy_text::<Utf8>(units),
    decreases units.len(),
{
    if units.len() > 0 {
        Utf8::lemma_front_len(units);
        lemma_utf8ish_text(after_front::<Utf8>(units));
    }
}

impl FromUnits<u8> for Utf8 {
    open spec fn valid_len(units: Seq<u8>) -> int {
        decodable_len::<Utf8>(units)
    }

    open spec fn converted(units: Seq<u8>) -> Seq<u8> {
        units.take(decodable_len::<Utf8>(units))
    }

    proof fn lemma_converted(units: Seq<u8>) {
        crate::encoding::lemma_decodable_len::<Utf8>(units);
        lemma_utf8_decodable(units);
    }

    fn from_units(units: &[u8]) -> (r: Result<&[u8], (&[u8], &[u8])>) {
        let (valid, invalid) = split_decodable::<Utf8>(units);
        proof {
            crate::encoding::lemma_decodable_len::<Utf8>(units@);
        }
        if invalid.len() == 0 {
            assert(units@.take(units@.len() as int) == units@);
            Ok(units)
        } else {
            Err((valid, invalid))
        }
    }
}

} // verus!
