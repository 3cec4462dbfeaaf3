//! UTF-16, strict and lenient.

use crate::encoding::{
    after_front, decodable, decodable_len, lemma_decodable_len, lossy_text, scalar_or_replacement,
    split_decodable, take_first, Decoding, Encoding, FromUnits, FromUnitsInfalliable, ToChars,
    REPLACEMENT_CHARACTER,
};
use crate::fmt::{c16_units, c16_units_text};
use crate::unit::lemma_nul_is_zero;
use vstd::prelude::*;

verus! {

/// Valid UTF-16.
#[derive(Clone, Copy)]
pub struct Utf16;

/// UTF-16 that might contain orphaned or misplaced surrogates.
#[derive(Clone, Copy)]
pub struct Utf16ish;

/// The bits that tell a surrogate from any other unit, and a high surrogate
/// from a low one.
pub const SURROGATE_SIGNAL_MASK: u16 = 0xFC00;

/// The bits of a surrogate that carry a part of the scalar value.
pub const SURROGATE_VALUE_MASK: u16 = 0x03FF;

/// The signal bits of a high surrogate, the first unit of a pair.
pub const SURROGATE_HIGH: u16 = 0xD800;

/// The signal bits of a low surrogate, the second unit of a pair.
pub const SURROGATE_LOW: u16 = 0xDC00;

/// Whether `u` is the first unit of a surrogate pair.
pub open spec fn is_high_surrogate(u: u16) -> bool {
    0xD800 <= u <= 0xDBFF
}

/// Whether `u` is the second unit of a surrogate pair.
pub open spec fn is_low_surrogate(u: u16) -> bool {
    0xDC00 <= u <= 0xDFFF
}

/// The scalar value that the pair of `high` and `low` stands for.
pub open spec fn pair_scalar(high: u16, low: u16) -> u32 {
    ((((high & 0x03FF) as u32) << 10) + ((low & 0x03FF) as u32) + 0x10000) as u32
}

/// The scalar value at the front of `units`: a unit that is no surrogate is
/// one, a high surrogate with a low one right behind it is one, and nothing
/// else is.
pub open spec fn utf16_front(units: Seq<u16>) -> Option<char> {
    if units.len() == 0 {
        None
    } else if is_low_surrogate(units[0]) {
        None
    } else if is_high_surrogate(units[0]) {
        if units.len() >= 2 && is_low_surrogate(units[1]) {
            Some(pair_scalar(units[0], units[1]) as char)
        } else {
            None
        }
    } else {
        Some(units[0] as char)
    }
}

/// How many units a decoding step takes: the two of a pair, and otherwise the
/// one unit at the front, so that a unit that failed to follow a high
/// surrogate is looked at again on its own.
pub open spec fn utf16_front_len(units: Seq<u16>) -> int {
    if units.len() == 0 {
        0
    } else if is_high_surrogate(units[0]) && units.len() >= 2 && is_low_surrogate(units[1]) {
        2
    } else {
        1
    }
}

/// Whether `units` is well-formed UTF-16: every surrogate is half of a pair.
pub open spec fn valid_utf16(units: Seq<u16>) -> bool
    decreases units.len(),
{
    units.len() == 0 || (utf16_front(units) is Some && valid_utf16(
        units.skip(utf16_front_len(units)),
    ))
}

/// The units that encode the one scalar value `c`.
pub open spec fn encode_utf16_scalar(c: char) -> Seq<u16> {
    let v = c as u32;
    if v < 0x10000 {
        seq![v as u16]
    } else {
        seq![
            (0xD800 + (v - 0x10000) / 0x400) as u16,
            (0xDC00 + (v - 0x10000) % 0x400) as u16,
        ]
    }
}

/// The UTF-16 encoding of `text`.
pub open spec fn encode_utf16(text: Seq<char>) -> Seq<u16>
    decreases text.len(),
{
    if text.len() == 0 {
        Seq::<u16>::empty()
    } else {
        encode_utf16_scalar(text[0]) + encode_utf16(text.drop_first())
    }
}

/// The signal bits say what the ranges say.
proof fn lemma_surrogate_signal(u: u16)
    by (bit_vector)
    ensures
        (u & 0xFC00 == 0xD800) <==> (0xD800 <= u <= 0xDBFF),
        (u & 0xFC00 == 0xDC00) <==> (0xDC00 <= u <= 0xDFFF),
{
}

/// The value bits of a surrogate are its distance from the start of its range.
proof fn lemma_surrogate_value(u: u16)
    by (bit_vector)
    ensures
        (u & 0x03FF) <= 0x03FF,
        0xD800 <= u <= 0xDBFF ==> (u & 0x03FF) + 0xD800 == u,
        0xDC00 <= u <= 0xDFFF ==> (u & 0x03FF) + 0xDC00 == u,
{
}

/// Ten bits to the left is a multiplication by 1024.
proof fn lemma_shift_ten(x: u32)
    by (bit_vector)
    requires
        x <= 0x03FF,
    ensures
        x << 10 == x * 0x400,
{
}

/// A pair stands for a scalar value of the supplementary planes: the ten bits
/// of the high surrogate above the ten bits of the low one, from U+10000 up.
pub proof fn lemma_pair_scalar(high: u16, low: u16)
    requires
        is_high_surrogate(high),
        is_low_surrogate(low),
    ensures
        pair_scalar(high, low) == 0x10000 + (high - 0xD800) * 0x400 + (low - 0xDC00),
        0x10000 <= pair_scalar(high, low) <= 0x10FFFF,
        (((high & 0x03FF) as u32) << 10) <= 0xFFC00,
        ((low & 0x03FF) as u32) <= 0x3FF,
{
    lemma_surrogate_value(high);
    lemma_surrogate_value(low);
    lemma_shift_ten((high & 0x03FF) as u32);
}

impl Encoding for Utf16 {
    type Unit = u16;

    open spec fn valid(units: Seq<u16>) -> bool {
        valid_utf16(units)
    }

    proof fn lemma_valid(units: Seq<u16>) {
        lemma_nul_is_zero();
        lemma_valid_utf16_before_nul(units);
    }

    open spec fn debug_text(units: Seq<u16>) -> Seq<char> {
        c16_units_text(units)
    }

    fn debug_fmt(units: &[u16]) -> (text: String) {
        c16_units(units)
    }
}

/// Well-formed UTF-16 that ends in a terminator is well-formed without it.
proof fn lemma_valid_utf16_before_nul(units: Seq<u16>)
    ensures
        valid_utf16(units.push(0u16)) ==> valid_utf16(units),
    decreases units.len(),
{
    let all = units.push(0u16);
    if units.len() > 0 && valid_utf16(all) {
        assert(all[0] == units[0]);
        let n = utf16_front_len(all);
        if n == 2 {
            assert(all[1] == units[1]);
        } else if units.len() >= 2 {
            assert(all[1] == units[1]);
        }
        assert(utf16_front_len(units) == n);
        assert(units.skip(n).push(0u16) == all.skip(n));
        lemma_valid_utf16_before_nul(units.skip(n));
    }
}

impl Encoding for Utf16ish {
    type Unit = u16;

    open spec fn valid(units: Seq<u16>) -> bool {
        true
    }

    proof fn lemma_valid(units: Seq<u16>) {
    }

    open spec fn debug_text(units: Seq<u16>) -> Seq<char> {
        c16_units_text(units)
    }

    fn debug_fmt(units: &[u16]) -> (text: String) {
        c16_units(units)
    }
}

impl Decoding for Utf16 {
    open spec fn front(units: Seq<u16>) -> Option<char> {
        utf16_front(units)
    }

    open spec fn front_len(units: Seq<u16>) -> int {
        utf16_front_len(units)
    }

    proof fn lemma_front_len(units: Seq<u16>) {
    }
}

impl ToChars for Utf16 {
    fn next_char(units: &mut &[u16]) -> (r: Result<char, ()>) {
        let ghost all = units@;
        let first: u16 = match take_first(units) {
            Some(first) => *first,
            None => {
                assert(all.skip(0) == all);
                return Err(());
            },
        };
        proof {
            lemma_surrogate_signal(first);
            assert(all.drop_first() == all.skip(1));
        }
        let signal = first & SURROGATE_SIGNAL_MASK;
        if signal == SURROGATE_LOW {
            Err(())
        } else if signal == SURROGATE_HIGH {
            let before_take: &[u16] = *units;
            let low: u16 = match take_first(units) {
                Some(low) => *low,
                None => {
                    return Err(());
                },
            };
            proof {
                lemma_surrogate_signal(low);
                assert(all.skip(1).drop_first() == all.skip(2));
            }
            if low & SURROGATE_SIGNAL_MASK != SURROGATE_LOW {
                *units = before_take;
                return Err(());
            }
            proof {
                lemma_pair_scalar(first, low);
            }
            let scalar: u32 = (((first & SURROGATE_VALUE_MASK) as u32) << 10) + ((low
                & SURROGATE_VALUE_MASK) as u32) + 0x10000;
            match char::from_u32(scalar) {
                Some(c) => Ok(c),
                None => Err(()),
            }
        } else {
            match char::from_u32(first as u32) {
                Some(c) => Ok(c),
                None => Err(()),
            }
        }
    }
}

impl Decoding for Utf16ish {
    open spec fn front(units: Seq<u16>) -> Option<char> {
        Some(scalar_or_replacement(utf16_front(units)))
    }

    open spec fn front_len(units: Seq<u16>) -> int {
        utf16_front_len(units)
    }

    proof fn lemma_front_len(units: Seq<u16>) {
    }
}

impl ToChars for Utf16ish {
    fn next_char(units: &mut &[u16]) -> (r: Result<char, ()>) {
        match Utf16::next_char(units) {
            Ok(c) => Ok(c),
            Err(_) => Ok(REPLACEMENT_CHARACTER),
        }
    }
}

impl FromUnitsInfalliable<u16> for Utf16ish {
    open spec fn unit_from(unit: u16) -> u16 {
        unit
    }

    proof fn lemma_all_valid(units: Seq<u16>) {
    }

    fn from_units_infalliable(units: &[u16]) -> (r: &[u16]) {
        units
    }
}

impl From<Utf16> for Utf16ish {
    fn from(_strict: Utf16) -> (r: Utf16ish) {
        Utf16ish
    }
}

impl vstd::std_specs::convert::FromSpecImpl<Utf16> for Utf16ish {
    open spec fn obeys_from_spec() -> bool {
        true
    }

    open spec fn from_spec(_strict: Utf16) -> Utf16ish {
        Utf16ish
    }
}

/// The prefix of `units` that the strict decoder reads without a failure is
/// well-formed, and it is all of `units` exactly when `units` is well-formed.
pub proof fn lemma_utf16_decodable(units: Seq<u16>)
    ensures
        valid_utf16(units.take(decodable_len::<Utf16>(units))),
        decodable::<Utf16>(units) <==> valid_utf16(units),
    decreases units.len(),
{
    lemma_decodable_len::<Utf16>(units);
    if units.len() == 0 {
    } else if utf16_front(units) is None {
    } else {
        let n = utf16_front_len(units);
        let rest = units.skip(n);
        assert(after_front::<Utf16>(units) == rest);
        lemma_utf16_decodable(rest);
        lemma_decodable_len::<Utf16>(rest);
        let m = decodable_len::<Utf16>(rest);
        let prefix = units.take(n + m);
        assert(prefix[0] == units[0]);
        if n == 2 {
            assert(prefix[1] == units[1]);
        }
        assert(utf16_front(prefix) is Some);
        assert(utf16_front_len(prefix) == n);
        assert(prefix.skip(n) == rest.take(m));
    }
}

/// The lenient decoder reads what the strict one reads, and differs only in
/// not reporting the failures.
pub proof fn lemma_utf16ish_text(units: Seq<u16>)
    ensures
        lossy_text::<Utf16ish>(units) == lossy_text::<Utf16>(units),
    decreases units.len(),
{
    if units.len() > 0 {
        Utf16::lemma_front_len(units);
        lemma_utf16ish_text(after_front::<Utf16>(units));
    }
}

/// Text that is encoded as UTF-16 and decoded again is the text it was, by
/// the strict decoder and by the lenient one.
pub proof fn lemma_utf16_round_trip(text: Seq<char>)
    ensures
        valid_utf16(encode_utf16(text)),
        lossy_text::<Utf16>(encode_utf16(text)) == text,
        lossy_text::<Utf16ish>(encode_utf16(text)) == text,
    decreases text.len(),
{
    let units = encode_utf16(text);
    lemma_utf16ish_text(units);
    if text.len() > 0 {
        let c = text[0];
        let v = c as u32;
        let first = encode_utf16_scalar(c);
        let rest = encode_utf16(text.drop_first());
        lemma_utf16_round_trip(text.drop_first());
        vstd::utf8::char_is_scalar(c);
        assert(units[0] == first[0]);
        if v < 0x10000 {
            assert(units[0] == v as u16);
            assert(utf16_front(units) == Some(c)) by {
                vstd::utf8::char_u32_cast(c, v);
            }
            assert(units.skip(1) == rest);
        } else {
            assert(units[1] == first[1]);
            let w = (v - 0x10000) as int;
            assert(0 <= w / 0x400 <= 0x3FF && 0 <= w % 0x400 <= 0x3FF);
            assert((w / 0x400) * 0x400 + w % 0x400 == w);
            lemma_pair_scalar(first[0], first[1]);
            assert(utf16_front(units) == Some(c)) by {
                vstd::utf8::char_u32_cast(c, v);
            }
            assert(units.skip(2) == rest);
        }
        assert(after_front::<Utf16>(units) == rest);
        assert(seq![c] + text.drop_first() == text);
    }
}

/// Well-formed UTF-16 after well-formed UTF-16 is well-formed UTF-16.
pub proof fn lemma_valid_utf16_concat(a: Seq<u16>, b: Seq<u16>)
    requires
        valid_utf16(a),
        valid_utf16(b),
    ensures
        valid_utf16(a + b),
    decreases a.len(),
{
    if a.len() == 0 {
        assert(a + b == b);
    } else {
        let n = utf16_front_len(a);
        assert((a + b)[0] == a[0]);
        if a.len() >= 2 {
            assert((a + b)[1] == a[1]);
        }
        assert(utf16_front_len(a + b) == n);
        assert((a + b).skip(n) == a.skip(n) + b);
        lemma_valid_utf16_concat(a.skip(n), b);
    }
}

/// The units of one scalar value are well-formed UTF-16.
pub proof fn lemma_valid_utf16_scalar(c: char)
    ensures
        valid_utf16(encode_utf16_scalar(c)),
{
    let text = seq![c];
    lemma_utf16_round_trip(text);
    reveal_with_fuel(encode_utf16, 2);
    assert(encode_utf16_scalar(c) + Seq::<u16>::empty() == encode_utf16_scalar(c));
    assert(encode_utf16(text) == encode_utf16_scalar(c));
}

impl FromUnits<u16> for Utf16 {
    open spec fn valid_len(units: Seq<u16>) -> int {
        decodable_len::<Utf16>(units)
    }

    open spec fn converted(units: Seq<u16>) -> Seq<u16> {
        units.take(decodable_len::<Utf16>(units))
    }

    proof fn lemma_converted(units: Seq<u16>) {
        lemma_decodable_len::<Utf16>(units);
        lemma_utf16_decodable(units);
    }

    fn from_units(units: &[u16]) -> (r: Result<&[u16], (&[u16], &[u16])>) {
        let (valid, invalid) = split_decodable::<Utf16>(units);
        proof {
            lemma_decodable_len::<Utf16>(units@);
        }
        if invalid.len() == 0 {
            assert(units@.take(units@.len() as int) == units@);
            Ok(units)
        } else {
            Err((valid, invalid))
        }
    }
}

} // verus!
