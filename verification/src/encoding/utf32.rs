//! UTF-32, strict and lenient.

use crate::encoding::{
    after_front, lossy_text, take_first, Decoding, Encoding, FromUnits, FromUnitsInfalliable,
    ToChars, REPLACEMENT_CHARACTER,
};
use crate::fmt::{c32_units, c32_units_text, char_units, char_units_text};
use crate::outside::{cast_char_units, cast_scalar_units, is_char_bits};
use vstd::prelude::*;
use vstd::utf8::is_scalar;

verus! {

/// Valid UTF-32: every unit is a Unicode scalar value, which is what a `char`
/// is.
#[derive(Clone, Copy)]
pub struct Utf32;

/// UTF-32 that may contain numbers that are no scalar values: surrogates, and
/// numbers above U+10FFFF.
#[derive(Clone, Copy)]
pub struct Utf32ish;

/// The number of units at the front of `units` that are scalar values: the
/// index of the first that is none, or the length of `units`.
pub open spec fn scalar_prefix_len(units: Seq<u32>) -> int
    decreases units.len(),
{
    if units.len() == 0 || !is_scalar(units[0]) {
        0
    } else {
        1 + scalar_prefix_len(units.drop_first())
    }
}

/// The numbers of `text`, one unit for each scalar value.
pub open spec fn encode_utf32(text: Seq<char>) -> Seq<u32> {
    Seq::new(text.len(), |i: int| text[i] as u32)
}

/// `scalar_prefix_len` is where the first unit stands that is no scalar value.
pub proof fn lemma_scalar_prefix_len(units: Seq<u32>)
    ensures
        0 <= scalar_prefix_len(units) <= units.len(),
        forall|i: int| 0 <= i < scalar_prefix_len(units) ==> is_scalar(#[trigger] units[i]),
        scalar_prefix_len(units) < units.len() ==> !is_scalar(units[scalar_prefix_len(units)]),
    decreases units.len(),
{
    if units.len() == 0 || !is_scalar(units[0]) {
    } else {
        let rest = units.drop_first();
        lemma_scalar_prefix_len(rest);
        assert forall|i: int| 0 <= i < scalar_prefix_len(units) implies is_scalar(
            #[trigger] units[i],
        ) by {
            if i > 0 {
                assert(units[i] == rest[i - 1]);
            }
        }
    }
}

/// Only one index is that of the first unit that is no scalar value.
pub proof fn lemma_scalar_prefix_len_unique(units: Seq<u32>, n: int)
    requires
        0 <= n <= units.len(),
        forall|i: int| 0 <= i < n ==> is_scalar(#[trigger] units[i]),
        n < units.len() ==> !is_scalar(units[n]),
    ensures
        scalar_prefix_len(units) == n,
{
    lemma_scalar_prefix_len(units);
    let m = scalar_prefix_len(units);
    if m < n {
        assert(is_scalar(units[m]));
    }
}

/// Splits `units` at the first unit that is no `char`: in front of it the
/// units as the `char`s they are, behind them the rest as it was.
pub fn must_cast_slice_checked_partial(units: &[u32]) -> (r: (&[char], &[u32]))
    ensures
        r.0@ == Seq::new(scalar_prefix_len(units@) as nat, |i: int| units@[i] as char),
        r.1@ == units@.skip(scalar_prefix_len(units@)),
{
    let mut i: usize = 0;
    while i < units.len() && is_char_bits(&units[i])
        invariant
            i <= units@.len(),
            forall|k: int| 0 <= k < i ==> is_scalar(#[trigger] units@[k]),
        decreases units@.len() - i,
    {
        i += 1;
    }
    proof {
        lemma_scalar_prefix_len_unique(units@, i as int);
    }
    let (bits, invalid) = units.split_at(i);
    assert forall|k: int| 0 <= k < bits@.len() implies is_scalar(#[trigger] bits@[k]) by {
        assert(bits@[k] == units@[k]);
    }
    let ok = cast_scalar_units(bits);
    proof {
        assert forall|k: int| 0 <= k < i implies ok@[k] == units@[k] as char by {
            assert(bits@[k] == units@[k]);
            vstd::utf8::char_u32_cast(ok@[k], units@[k]);
        }
        assert(ok@ == Seq::new(i as nat, |k: int| units@[k] as char));
    }
    (ok, invalid)
}

impl Encoding for Utf32 {
    type Unit = char;

    open spec fn valid(units: Seq<char>) -> bool {
        true
    }

    proof fn lemma_valid(units: Seq<char>) {
    }

    open spec fn debug_text(units: Seq<char>) -> Seq<char> {
        char_units_text(units)
    }

    fn debug_fmt(units: &[char]) -> (text: String) {
        char_units(units)
    }
}

impl Decoding for Utf32 {
    open spec fn front(units: Seq<char>) -> Option<char> {
        if units.len() > 0 {
            Some(units[0])
        } else {
            None
        }
    }

    open spec fn front_len(units: Seq<char>) -> int {
        if units.len() > 0 {
            1
        } else {
            0
        }
    }

    proof fn lemma_front_len(units: Seq<char>) {
    }
}

impl ToChars for Utf32 {
    fn next_char(units: &mut &[char]) -> (r: Result<char, ()>) {
        match take_first(units) {
            Some(first) => Ok(*first),
            None => {
                assert(units@.skip(0) == units@);
                Err(())
            },
        }
    }
}

impl FromUnitsInfalliable<char> for Utf32 {
    open spec fn unit_from(unit: char) -> char {
        unit
    }

    proof fn lemma_all_valid(units: Seq<char>) {
    }

    fn from_units_infalliable(units: &[char]) -> (r: &[char]) {
        units
    }
}

impl FromUnits<u32> for Utf32 {
    open spec fn valid_len(units: Seq<u32>) -> int {
        scalar_prefix_len(units)
    }

    open spec fn converted(units: Seq<u32>) -> Seq<char> {
        Seq::new(scalar_prefix_len(units) as nat, |i: int| units[i] as char)
    }

    proof fn lemma_converted(units: Seq<u32>) {
        lemma_scalar_prefix_len(units);
    }

    fn from_units(units: &[u32]) -> (r: Result<&[char], (&[char], &[u32])>) {
        let (ok, err) = must_cast_slice_checked_partial(units);
        proof {
            lemma_scalar_prefix_len(units@);
        }
        if err.len() == 0 {
            Ok(ok)
        } else {
            Err((ok, err))
        }
    }
}

impl Encoding for Utf32ish {
    type Unit = u32;

    open spec fn valid(units: Seq<u32>) -> bool {
        true
    }

    proof fn lemma_valid(units: Seq<u32>) {
    }

    open spec fn debug_text(units: Seq<u32>) -> Seq<char> {
        c32_units_text(units)
    }

    fn debug_fmt(units: &[u32]) -> (text: String) {
        c32_units(units)
    }
}

impl Decoding for Utf32ish {
    /// The unit at the front where it is a scalar value, and U+FFFD in the
    /// place of anything else: a lenient step reports no failure.
    open spec fn front(units: Seq<u32>) -> Option<char> {
        if units.len() > 0 && is_scalar(units[0]) {
            Some(units[0] as char)
        } else {
            Some(REPLACEMENT_CHARACTER)
        }
    }

    open spec fn front_len(units: Seq<u32>) -> int {
        if units.len() > 0 {
            1
        } else {
            0
        }
    }

    proof fn lemma_front_len(units: Seq<u32>) {
    }
}

impl ToChars for Utf32ish {
    fn next_char(units: &mut &[u32]) -> (r: Result<char, ()>) {
        match take_first(units) {
            Some(first) => match char::from_u32(*first) {
                Some(c) => Ok(c),
                None => Ok(REPLACEMENT_CHARACTER),
            },
            None => {
                assert(units@.skip(0) == units@);
                Ok(REPLACEMENT_CHARACTER)
            },
        }
    }
}

impl FromUnitsInfalliable<u32> for Utf32ish {
    open spec fn unit_from(unit: u32) -> u32 {
        unit
    }

    proof fn lemma_all_valid(units: Seq<u32>) {
    }

    fn from_units_infalliable(units: &[u32]) -> (r: &[u32]) {
        units
    }
}

impl FromUnitsInfalliable<char> for Utf32ish {
    open spec fn unit_from(unit: char) -> u32 {
        unit as u32
    }

    proof fn lemma_all_valid(units: Seq<u32>) {
    }

    fn from_units_infalliable(units: &[char]) -> (r: &[u32]) {
        cast_char_units(units)
    }
}

impl From<Utf32> for Utf32ish {
    fn from(_strict: Utf32) -> (r: Utf32ish) {
        Utf32ish
    }
}

impl vstd::std_specs::convert::FromSpecImpl<Utf32> for Utf32ish {
    open spec fn obeys_from_spec() -> bool {
        true
    }

    open spec fn from_spec(_strict: Utf32) -> Utf32ish {
        Utf32ish
    }
}

/// Text that is written as UTF-32 and decoded again is the text it was, by the
/// strict decoder, which reads `char`s, and by the lenient one, which reads
/// their numbers.
pub proof fn lemma_utf32_round_trip(text: Seq<char>)
    ensures
        lossy_text::<Utf32>(text) == text,
        lossy_text::<Utf32ish>(encode_utf32(text)) == text,
        scalar_prefix_len(encode_utf32(text)) == text.len(),
    decreases text.len(),
{
    let units = encode_utf32(text);
    if text.len() > 0 {
        lemma_utf32_round_trip(text.drop_first());
        vstd::utf8::char_is_scalar(text[0]);
        vstd::utf8::char_u32_cast(text[0], units[0]);
        assert(after_front::<Utf32>(text) == text.drop_first());
        assert(after_front::<Utf32ish>(units) == encode_utf32(text.drop_first()));
        assert(units.drop_first() == encode_utf32(text.drop_first()));
        assert(seq![text[0]] + text.drop_first() == text);
    }
}

} // verus!
