//! Encodings: what a run of code units claims to mean, and how it is read as
//! Unicode scalar values.
//!
//! Each width has three levels of confidence. A strict encoding (`Utf8`,
//! `Utf16`, `Utf32`) claims that its units decode without a single error. A
//! lenient one (`Utf8ish`, `Utf16ish`, `Utf32ish`) claims nothing, and decodes
//! with a replacement character wherever the units do not. An opaque one
//! (`Unknown8`, `Unknown16`, `Unknown32`) claims nothing and does not decode.

pub mod c;
pub mod cp437;
pub mod unknown;
pub mod utf16;
pub mod utf32;
pub mod utf8;
pub mod windows;

pub use c::LC_CTYPE;
pub use cp437::CP437;
pub use unknown::{Unknown16, Unknown32, Unknown8};
pub use utf16::{Utf16, Utf16ish};
pub use utf32::{must_cast_slice_checked_partial, Utf32, Utf32ish};
pub use utf8::{Utf8, Utf8ish};
pub use windows::WindowsCurrentAnsiCodePage;

use crate::unit::{has_nul, nul_index, strlen, Unit};
use vstd::prelude::*;

verus! {

/// U+FFFD, which stands in for whatever does not decode.
pub const REPLACEMENT_CHARACTER: char = '\u{FFFD}';

/// An encoding scheme: a width of code unit and a claim about the units that
/// carry the encoding's tag.
pub trait Encoding: Copy + Sized + 'static {
    /// The minimum unit of information.
    type Unit: Unit;

    /// What this encoding claims of a run of units that carries its tag.
    spec fn valid(units: Seq<Self::Unit>) -> bool;

    /// The empty string is valid in every encoding, and a valid string that
    /// ends in a terminator is valid without it.
    proof fn lemma_valid(units: Seq<Self::Unit>)
        ensures
            Self::valid(Seq::<Self::Unit>::empty()),
            Self::valid(units.push(Self::Unit::NUL)) ==> Self::valid(units),
    ;

    /// What `debug_fmt` writes for `units`.
    spec fn debug_text(units: Seq<Self::Unit>) -> Seq<char>;

    /// Shows `units` as a quoted, escaped string.
    fn debug_fmt(units: &[Self::Unit]) -> (text: String)
        ensures
            text@ == Self::debug_text(units@),
    ;
}

/// Encodings that take any units of width `U` as they are: nothing can be
/// wrong with them.
pub trait FromUnitsInfalliable<U: Unit>: Encoding {
    /// What one unit of the source width is at this encoding's width.
    spec fn unit_from(unit: U) -> Self::Unit;

    /// Every run of units is valid: this is what makes the cast infallible.
    proof fn lemma_all_valid(units: Seq<Self::Unit>)
        ensures
            Self::valid(units),
    ;

    /// Reads `units` as this encoding's units: as many of them, each the unit
    /// it was.
    fn from_units_infalliable(units: &[U]) -> (r: &[Self::Unit])
        ensures
            r@.len() == units@.len(),
            forall|i: int| 0 <= i < units@.len() ==> r@[i] == Self::unit_from(units@[i]),
    ;

    /// Reads the string that starts `units`, up to its terminator and with it
    /// where `include_nul` says so, as this encoding's units.
    fn from_units_infalliable_ptr(units: &[U], include_nul: bool) -> (r: &[Self::Unit])
        requires
            has_nul(units@),
        ensures
            r@.len() == nul_index(units@) + (if include_nul {
                1int
            } else {
                0int
            }),
            forall|i: int| 0 <= i < r@.len() ==> r@[i] == Self::unit_from(units@[i]),
    {
        let n = strlen(units);
        let (string, _) = units.split_at(if include_nul {
            n + 1
        } else {
            n
        });
        Self::from_units_infalliable(string)
    }
}

/// Encodings that can take units of width `U` after a look at them.
pub trait FromUnits<U: Unit>: Encoding {
    /// The length of the longest prefix of `units` that is valid here.
    spec fn valid_len(units: Seq<U>) -> int;

    /// The longest valid prefix of `units`, as this encoding's units.
    spec fn converted(units: Seq<U>) -> Seq<Self::Unit>;

    /// The valid prefix is a prefix, is as long as `valid_len` says, and is
    /// valid.
    proof fn lemma_converted(units: Seq<U>)
        ensures
            0 <= Self::valid_len(units) <= units.len(),
            Self::converted(units).len() == Self::valid_len(units),
            Self::valid(Self::converted(units)),
    ;

    /// Checks `units` against this encoding.
    ///
    /// `Ok` holds all of `units`, and comes exactly when all of them are valid.
    /// `Err` holds the longest valid prefix and, from the first offending unit
    /// on, the rest.
    fn from_units(units: &[U]) -> (r: Result<&[Self::Unit], (&[Self::Unit], &[U])>)
        ensures
            r is Ok <==> Self::valid_len(units@) == units@.len(),
            r matches Ok(all) ==> all@ == Self::converted(units@),
            r matches Err((valid, invalid)) ==> valid@ == Self::converted(units@) && invalid@
                == units@.skip(Self::valid_len(units@)),
    ;

    /// Checks the string that starts `units`, up to its terminator and with it
    /// where `include_nul` says so, against this encoding.
    fn from_units_ptr(units: &[U], include_nul: bool) -> (r: Result<
        &[Self::Unit],
        (&[Self::Unit], &[U]),
    >)
        requires
            has_nul(units@),
        ensures
            ({
                let string = units@.take(
                    nul_index(units@) + (if include_nul {
                        1int
                    } else {
                        0int
                    }),
                );
                &&& r is Ok <==> Self::valid_len(string) == string.len()
                &&& r matches Ok(all) ==> all@ == Self::converted(string)
                &&& r matches Err((valid, invalid)) ==> valid@ == Self::converted(string)
                    && invalid@ == string.skip(Self::valid_len(string))
            }),
    {
        let n = strlen(units);
        let (string, _) = units.split_at(if include_nul {
            n + 1
        } else {
            n
        });
        Self::from_units(string)
    }
}

impl<U: Unit, T: FromUnitsInfalliable<U>> FromUnits<U> for T {
    open spec fn valid_len(units: Seq<U>) -> int {
        units.len() as int
    }

    open spec fn converted(units: Seq<U>) -> Seq<Self::Unit> {
        Seq::new(units.len(), |i: int| Self::unit_from(units[i]))
    }

    proof fn lemma_converted(units: Seq<U>) {
        Self::lemma_all_valid(Self::converted(units));
    }

    fn from_units(units: &[U]) -> (r: Result<&[Self::Unit], (&[Self::Unit], &[U])>) {
        let all = Self::from_units_infalliable(units);
        assert(all@ == Self::converted(units@));
        Ok(all)
    }
}

/// Encodings in which one unit is one scalar value, whatever the unit.
pub trait FixedToCharInfalliable: Encoding {
    /// The scalar value that `unit` stands for.
    spec fn char_of(unit: Self::Unit) -> char;

    /// The scalar value that `unit` stands for.
    fn to_char(unit: Self::Unit) -> (c: char)
        ensures
            c == Self::char_of(unit),
    ;
}

/// What decoding the front of a run of units gives. This is the mathematical
/// side of `ToChars`.
pub trait Decoding: Encoding {
    /// The scalar value at the front of `units`, where one decodes.
    spec fn front(units: Seq<Self::Unit>) -> Option<char>;

    /// How many units a decoding step takes from the front of `units`, whether
    /// it decodes or not.
    spec fn front_len(units: Seq<Self::Unit>) -> int;

    /// A step takes at least one unit while there is one, and never more than
    /// there are.
    proof fn lemma_front_len(units: Seq<Self::Unit>)
        ensures
            units.len() == 0 ==> Self::front_len(units) == 0,
            units.len() > 0 ==> 1 <= Self::front_len(units) <= units.len(),
    ;
}

/// Encodings that decode to scalar values.
pub trait ToChars: Decoding {
    /// Trims one scalar value off the front of `units`.
    ///
    /// Whether the front decodes or not, `units` loses `front_len` units, which
    /// is at least one while there is one: a loop over `next_char` ends.
    fn next_char(units: &mut &[Self::Unit]) -> (r: Result<char, ()>)
        ensures
            final(units)@ == old(units)@.skip(Self::front_len(old(units)@)),
            r == (match Self::front(old(units)@) {
                Some(c) => Ok::<char, ()>(c),
                None => Err::<char, ()>(()),
            }),
    ;

    /// Decodes all of `units`, with U+FFFD for every step that fails.
    fn to_string_lossy(units: &[Self::Unit]) -> (text: String)
        ensures
            text@ == lossy_text::<Self>(units@),
    {
        let mut text = String::new();
        let mut rest = units;
        while rest.len() > 0
            invariant
                text@ + lossy_text::<Self>(rest@) == lossy_text::<Self>(units@),
            decreases rest@.len(),
        {
            proof {
                Self::lemma_front_len(rest@);
            }
            match Self::next_char(&mut rest) {
                Ok(c) => text.push(c),
                Err(_) => text.push(REPLACEMENT_CHARACTER),
            }
        }
        text
    }
}

/// The scalar value of a decoding step, with U+FFFD for a step that failed.
pub open spec fn scalar_or_replacement(c: Option<char>) -> char {
    match c {
        Some(c) => c,
        None => REPLACEMENT_CHARACTER,
    }
}

/// What is left of `units` after one decoding step.
pub open spec fn after_front<E: Decoding>(units: Seq<E::Unit>) -> Seq<E::Unit> {
    let n = E::front_len(units);
    if 1 <= n <= units.len() {
        units.skip(n)
    } else {
        Seq::<E::Unit>::empty()
    }
}

/// The text of `units`: the scalar values of the decoding steps that it takes
/// to use `units` up, with U+FFFD for each step that fails.
pub open spec fn lossy_text<E: Decoding>(units: Seq<E::Unit>) -> Seq<char>
    decreases units.len(),
{
    if units.len() == 0 {
        Seq::<char>::empty()
    } else {
        seq![scalar_or_replacement(E::front(units))] + lossy_text::<E>(after_front::<E>(units))
    }
}

/// The length of the longest prefix of `units` that decodes step by step
/// without a failure.
pub open spec fn decodable_len<E: Decoding>(units: Seq<E::Unit>) -> int
    decreases units.len(),
{
    if units.len() == 0 || E::front(units) is None {
        0
    } else {
        units.len() - after_front::<E>(units).len() + decodable_len::<E>(after_front::<E>(units))
    }
}

/// Whether all of `units` decodes without a failure.
pub open spec fn decodable<E: Decoding>(units: Seq<E::Unit>) -> bool {
    decodable_len::<E>(units) == units.len()
}

/// A step of a lenient decoder reports no failure, whatever the units: where
/// the strict step of its width fails, it gives U+FFFD.
pub proof fn lemma_lenient_never_fails(narrow: Seq<u8>, wide: Seq<u16>, units: Seq<u32>)
    ensures
        Utf8ish::front(narrow) == Some(scalar_or_replacement(Utf8::front(narrow))),
        Utf16ish::front(wide) == Some(scalar_or_replacement(Utf16::front(wide))),
        Utf32ish::front(units) is Some,
        units.len() > 0 && !vstd::utf8::is_scalar(units[0]) ==> Utf32ish::front(units) == Some(
            REPLACEMENT_CHARACTER,
        ),
{
}

/// Decoding takes at most as many steps as there are units.
pub proof fn lemma_lossy_text_len<E: Decoding>(units: Seq<E::Unit>)
    ensures
        lossy_text::<E>(units).len() <= units.len(),
        units.len() > 0 ==> lossy_text::<E>(units).len() >= 1,
    decreases units.len(),
{
    if units.len() > 0 {
        E::lemma_front_len(units);
        lemma_lossy_text_len::<E>(after_front::<E>(units));
    }
}

/// The decodable prefix is a prefix.
pub proof fn lemma_decodable_len<E: Decoding>(units: Seq<E::Unit>)
    ensures
        0 <= decodable_len::<E>(units) <= units.len(),
    decreases units.len(),
{
    if units.len() > 0 {
        E::lemma_front_len(units);
        lemma_decodable_len::<E>(after_front::<E>(units));
    }
}

/// The decodable prefix is the longest there is: what stands behind it, if
/// anything does, starts with units that do not decode.
pub proof fn lemma_decodable_len_is_longest<E: Decoding>(units: Seq<E::Unit>)
    ensures
        decodable_len::<E>(units) < units.len() ==> E::front(
            units.skip(decodable_len::<E>(units)),
        ) is None,
    decreases units.len(),
{
    lemma_decodable_len::<E>(units);
    if units.len() == 0 {
    } else if E::front(units) is None {
        assert(units.skip(0) == units);
    } else {
        E::lemma_front_len(units);
        let rest = after_front::<E>(units);
        lemma_decodable_len_is_longest::<E>(rest);
        lemma_decodable_len::<E>(rest);
        assert(rest.skip(decodable_len::<E>(rest)) == units.skip(decodable_len::<E>(units)));
    }
}

/// Splits `units` where decoding first fails: the longest prefix that decodes
/// without a failure, and the rest.
pub fn split_decodable<'a, E: ToChars>(units: &'a [E::Unit]) -> (r: (&'a [E::Unit], &'a [E::Unit]))
    ensures
        r.0@ == units@.take(decodable_len::<E>(units@)),
        r.1@ == units@.skip(decodable_len::<E>(units@)),
{
    let total: usize = units.len();
    let mut done: usize = 0;
    let mut rest = units;
    let mut failed = false;
    while !failed && rest.len() > 0
        invariant
            total == units@.len(),
            done <= units@.len(),
            rest@ == units@.skip(done as int),
            done + decodable_len::<E>(rest@) == decodable_len::<E>(units@),
            failed ==> decodable_len::<E>(rest@) == 0,
        decreases rest@.len() + (if failed { 0int } else { 1int }),
    {
        let mut next = rest;
        proof {
            E::lemma_front_len(rest@);
        }
        match E::next_char(&mut next) {
            Ok(_) => {
                assert(rest@.len() == units@.len() - done);
                assert(next@.len() == rest@.len() - E::front_len(rest@));
                assert(next@ == units@.skip(done + E::front_len(rest@)));
                done = done + (rest.len() - next.len());
                rest = next;
            },
            Err(_) => {
                failed = true;
            },
        }
    }
    proof {
        lemma_decodable_len::<E>(units@);
    }
    units.split_at(done)
}

/// Removes the first item of `slice` and returns it, where there is one.
pub fn take_first<'s, T>(slice: &mut &'s [T]) -> (r: Option<&'s T>)
    ensures
        old(slice)@.len() == 0 ==> r is None && final(slice)@ == old(slice)@,
        old(slice)@.len() > 0 ==> r == Some(&old(slice)@[0]) && final(slice)@ == old(
            slice,
        )@.drop_first(),
{
    let all: &'s [T] = *slice;
    if all.len() == 0 {
        return None;
    }
    let (head, tail) = all.split_at(1);
    *slice = tail;
    Some(&head[0])
}

impl<T: FixedToCharInfalliable> Decoding for T {
    open spec fn front(units: Seq<Self::Unit>) -> Option<char> {
        if units.len() > 0 {
            Some(Self::char_of(units[0]))
        } else {
            None
        }
    }

    open spec fn front_len(units: Seq<Self::Unit>) -> int {
        if units.len() > 0 {
            1
        } else {
            0
        }
    }

    proof fn lemma_front_len(units: Seq<Self::Unit>) {
    }
}

impl<T: FixedToCharInfalliable> ToChars for T {
    fn next_char(units: &mut &[Self::Unit]) -> (r: Result<char, ()>) {
        match take_first(units) {
            Some(first) => Ok(Self::to_char(*first)),
            None => {
                assert(units@.skip(0) == units@);
                Err(())
            },
        }
    }
}

} // verus!
