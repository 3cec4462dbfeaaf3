//! What can be turned into a C string where one is asked for: everything
//! that is one already, and text, which is copied and given its terminator.

use crate::as_traits::{AsCStr, AsOptCStr};
use crate::encoding::utf16::{encode_utf16, encode_utf16_scalar, lemma_utf16_round_trip};
use crate::encoding::utf32::encode_utf32;
use crate::encoding::utf8::lemma_utf8_front;
use crate::encoding::{
    Decoding, Encoding, ToChars, Unknown16, Unknown32, Unknown8, Utf16, Utf16ish, Utf32, Utf32ish,
    Utf8, Utf8ish,
};
use crate::errors::InteriorNulError;
use crate::estring::EString0;
use crate::unit::has_nul;
use vstd::prelude::*;
use vstd::string::StrSliceExecFns;
use vstd::utf8::{decode_utf8, encode_utf8, pop_first_scalar, valid_utf8};

verus! {

/// Converts `self` into something that is a C string of encoding `E`.
pub trait TryIntoAsCStr<E: Encoding>: Sized {
    /// The temporary that can be treated as a C string.
    type Target: AsCStr<E>;

    /// `self` as units of `E`.
    spec fn units(&self) -> Seq<E::Unit>;

    /// Attempts the conversion, which fails exactly where `self` holds a
    /// terminator: text of any kind can be written in any of the encodings.
    fn try_into(self) -> (r: Result<Self::Target, InteriorNulError>)
        ensures
            r is Err <==> has_nul(self.units()),
            r matches Ok(target) ==> target.cstr() == self.units(),
    ;
}

/// Converts `self` into something that is a C string of encoding `E`, or null.
pub trait TryIntoAsOptCStr<E: Encoding>: Sized {
    /// The temporary that can be treated as a C string, or as null.
    type Target: AsOptCStr<E>;

    /// `self` as units of `E`, where it stands for a string.
    spec fn opt_units(&self) -> Option<Seq<E::Unit>>;

    /// Attempts the conversion, which fails exactly where `self` holds a
    /// terminator.
    fn try_into(self) -> (r: Result<Self::Target, InteriorNulError>)
        ensures
            r is Err <==> (self.opt_units() matches Some(units) && has_nul(units)),
            r matches Ok(target) ==> target.opt_cstr() == self.opt_units(),
    ;
}

impl<E: Encoding, T: AsCStr<E>> TryIntoAsCStr<E> for T {
    type Target = T;

    open spec fn units(&self) -> Seq<E::Unit> {
        self.cstr()
    }

    fn try_into(self) -> (r: Result<T, InteriorNulError>) {
        proof {
            self.lemma_cstr();
        }
        Ok(self)
    }
}

impl<E: Encoding, T: AsOptCStr<E>> TryIntoAsOptCStr<E> for T {
    type Target = T;

    open spec fn opt_units(&self) -> Option<Seq<E::Unit>> {
        self.opt_cstr()
    }

    fn try_into(self) -> (r: Result<T, InteriorNulError>) {
        proof {
            self.lemma_opt_cstr();
        }
        Ok(self)
    }
}

/// The scalar values of `text`.
pub fn str_to_chars(text: &str) -> (r: Vec<char>)
    ensures
        r@ == text@,
{
    let all = text.as_bytes();
    let mut rest = all;
    let mut out: Vec<char> = Vec::new();
    proof {
        vstd::utf8::encode_utf8_valid_utf8(text@);
        vstd::utf8::encode_utf8_decode_utf8(text@);
    }
    while rest.len() > 0
        invariant
            valid_utf8(rest@),
            out@ + decode_utf8(rest@) == text@,
        decreases rest@.len(),
    {
        proof {
            lemma_utf8_front(rest@);
            Utf8::lemma_front_len(rest@);
        }
        let ghost before = rest@;
        match Utf8::next_char(&mut rest) {
            Ok(c) => {
                out.push(c);
                assert(rest@ == pop_first_scalar(before));
                assert(decode_utf8(before) == seq![c] + decode_utf8(rest@));
            },
            Err(_) => {
                assert(false);
            },
        }
    }
    assert(decode_utf8(rest@) == Seq::<char>::empty());
    out
}

/// The UTF-8 encoding of `text`: the bytes it is made of.
pub fn str_to_units8(text: &str) -> (r: Vec<u8>)
    ensures
        r@ == encode_utf8(text@),
{
    text.as_bytes_vec()
}

/// Appends the UTF-16 encoding of `c`.
pub(crate) fn push_utf16(out: &mut Vec<u16>, c: char)
    ensures
        final(out)@ == old(out)@ + encode_utf16_scalar(c),
{
    let v = c as u32;
    proof {
        vstd::utf8::char_is_scalar(c);
    }
    if v < 0x10000 {
        out.push(v as u16);
        assert(out@ == old(out)@ + seq![v as u16]);
    } else {
        let w = v - 0x10000;
        let high = (0xD800 + w / 0x400) as u16;
        let low = (0xDC00 + w % 0x400) as u16;
        out.push(high);
        out.push(low);
        assert(out@ == old(out)@ + seq![high, low]);
    }
}

/// The UTF-16 encoding of `text`.
pub fn str_to_units16(text: &str) -> (r: Vec<u16>)
    ensures
        r@ == encode_utf16(text@),
{
    let chars = str_to_chars(text);
    let mut out: Vec<u16> = Vec::new();
    let mut i: usize = 0;
    assert(chars@.skip(0) == chars@);
    while i < chars.len()
        invariant
            i <= chars@.len(),
            out@ + encode_utf16(chars@.skip(i as int)) == encode_utf16(chars@),
        decreases chars@.len() - i,
    {
        proof {
            assert(chars@.skip(i as int).drop_first() == chars@.skip(i + 1));
        }
        push_utf16(&mut out, chars[i]);
        i += 1;
    }
    out
}

/// The UTF-32 encoding of `text`: the numbers of its scalar values.
pub fn str_to_units32(text: &str) -> (r: Vec<u32>)
    ensures
        r@ == encode_utf32(text@),
{
    let chars = str_to_chars(text);
    let mut out: Vec<u32> = Vec::new();
    let mut i: usize = 0;
    while i < chars.len()
        invariant
            i <= chars@.len(),
            out@ == encode_utf32(chars@.take(i as int)),
        decreases chars@.len() - i,
    {
        out.push(chars[i] as u32);
        assert(out@ == encode_utf32(chars@.take(i + 1)));
        i += 1;
    }
    assert(chars@.take(i as int) == chars@);
    out
}

impl<'a> TryIntoAsCStr<Utf8> for &'a str {
    type Target = EString0<Utf8>;

    open spec fn units(&self) -> Seq<u8> {
        encode_utf8(self@)
    }

    fn try_into(self) -> (r: Result<EString0<Utf8>, InteriorNulError>) {
        proof {
            vstd::utf8::encode_utf8_valid_utf8(self@);
        }
        EString0::from_vec_no_nul(str_to_units8(self))
    }
}

impl<'a> TryIntoAsOptCStr<Utf8> for &'a str {
    type Target = EString0<Utf8>;

    open spec fn opt_units(&self) -> Option<Seq<u8>> {
        Some(encode_utf8(self@))
    }

    fn try_into(self) -> (r: Result<EString0<Utf8>, InteriorNulError>) {
        proof {
            vstd::utf8::encode_utf8_valid_utf8(self@);
        }
        EString0::from_vec_no_nul(str_to_units8(self))
    }
}

impl<'a> TryIntoAsOptCStr<Utf8> for Option<&'a str> {
    type Target = Option<EString0<Utf8>>;

    open spec fn opt_units(&self) -> Option<Seq<u8>> {
        match self {
            Some(text) => Some(encode_utf8(text@)),
            None => None,
        }
    }

    fn try_into(self) -> (r: Result<Option<EString0<Utf8>>, InteriorNulError>) {
        match self {
            Some(text) => {
                proof {
                    vstd::utf8::encode_utf8_valid_utf8(text@);
                }
                match EString0::<Utf8>::from_vec_no_nul(str_to_units8(text)) {
                    Ok(s) => Ok(Some(s)),
                    Err(e) => Err(e),
                }
            },
            None => Ok(None),
        }
    }
}

impl<'a> TryIntoAsCStr<Utf8> for &'a String {
    type Target = EString0<Utf8>;

    open spec fn units(&self) -> Seq<u8> {
        encode_utf8(self@)
    }

    fn try_into(self) -> (r: Result<EString0<Utf8>, InteriorNulError>) {
        proof {
            vstd::utf8::encode_utf8_valid_utf8(self@);
        }
        EString0::from_vec_no_nul(str_to_units8(self.as_str()))
    }
}

impl<'a> TryIntoAsOptCStr<Utf8> for &'a String {
    type Target = EString0<Utf8>;

    open spec fn opt_units(&self) -> Option<Seq<u8>> {
        Some(encode_utf8(self@))
    }

    fn try_into(self) -> (r: Result<EString0<Utf8>, InteriorNulError>) {
        proof {
            vstd::utf8::encode_utf8_valid_utf8(self@);
        }
        EString0::from_vec_no_nul(str_to_units8(self.as_str()))
    }
}

impl<'a> TryIntoAsOptCStr<Utf8> for Option<&'a String> {
    type Target = Option<EString0<Utf8>>;

    open spec fn opt_units(&self) -> Option<Seq<u8>> {
        match self {
            Some(text) => Some(encode_utf8(text@)),
            None => None,
        }
    }

    fn try_into(self) -> (r: Result<Option<EString0<Utf8>>, InteriorNulError>) {
        match self {
            Some(text) => {
                proof {
                    vstd::utf8::encode_utf8_valid_utf8(text@);
                }
                match EString0::<Utf8>::from_vec_no_nul(str_to_units8(text.as_str())) {
                    Ok(s) => Ok(Some(s)),
                    Err(e) => Err(e),
                }
            },
            None => Ok(None),
        }
    }
}

impl TryIntoAsCStr<Utf8> for String {
    type Target = EString0<Utf8>;

    open spec fn units(&self) -> Seq<u8> {
        encode_utf8(self@)
    }

    fn try_into(self) -> (r: Result<EString0<Utf8>, InteriorNulError>) {
        proof {
            vstd::utf8::encode_utf8_valid_utf8(self@);
        }
        EString0::from_vec_no_nul(str_to_units8(self.as_str()))
    }
}

impl TryIntoAsOptCStr<Utf8> for String {
    type Target = EString0<Utf8>;

    open spec fn opt_units(&self) -> Option<Seq<u8>> {
        Some(encode_utf8(self@))
    }

    fn try_into(self) -> (r: Result<EString0<Utf8>, InteriorNulError>) {
        proof {
            vstd::utf8::encode_utf8_valid_utf8(self@);
        }
        EString0::from_vec_no_nul(str_to_units8(self.as_str()))
    }
}

impl TryIntoAsOptCStr<Utf8> for Option<String> {
    type Target = Option<EString0<Utf8>>;

    open spec fn opt_units(&self) -> Option<Seq<u8>> {
        match self {
            Some(text) => Some(encode_utf8(text@)),
            None => None,
        }
    }

    fn try_into(self) -> (r: Result<Option<EString0<Utf8>>, InteriorNulError>) {
        match self {
            Some(text) => {
                proof {
                    vstd::utf8::encode_utf8_valid_utf8(text@);
                }
                match EString0::<Utf8>::from_vec_no_nul(str_to_units8(text.as_str())) {
                    Ok(s) => Ok(Some(s)),
                    Err(e) => Err(e),
                }
            },
            None => Ok(None),
        }
    }
}

impl<'a> TryIntoAsCStr<Utf8ish> for &'a str {
    type Target = EString0<Utf8ish>;

    open spec fn units(&self) -> Seq<u8> {
        encode_utf8(self@)
    }

    fn try_into(self) -> (r: Result<EString0<Utf8ish>, InteriorNulError>) {
        EString0::from_vec_no_nul(str_to_units8(self))
    }
}

impl<'a> TryIntoAsOptCStr<Utf8ish> for &'a str {
    type Target = EString0<Utf8ish>;

    open spec fn opt_units(&self) -> Option<Seq<u8>> {
        Some(encode_utf8(self@))
    }

    fn try_into(self) -> (r: Result<EString0<Utf8ish>, InteriorNulError>) {
        EString0::from_vec_no_nul(str_to_units8(self))
    }
}

impl<'a> TryIntoAsOptCStr<Utf8ish> for Option<&'a str> {
    type Target = Option<EString0<Utf8ish>>;

    open spec fn opt_units(&self) -> Option<Seq<u8>> {
        match self {
            Some(text) => Some(encode_utf8(text@)),
            None => None,
        }
    }

    fn try_into(self) -> (r: Result<Option<EString0<Utf8ish>>, InteriorNulError>) {
        match self {
            Some(text) => {
                match EString0::<Utf8ish>::from_vec_no_nul(str_to_units8(text)) {
                    Ok(s) => Ok(Some(s)),
                    Err(e) => Err(e),
                }
            },
            None => Ok(None),
        }
    }
}

impl<'a> TryIntoAsCStr<Utf8ish> for &'a String {
    type Target = EString0<Utf8ish>;

    open spec fn units(&self) -> Seq<u8> {
        encode_utf8(self@)
    }

    fn try_into(self) -> (r: Result<EString0<Utf8ish>, InteriorNulError>) {
        EString0::from_vec_no_nul(str_to_units8(self.as_str()))
    }
}

impl<'a> TryIntoAsOptCStr<Utf8ish> for &'a String {
    type Target = EString0<Utf8ish>;

    open spec fn opt_units(&self) -> Option<Seq<u8>> {
        Some(encode_utf8(self@))
    }

    fn try_into(self) -> (r: Result<EString0<Utf8ish>, InteriorNulError>) {
        EString0::from_vec_no_nul(str_to_units8(self.as_str()))
    }
}

impl<'a> TryIntoAsOptCStr<Utf8ish> for Option<&'a String> {
    type Target = Option<EString0<Utf8ish>>;

    open spec fn opt_units(&self) -> Option<Seq<u8>> {
        match self {
            Some(text) => Some(encode_utf8(text@)),
            None => None,
        }
    }

    fn try_into(self) -> (r: Result<Option<EString0<Utf8ish>>, InteriorNulError>) {
        match self {
            Some(text) => {
                match EString0::<Utf8ish>::from_vec_no_nul(str_to_units8(text.as_str())) {
                    Ok(s) => Ok(Some(s)),
                    Err(e) => Err(e),
                }
            },
            None => Ok(None),
        }
    }
}

impl TryIntoAsCStr<Utf8ish> for String {
    type Target = EString0<Utf8ish>;

    open spec fn units(&self) -> Seq<u8> {
        encode_utf8(self@)
    }

    fn try_into(self) -> (r: Result<EString0<Utf8ish>, InteriorNulError>) {
        EString0::from_vec_no_nul(str_to_units8(self.as_str()))
    }
}

impl TryIntoAsOptCStr<Utf8ish> for String {
    type Target = EString0<Utf8ish>;

    open spec fn opt_units(&self) -> Option<Seq<u8>> {
        Some(encode_utf8(self@))
    }

    fn try_into(self) -> (r: Result<EString0<Utf8ish>, InteriorNulError>) {
        EString0::from_vec_no_nul(str_to_units8(self.as_str()))
    }
}

impl TryIntoAsOptCStr<Utf8ish> for Option<String> {
    type Target = Option<EString0<Utf8ish>>;

    open spec fn opt_units(&self) -> Option<Seq<u8>> {
        match self {
            Some(text) => Some(encode_utf8(text@)),
            None => None,
        }
    }

    fn try_into(self) -> (r: Result<Option<EString0<Utf8ish>>, InteriorNulError>) {
        match self {
            Some(text) => {
                match EString0::<Utf8ish>::from_vec_no_nul(str_to_units8(text.as_str())) {
                    Ok(s) => Ok(Some(s)),
                    Err(e) => Err(e),
                }
            },
            None => Ok(None),
        }
    }
}

impl<'a> TryIntoAsCStr<Unknown8> for &'a str {
    type Target = EString0<Unknown8>;

    open spec fn units(&self) -> Seq<u8> {
        encode_utf8(self@)
    }

    fn try_into(self) -> (r: Result<EString0<Unknown8>, InteriorNulError>) {
        EString0::from_vec_no_nul(str_to_units8(self))
    }
}

impl<'a> TryIntoAsOptCStr<Unknown8> for &'a str {
    type Target = EString0<Unknown8>;

    open spec fn opt_units(&self) -> Option<Seq<u8>> {
        Some(encode_utf8(self@))
    }

    fn try_into(self) -> (r: Result<EString0<Unknown8>, InteriorNulError>) {
        EString0::from_vec_no_nul(str_to_units8(self))
    }
}

impl<'a> TryIntoAsOptCStr<Unknown8> for Option<&'a str> {
    type Target = Option<EString0<Unknown8>>;

    open spec fn opt_units(&self) -> Option<Seq<u8>> {
        match self {
            Some(text) => Some(encode_utf8(text@)),
            None => None,
        }
    }

    fn try_into(self) -> (r: Result<Option<EString0<Unknown8>>, InteriorNulError>) {
        match self {
            Some(text) => {
                match EString0::<Unknown8>::from_vec_no_nul(str_to_units8(text)) {
                    Ok(s) => Ok(Some(s)),
                    Err(e) => Err(e),
                }
            },
            None => Ok(None),
        }
    }
}

impl<'a> TryIntoAsCStr<Unknown8> for &'a String {
    type Target = EString0<Unknown8>;

    open spec fn units(&self) -> Seq<u8> {
        encode_utf8(self@)
    }

    fn try_into(self) -> (r: Result<EString0<Unknown8>, InteriorNulError>) {
        EString0::from_vec_no_nul(str_to_units8(self.as_str()))
    }
}

impl<'a> TryIntoAsOptCStr<Unknown8> for &'a String {
    type Target = EString0<Unknown8>;

    open spec fn opt_units(&self) -> Option<Seq<u8>> {
        Some(encode_utf8(self@))
    }

    fn try_into(self) -> (r: Result<EString0<Unknown8>, InteriorNulError>) {
        EString0::from_vec_no_nul(str_to_units8(self.as_str()))
    }
}

impl<'a> TryIntoAsOptCStr<Unknown8> for Option<&'a String> {
    type Target = Option<EString0<Unknown8>>;

    open spec fn opt_units(&self) -> Option<Seq<u8>> {
        match self {
            Some(text) => Some(encode_utf8(text@)),
            None => None,
        }
    }

    fn try_into(self) -> (r: Result<Option<EString0<Unknown8>>, InteriorNulError>) {
        match self {
            Some(text) => {
                match EString0::<Unknown8>::from_vec_no_nul(str_to_units8(text.as_str())) {
                    Ok(s) => Ok(Some(s)),
                    Err(e) => Err(e),
                }
            },
            None => Ok(None),
        }
    }
}

impl TryIntoAsCStr<Unknown8> for String {
    type Target = EString0<Unknown8>;

    open spec fn units(&self) -> Seq<u8> {
        encode_utf8(self@)
    }

    fn try_into(self) -> (r: Result<EString0<Unknown8>, InteriorNulError>) {
        EString0::from_vec_no_nul(str_to_units8(self.as_str()))
    }
}

impl TryIntoAsOptCStr<Unknown8> for String {
    type Target = EString0<Unknown8>;

    open spec fn opt_units(&self) -> Option<Seq<u8>> {
        Some(encode_utf8(self@))
    }

    fn try_into(self) -> (r: Result<EString0<Unknown8>, InteriorNulError>) {
        EString0::from_vec_no_nul(str_to_units8(self.as_str()))
    }
}

impl TryIntoAsOptCStr<Unknown8> for Option<String> {
    type Target = Option<EString0<Unknown8>>;

    open spec fn opt_units(&self) -> Option<Seq<u8>> {
        match self {
            Some(text) => Some(encode_utf8(text@)),
            None => None,
        }
    }

    fn try_into(self) -> (r: Result<Option<EString0<Unknown8>>, InteriorNulError>) {
        match self {
            Some(text) => {
                match EString0::<Unknown8>::from_vec_no_nul(str_to_units8(text.as_str())) {
                    Ok(s) => Ok(Some(s)),
                    Err(e) => Err(e),
                }
            },
            None => Ok(None),
        }
    }
}

impl<'a> TryIntoAsCStr<Utf16> for &'a str {
    type Target = EString0<Utf16>;

    open spec fn units(&self) -> Seq<u16> {
        encode_utf16(self@)
    }

    fn try_into(self) -> (r: Result<EString0<Utf16>, InteriorNulError>) {
        proof {
            lemma_utf16_round_trip(self@);
        }
        EString0::from_vec_no_nul(str_to_units16(self))
    }
}

impl<'a> TryIntoAsOptCStr<Utf16> for &'a str {
    type Target = EString0<Utf16>;

    open spec fn opt_units(&self) -> Option<Seq<u16>> {
        Some(encode_utf16(self@))
    }

    fn try_into(self) -> (r: Result<EString0<Utf16>, InteriorNulError>) {
        proof {
            lemma_utf16_round_trip(self@);
        }
        EString0::from_vec_no_nul(str_to_units16(self))
    }
}

impl<'a> TryIntoAsOptCStr<Utf16> for Option<&'a str> {
    type Target = Option<EString0<Utf16>>;

    open spec fn opt_units(&self) -> Option<Seq<u16>> {
        match self {
            Some(text) => Some(encode_utf16(text@)),
            None => None,
        }
    }

    fn try_into(self) -> (r: Result<Option<EString0<Utf16>>, InteriorNulError>) {
        match self {
            Some(text) => {
                proof {
                    lemma_utf16_round_trip(text@);
                }
                match EString0::<Utf16>::from_vec_no_nul(str_to_units16(text)) {
                    Ok(s) => Ok(Some(s)),
                    Err(e) => Err(e),
                }
            },
            None => Ok(None),
        }
    }
}

impl<'a> TryIntoAsCStr<Utf16> for &'a String {
    type Target = EString0<Utf16>;

    open spec fn units(&self) -> Seq<u16> {
        encode_utf16(self@)
    }

    fn try_into(self) -> (r: Result<EString0<Utf16>, InteriorNulError>) {
        proof {
            lemma_utf16_round_trip(self@);
        }
        EString0::from_vec_no_nul(str_to_units16(self.as_str()))
    }
}

impl<'a> TryIntoAsOptCStr<Utf16> for &'a String {
    type Target = EString0<Utf16>;

    open spec fn opt_units(&self) -> Option<Seq<u16>> {
        Some(encode_utf16(self@))
    }

    fn try_into(self) -> (r: Result<EString0<Utf16>, InteriorNulError>) {
        proof {
            lemma_utf16_round_trip(self@);
        }
        EString0::from_vec_no_nul(str_to_units16(self.as_str()))
    }
}

impl<'a> TryIntoAsOptCStr<Utf16> for Option<&'a String> {
    type Target = Option<EString0<Utf16>>;

    open spec fn opt_units(&self) -> Option<Seq<u16>> {
        match self {
            Some(text) => Some(encode_utf16(text@)),
            None => None,
        }
    }

    fn try_into(self) -> (r: Result<Option<EString0<Utf16>>, InteriorNulError>) {
        match self {
            Some(text) => {
                proof {
                    lemma_utf16_round_trip(text@);
                }
                match EString0::<Utf16>::from_vec_no_nul(str_to_units16(text.as_str())) {
                    Ok(s) => Ok(Some(s)),
                    Err(e) => Err(e),
                }
            },
            None => Ok(None),
        }
    }
}

impl TryIntoAsCStr<Utf16> for String {
    type Target = EString0<Utf16>;

    open spec fn units(&self) -> Seq<u16> {
        encode_utf16(self@)
    }

    fn try_into(self) -> (r: Result<EString0<Utf16>, InteriorNulError>) {
        proof {
            lemma_utf16_round_trip(self@);
        }
        EString0::from_vec_no_nul(str_to_units16(self.as_str()))
    }
}

impl TryIntoAsOptCStr<Utf16> for String {
    type Target = EString0<Utf16>;

    open spec fn opt_units(&self) -> Option<Seq<u16>> {
        Some(encode_utf16(self@))
    }

    fn try_into(self) -> (r: Result<EString0<Utf16>, InteriorNulError>) {
        proof {
            lemma_utf16_round_trip(self@);
        }
        EString0::from_vec_no_nul(str_to_units16(self.as_str()))
    }
}

impl TryIntoAsOptCStr<Utf16> for Option<String> {
    type Target = Option<EString0<Utf16>>;

    open spec fn opt_units(&self) -> Option<Seq<u16>> {
        match self {
            Some(text) => Some(encode_utf16(text@)),
            None => None,
        }
    }

    fn try_into(self) -> (r: Result<Option<EString0<Utf16>>, InteriorNulError>) {
        match self {
            Some(text) => {
                proof {
                    lemma_utf16_round_trip(text@);
                }
                match EString0::<Utf16>::from_vec_no_nul(str_to_units16(text.as_str())) {
                    Ok(s) => Ok(Some(s)),
                    Err(e) => Err(e),
                }
            },
            None => Ok(None),
        }
    }
}

impl<'a> TryIntoAsCStr<Utf16ish> for &'a str {
    type Target = EString0<Utf16ish>;

    open spec fn units(&self) -> Seq<u16> {
        encode_utf16(self@)
    }

    fn try_into(self) -> (r: Result<EString0<Utf16ish>, InteriorNulError>) {
        EString0::from_vec_no_nul(str_to_units16(self))
    }
}

impl<'a> TryIntoAsOptCStr<Utf16ish> for &'a str {
    type Target = EString0<Utf16ish>;

    open spec fn opt_units(&self) -> Option<Seq<u16>> {
        Some(encode_utf16(self@))
    }

    fn try_into(self) -> (r: Result<EString0<Utf16ish>, InteriorNulError>) {
        EString0::from_vec_no_nul(str_to_units16(self))
    }
}

impl<'a> TryIntoAsOptCStr<Utf16ish> for Option<&'a str> {
    type Target = Option<EString0<Utf16ish>>;

    open spec fn opt_units(&self) -> Option<Seq<u16>> {
        match self {
            Some(text) => Some(encode_utf16(text@)),
            None => None,
        }
    }

    fn try_into(self) -> (r: Result<Option<EString0<Utf16ish>>, InteriorNulError>) {
        match self {
            Some(text) => {
                match EString0::<Utf16ish>::from_vec_no_nul(str_to_units16(text)) {
                    Ok(s) => Ok(Some(s)),
                    Err(e) => Err(e),
                }
            },
            None => Ok(None),
        }
    }
}

impl<'a> TryIntoAsCStr<Utf16ish> for &'a String {
    type Target = EString0<Utf16ish>;

    open spec fn units(&self) -> Seq<u16> {
        encode_utf16(self@)
    }

    fn try_into(self) -> (r: Result<EString0<Utf16ish>, InteriorNulError>) {
        EString0::from_vec_no_nul(str_to_units16(self.as_str()))
    }
}

impl<'a> TryIntoAsOptCStr<Utf16ish> for &'a String {
    type Target = EString0<Utf16ish>;

    open spec fn opt_units(&self) -> Option<Seq<u16>> {
        Some(encode_utf16(self@))
    }

    fn try_into(self) -> (r: Result<EString0<Utf16ish>, InteriorNulError>) {
        EString0::from_vec_no_nul(str_to_units16(self.as_str()))
    }
}

impl<'a> TryIntoAsOptCStr<Utf16ish> for Option<&'a String> {
    type Target = Option<EString0<Utf16ish>>;

    open spec fn opt_units(&self) -> Option<Seq<u16>> {
        match self {
            Some(text) => Some(encode_utf16(text@)),
            None => None,
        }
    }

    fn try_into(self) -> (r: Result<Option<EString0<Utf16ish>>, InteriorNulError>) {
        match self {
            Some(text) => {
                match EString0::<Utf16ish>::from_vec_no_nul(str_to_units16(text.as_str())) {
                    Ok(s) => Ok(Some(s)),
                    Err(e) => Err(e),
                }
            },
            None => Ok(None),
        }
    }
}

impl TryIntoAsCStr<Utf16ish> for String {
    type Target = EString0<Utf16ish>;

    open spec fn units(&self) -> Seq<u16> {
        encode_utf16(self@)
    }

    fn try_into(self) -> (r: Result<EString0<Utf16ish>, InteriorNulError>) {
        EString0::from_vec_no_nul(str_to_units16(self.as_str()))
    }
}

impl TryIntoAsOptCStr<Utf16ish> for String {
    type Target = EString0<Utf16ish>;

    open spec fn opt_units(&self) -> Option<Seq<u16>> {
        Some(encode_utf16(self@))
    }

    fn try_into(self) -> (r: Result<EString0<Utf16ish>, InteriorNulError>) {
        EString0::from_vec_no_nul(str_to_units16(self.as_str()))
    }
}

impl TryIntoAsOptCStr<Utf16ish> for Option<String> {
    type Target = Option<EString0<Utf16ish>>;

    open spec fn opt_units(&self) -> Option<Seq<u16>> {
        match self {
            Some(text) => Some(encode_utf16(text@)),
            None => None,
        }
    }

    fn try_into(self) -> (r: Result<Option<EString0<Utf16ish>>, InteriorNulError>) {
        match self {
            Some(text) => {
                match EString0::<Utf16ish>::from_vec_no_nul(str_to_units16(text.as_str())) {
                    Ok(s) => Ok(Some(s)),
                    Err(e) => Err(e),
                }
            },
            None => Ok(None),
        }
    }
}

impl<'a> TryIntoAsCStr<Unknown16> for &'a str {
    type Target = EString0<Unknown16>;

    open spec fn units(&self) -> Seq<u16> {
        encode_utf16(self@)
    }

    fn try_into(self) -> (r: Result<EString0<Unknown16>, InteriorNulError>) {
        EString0::from_vec_no_nul(str_to_units16(self))
    }
}

impl<'a> TryIntoAsOptCStr<Unknown16> for &'a str {
    type Target = EString0<Unknown16>;

    open spec fn opt_units(&self) -> Option<Seq<u16>> {
        Some(encode_utf16(self@))
    }

    fn try_into(self) -> (r: Result<EString0<Unknown16>, InteriorNulError>) {
        EString0::from_vec_no_nul(str_to_units16(self))
    }
}

impl<'a> TryIntoAsOptCStr<Unknown16> for Option<&'a str> {
    type Target = Option<EString0<Unknown16>>;

    open spec fn opt_units(&self) -> Option<Seq<u16>> {
        match self {
            Some(text) => Some(encode_utf16(text@)),
            None => None,
        }
    }

    fn try_into(self) -> (r: Result<Option<EString0<Unknown16>>, InteriorNulError>) {
        match self {
            Some(text) => {
                match EString0::<Unknown16>::from_vec_no_nul(str_to_units16(text)) {
                    Ok(s) => Ok(Some(s)),
                    Err(e) => Err(e),
                }
            },
            None => Ok(None),
        }
    }
}

impl<'a> TryIntoAsCStr<Unknown16> for &'a String {
    type Target = EString0<Unknown16>;

    open spec fn units(&self) -> Seq<u16> {
        encode_utf16(self@)
    }

    fn try_into(self) -> (r: Result<EString0<Unknown16>, InteriorNulError>) {
        EString0::from_vec_no_nul(str_to_units16(self.as_str()))
    }
}

impl<'a> TryIntoAsOptCStr<Unknown16> for &'a String {
    type Target = EString0<Unknown16>;

    open spec fn opt_units(&self) -> Option<Seq<u16>> {
        Some(encode_utf16(self@))
    }

    fn try_into(self) -> (r: Result<EString0<Unknown16>, InteriorNulError>) {
        EString0::from_vec_no_nul(str_to_units16(self.as_str()))
    }
}

impl<'a> TryIntoAsOptCStr<Unknown16> for Option<&'a String> {
    type Target = Option<EString0<Unknown16>>;

    open spec fn opt_units(&self) -> Option<Seq<u16>> {
        match self {
            Some(text) => Some(encode_utf16(text@)),
            None => None,
        }
    }

    fn try_into(self) -> (r: Result<Option<EString0<Unknown16>>, InteriorNulError>) {
        match self {
            Some(text) => {
                match EString0::<Unknown16>::from_vec_no_nul(str_to_units16(text.as_str())) {
                    Ok(s) => Ok(Some(s)),
                    Err(e) => Err(e),
                }
            },
            None => Ok(None),
        }
    }
}

impl TryIntoAsCStr<Unknown16> for String {
    type Target = EString0<Unknown16>;

    open spec fn units(&self) -> Seq<u16> {
        encode_utf16(self@)
    }

    fn try_into(self) -> (r: Result<EString0<Unknown16>, InteriorNulError>) {
        EString0::from_vec_no_nul(str_to_units16(self.as_str()))
    }
}

impl TryIntoAsOptCStr<Unknown16> for String {
    type Target = EString0<Unknown16>;

    open spec fn opt_units(&self) -> Option<Seq<u16>> {
        Some(encode_utf16(self@))
    }

    fn try_into(self) -> (r: Result<EString0<Unknown16>, InteriorNulError>) {
        EString0::from_vec_no_nul(str_to_units16(self.as_str()))
    }
}

impl TryIntoAsOptCStr<Unknown16> for Option<String> {
    type Target = Option<EString0<Unknown16>>;

    open spec fn opt_units(&self) -> Option<Seq<u16>> {
        match self {
            Some(text) => Some(encode_utf16(text@)),
            None => None,
        }
    }

    fn try_into(self) -> (r: Result<Option<EString0<Unknown16>>, InteriorNulError>) {
        match self {
            Some(text) => {
                match EString0::<Unknown16>::from_vec_no_nul(str_to_units16(text.as_str())) {
                    Ok(s) => Ok(Some(s)),
                    Err(e) => Err(e),
                }
            },
            None => Ok(None),
        }
    }
}

impl<'a> TryIntoAsCStr<Utf32> for &'a str {
    type Target = EString0<Utf32>;

    open spec fn units(&self) -> Seq<char> {
        self@
    }

    fn try_into(self) -> (r: Result<EString0<Utf32>, InteriorNulError>) {
        EString0::from_vec_no_nul(str_to_chars(self))
    }
}

impl<'a> TryIntoAsOptCStr<Utf32> for &'a str {
    type Target = EString0<Utf32>;

    open spec fn opt_units(&self) -> Option<Seq<char>> {
        Some(self@)
    }

    fn try_into(self) -> (r: Result<EString0<Utf32>, InteriorNulError>) {
        EString0::from_vec_no_nul(str_to_chars(self))
    }
}

impl<'a> TryIntoAsOptCStr<Utf32> for Option<&'a str> {
    type Target = Option<EString0<Utf32>>;

    open spec fn opt_units(&self) -> Option<Seq<char>> {
        match self {
            Some(text) => Some(text@),
            None => None,
        }
    }

    fn try_into(self) -> (r: Result<Option<EString0<Utf32>>, InteriorNulError>) {
        match self {
            Some(text) => {
                match EString0::<Utf32>::from_vec_no_nul(str_to_chars(text)) {
                    Ok(s) => Ok(Some(s)),
                    Err(e) => Err(e),
                }
            },
            None => Ok(None),
        }
    }
}

impl<'a> TryIntoAsCStr<Utf32> for &'a String {
    type Target = EString0<Utf32>;

    open spec fn units(&self) -> Seq<char> {
        self@
    }

    fn try_into(self) -> (r: Result<EString0<Utf32>, InteriorNulError>) {
        EString0::from_vec_no_nul(str_to_chars(self.as_str()))
    }
}

impl<'a> TryIntoAsOptCStr<Utf32> for &'a String {
    type Target = EString0<Utf32>;

    open spec fn opt_units(&self) -> Option<Seq<char>> {
        Some(self@)
    }

    fn try_into(self) -> (r: Result<EString0<Utf32>, InteriorNulError>) {
        EString0::from_vec_no_nul(str_to_chars(self.as_str()))
    }
}

impl<'a> TryIntoAsOptCStr<Utf32> for Option<&'a String> {
    type Target = Option<EString0<Utf32>>;

    open spec fn opt_units(&self) -> Option<Seq<char>> {
        match self {
            Some(text) => Some(text@),
            None => None,
        }
    }

    fn try_into(self) -> (r: Result<Option<EString0<Utf32>>, InteriorNulError>) {
        match self {
            Some(text) => {
                match EString0::<Utf32>::from_vec_no_nul(str_to_chars(text.as_str())) {
                    Ok(s) => Ok(Some(s)),
                    Err(e) => Err(e),
                }
            },
            None => Ok(None),
        }
    }
}

impl TryIntoAsCStr<Utf32> for String {
    type Target = EString0<Utf32>;

    open spec fn units(&self) -> Seq<char> {
        self@
    }

    fn try_into(self) -> (r: Result<EString0<Utf32>, InteriorNulError>) {
        EString0::from_vec_no_nul(str_to_chars(self.as_str()))
    }
}

impl TryIntoAsOptCStr<Utf32> for String {
    type Target = EString0<Utf32>;

    open spec fn opt_units(&self) -> Option<Seq<char>> {
        Some(self@)
    }

    fn try_into(self) -> (r: Result<EString0<Utf32>, InteriorNulError>) {
        EString0::from_vec_no_nul(str_to_chars(self.as_str()))
    }
}

impl TryIntoAsOptCStr<Utf32> for Option<String> {
    type Target = Option<EString0<Utf32>>;

    open spec fn opt_units(&self) -> Option<Seq<char>> {
        match self {
            Some(text) => Some(text@),
            None => None,
        }
    }

    fn try_into(self) -> (r: Result<Option<EString0<Utf32>>, InteriorNulError>) {
        match self {
            Some(text) => {
                match EString0::<Utf32>::from_vec_no_nul(str_to_chars(text.as_str())) {
                    Ok(s) => Ok(Some(s)),
                    Err(e) => Err(e),
                }
            },
            None => Ok(None),
        }
    }
}

impl<'a> TryIntoAsCStr<Utf32ish> for &'a str {
    type Target = EString0<Utf32ish>;

    open spec fn units(&self) -> Seq<u32> {
        encode_utf32(self@)
    }

    fn try_into(self) -> (r: Result<EString0<Utf32ish>, InteriorNulError>) {
        EString0::from_vec_no_nul(str_to_units32(self))
    }
}

impl<'a> TryIntoAsOptCStr<Utf32ish> for &'a str {
    type Target = EString0<Utf32ish>;

    open spec fn opt_units(&self) -> Option<Seq<u32>> {
        Some(encode_utf32(self@))
    }

    fn try_into(self) -> (r: Result<EString0<Utf32ish>, InteriorNulError>) {
        EString0::from_vec_no_nul(str_to_units32(self))
    }
}

impl<'a> TryIntoAsOptCStr<Utf32ish> for Option<&'a str> {
    type Target = Option<EString0<Utf32ish>>;

    open spec fn opt_units(&self) -> Option<Seq<u32>> {
        match self {
            Some(text) => Some(encode_utf32(text@)),
            None => None,
        }
    }

    fn try_into(self) -> (r: Result<Option<EString0<Utf32ish>>, InteriorNulError>) {
        match self {
            Some(text) => {
                match EString0::<Utf32ish>::from_vec_no_nul(str_to_units32(text)) {
                    Ok(s) => Ok(Some(s)),
                    Err(e) => Err(e),
                }
            },
            None => Ok(None),
        }
    }
}

impl<'a> TryIntoAsCStr<Utf32ish> for &'a String {
    type Target = EString0<Utf32ish>;

    open spec fn units(&self) -> Seq<u32> {
        encode_utf32(self@)
    }

    fn try_into(self) -> (r: Result<EString0<Utf32ish>, InteriorNulError>) {
        EString0::from_vec_no_nul(str_to_units32(self.as_str()))
    }
}

impl<'a> TryIntoAsOptCStr<Utf32ish> for &'a String {
    type Target = EString0<Utf32ish>;

    open spec fn opt_units(&self) -> Option<Seq<u32>> {
        Some(encode_utf32(self@))
    }

    fn try_into(self) -> (r: Result<EString0<Utf32ish>, InteriorNulError>) {
        EString0::from_vec_no_nul(str_to_units32(self.as_str()))
    }
}

impl<'a> TryIntoAsOptCStr<Utf32ish> for Option<&'a String> {
    type Target = Option<EString0<Utf32ish>>;

    open spec fn opt_units(&self) -> Option<Seq<u32>> {
        match self {
            Some(text) => Some(encode_utf32(text@)),
            None => None,
        }
    }

    fn try_into(self) -> (r: Result<Option<EString0<Utf32ish>>, InteriorNulError>) {
        match self {
            Some(text) => {
                match EString0::<Utf32ish>::from_vec_no_nul(str_to_units32(text.as_str())) {
                    Ok(s) => Ok(Some(s)),
                    Err(e) => Err(e),
                }
            },
            None => Ok(None),
        }
    }
}

impl TryIntoAsCStr<Utf32ish> for String {
    type Target = EString0<Utf32ish>;

    open spec fn units(&self) -> Seq<u32> {
        encode_utf32(self@)
    }

    fn try_into(self) -> (r: Result<EString0<Utf32ish>, InteriorNulError>) {
        EString0::from_vec_no_nul(str_to_units32(self.as_str()))
    }
}

impl TryIntoAsOptCStr<Utf32ish> for String {
    type Target = EString0<Utf32ish>;

    open spec fn opt_units(&self) -> Option<Seq<u32>> {
        Some(encode_utf32(self@))
    }

    fn try_into(self) -> (r: Result<EString0<Utf32ish>, InteriorNulError>) {
        EString0::from_vec_no_nul(str_to_units32(self.as_str()))
    }
}

impl TryIntoAsOptCStr<Utf32ish> for Option<String> {
    type Target = Option<EString0<Utf32ish>>;

    open spec fn opt_units(&self) -> Option<Seq<u32>> {
        match self {
            Some(text) => Some(encode_utf32(text@)),
            None => None,
        }
    }

    fn try_into(self) -> (r: Result<Option<EString0<Utf32ish>>, InteriorNulError>) {
        match self {
            Some(text) => {
                match EString0::<Utf32ish>::from_vec_no_nul(str_to_units32(text.as_str())) {
                    Ok(s) => Ok(Some(s)),
                    Err(e) => Err(e),
                }
            },
            None => Ok(None),
        }
    }
}

impl<'a> TryIntoAsCStr<Unknown32> for &'a str {
    type Target = EString0<Unknown32>;

    open spec fn units(&self) -> Seq<u32> {
        encode_utf32(self@)
    }

    fn try_into(self) -> (r: Result<EString0<Unknown32>, InteriorNulError>) {
        EString0::from_vec_no_nul(str_to_units32(self))
    }
}

impl<'a> TryIntoAsOptCStr<Unknown32> for &'a str {
    type Target = EString0<Unknown32>;

    open spec fn opt_units(&self) -> Option<Seq<u32>> {
        Some(encode_utf32(self@))
    }

    fn try_into(self) -> (r: Result<EString0<Unknown32>, InteriorNulError>) {
        EString0::from_vec_no_nul(str_to_units32(self))
    }
}

impl<'a> TryIntoAsOptCStr<Unknown32> for Option<&'a str> {
    type Target = Option<EString0<Unknown32>>;

    open spec fn opt_units(&self) -> Option<Seq<u32>> {
        match self {
            Some(text) => Some(encode_utf32(text@)),
            None => None,
        }
    }

    fn try_into(self) -> (r: Result<Option<EString0<Unknown32>>, InteriorNulError>) {
        match self {
            Some(text) => {
                match EString0::<Unknown32>::from_vec_no_nul(str_to_units32(text)) {
                    Ok(s) => Ok(Some(s)),
                    Err(e) => Err(e),
                }
            },
            None => Ok(None),
        }
    }
}

impl<'a> TryIntoAsCStr<Unknown32> for &'a String {
    type Target = EString0<Unknown32>;

    open spec fn units(&self) -> Seq<u32> {
        encode_utf32(self@)
    }

    fn try_into(self) -> (r: Result<EString0<Unknown32>, InteriorNulError>) {
        EString0::from_vec_no_nul(str_to_units32(self.as_str()))
    }
}

impl<'a> TryIntoAsOptCStr<Unknown32> for &'a String {
    type Target = EString0<Unknown32>;

    open spec fn opt_units(&self) -> Option<Seq<u32>> {
        Some(encode_utf32(self@))
    }

    fn try_into(self) -> (r: Result<EString0<Unknown32>, InteriorNulError>) {
        EString0::from_vec_no_nul(str_to_units32(self.as_str()))
    }
}

impl<'a> TryIntoAsOptCStr<Unknown32> for Option<&'a String> {
    type Target = Option<EString0<Unknown32>>;

    open spec fn opt_units(&self) -> Option<Seq<u32>> {
        match self {
            Some(text) => Some(encode_utf32(text@)),
            None => None,
        }
    }

    fn try_into(self) -> (r: Result<Option<EString0<Unknown32>>, InteriorNulError>) {
        match self {
            Some(text) => {
                match EString0::<Unknown32>::from_vec_no_nul(str_to_units32(text.as_str())) {
                    Ok(s) => Ok(Some(s)),
                    Err(e) => Err(e),
                }
            },
            None => Ok(None),
        }
    }
}

impl TryIntoAsCStr<Unknown32> for String {
    type Target = EString0<Unknown32>;

    open spec fn units(&self) -> Seq<u32> {
        encode_utf32(self@)
    }

    fn try_into(self) -> (r: Result<EString0<Unknown32>, InteriorNulError>) {
        EString0::from_vec_no_nul(str_to_units32(self.as_str()))
    }
}

impl TryIntoAsOptCStr<Unknown32> for String {
    type Target = EString0<Unknown32>;

    open spec fn opt_units(&self) -> Option<Seq<u32>> {
        Some(encode_utf32(self@))
    }

    fn try_into(self) -> (r: Result<EString0<Unknown32>, InteriorNulError>) {
        EString0::from_vec_no_nul(str_to_units32(self.as_str()))
    }
}

impl TryIntoAsOptCStr<Unknown32> for Option<String> {
    type Target = Option<EString0<Unknown32>>;

    open spec fn opt_units(&self) -> Option<Seq<u32>> {
        match self {
            Some(text) => Some(encode_utf32(text@)),
            None => None,
        }
    }

    fn try_into(self) -> (r: Result<Option<EString0<Unknown32>>, InteriorNulError>) {
        match self {
            Some(text) => {
                match EString0::<Unknown32>::from_vec_no_nul(str_to_units32(text.as_str())) {
                    Ok(s) => Ok(Some(s)),
                    Err(e) => Err(e),
                }
            },
            None => Ok(None),
        }
    }
}

} // verus!
