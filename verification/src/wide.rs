//! The wide strings of the `widestring` crate, to and from the views of this
//! one.
//!
//! What `widestring` holds in its strings is known here by name only: each of
//! its string types has a spec function for its units, and the few functions
//! of it that are called say over those names what they do.
//!
//! Only the owned types are declared. The borrowed ones (`U16CStr`, `U16Str`
//! and the like) come with `From` impls into `Cow` that Verus cannot take
//! beside the `From` impls of this crate, so a view is handed out as an owned
//! copy, and an owned string is what can stand in for a C string.

use crate::as_traits::{AsCStr, AsOptCStr};
use crate::encoding::utf16::valid_utf16;
use crate::encoding::utf32::encode_utf32;
use crate::encoding::{Encoding, Unknown16, Unknown32, Utf16, Utf16ish, Utf32, Utf32ish};
use crate::errors::InteriorNulError;
use crate::estring::EString0;
use crate::outside::cast_char_units;
use crate::pointers::{CStrNonNull, CStrPtr};
use crate::try_into_as_traits::TryIntoAsCStr;
use crate::unit::{has_nul, is_terminated, lemma_nul_index, lemma_nul_is_zero, until_nul};
use vstd::prelude::*;
use vstd::slice::slice_to_vec;
use widestring::{U16CString, U16String, U32CString, U32String, Utf16String, Utf32String};

verus! {

/// `widestring::U16String`: 16-bit units of no known encoding and any content.
#[verifier::external_type_specification]
#[verifier::external_body]
pub struct ExU16String(widestring::U16String);

/// `widestring::U32String`: 32-bit units of no known encoding and any content.
#[verifier::external_type_specification]
#[verifier::external_body]
pub struct ExU32String(widestring::U32String);

/// `widestring::U16CString`: 16-bit units that end in a terminator and hold
/// no other.
#[verifier::external_type_specification]
#[verifier::external_body]
pub struct ExU16CString(widestring::U16CString);

/// `widestring::U32CString`: 32-bit units that end in a terminator and hold
/// no other.
#[verifier::external_type_specification]
#[verifier::external_body]
pub struct ExU32CString(widestring::U32CString);

/// `widestring::Utf16String`: 16-bit units that are valid UTF-16.
#[verifier::external_type_specification]
#[verifier::external_body]
pub struct ExUtf16String(widestring::Utf16String);

/// `widestring::Utf32String`: 32-bit units that are valid UTF-32.
#[verifier::external_type_specification]
#[verifier::external_body]
pub struct ExUtf32String(widestring::Utf32String);

/// The units that a `U16String` holds.
pub uninterp spec fn u16string_units(s: U16String) -> Seq<u16>;

/// The units that a `U32String` holds.
pub uninterp spec fn u32string_units(s: U32String) -> Seq<u32>;

/// The units that a `U16CString` holds, terminator included.
pub uninterp spec fn u16cstring_units(s: U16CString) -> Seq<u16>;

/// The units that a `U32CString` holds, terminator included.
pub uninterp spec fn u32cstring_units(s: U32CString) -> Seq<u32>;

/// The units that a `Utf16String` holds.
pub uninterp spec fn utf16string_units(s: Utf16String) -> Seq<u16>;

/// The scalar values that a `Utf32String` holds.
pub uninterp spec fn utf32string_chars(s: Utf32String) -> Seq<char>;

/// `U16String::from_vec` takes the units as they are, without a look at them.
#[verifier::external_body]
fn u16string_from_vec(units: Vec<u16>) -> (r: U16String)
    ensures
        u16string_units(r) == units@,
{
    U16String::from_vec(units)
}

/// `U32String::from_vec` takes the units as they are, without a look at them.
#[verifier::external_body]
fn u32string_from_vec(units: Vec<u32>) -> (r: U32String)
    ensures
        u32string_units(r) == units@,
{
    U32String::from_vec(units)
}

/// `U16Str::as_slice`, reached through the owned string, gives its units.
#[verifier::external_body]
fn u16string_as_slice(s: &U16String) -> (r: &[u16])
    ensures
        r@ == u16string_units(*s),
{
    s.as_slice()
}

/// `U32Str::as_slice`, reached through the owned string, gives its units.
#[verifier::external_body]
fn u32string_as_slice(s: &U32String) -> (r: &[u32])
    ensures
        r@ == u32string_units(*s),
{
    s.as_slice()
}

/// `U16CString::from_vec` accepts units that hold no terminator, and appends
/// one.
#[verifier::external_body]
fn u16cstring_from_vec(units: Vec<u16>) -> (r: Option<U16CString>)
    requires
        !has_nul(units@),
    ensures
        r is Some,
        u16cstring_units(r->0) == units@.push(0u16),
{
    U16CString::from_vec(units).ok()
}

/// `U32CString::from_vec` accepts units that hold no terminator, and appends
/// one.
#[verifier::external_body]
fn u32cstring_from_vec(units: Vec<u32>) -> (r: Option<U32CString>)
    requires
        !has_nul(units@),
    ensures
        r is Some,
        u32cstring_units(r->0) == units@.push(0u32),
{
    U32CString::from_vec(units).ok()
}

/// `U16CStr::as_slice_with_nul`, reached through the owned string, gives its
/// units with the terminator, which the type keeps as the last unit and the
/// only one.
#[verifier::external_body]
fn u16cstring_as_slice_with_nul(s: &U16CString) -> (r: &[u16])
    ensures
        r@ == u16cstring_units(*s),
        is_terminated(r@),
{
    s.as_slice_with_nul()
}

/// `U32CStr::as_slice_with_nul`, reached through the owned string, gives its
/// units with the terminator, which the type keeps as the last unit and the
/// only one.
#[verifier::external_body]
fn u32cstring_as_slice_with_nul(s: &U32CString) -> (r: &[u32])
    ensures
        r@ == u32cstring_units(*s),
        is_terminated(r@),
{
    s.as_slice_with_nul()
}

/// `Utf16String::as_slice` gives the units of the string, which the type
/// keeps valid UTF-16.
#[verifier::external_body]
fn utf16string_as_slice(s: &Utf16String) -> (r: &[u16])
    ensures
        r@ == utf16string_units(*s),
        valid_utf16(r@),
{
    s.as_slice()
}

/// `Utf32Str::as_char_slice`, reached through the owned string, gives its
/// scalar values.
#[verifier::external_body]
fn utf32string_as_char_slice(s: &Utf32String) -> (r: &[char])
    ensures
        r@ == utf32string_chars(*s),
{
    s.as_char_slice()
}

impl<'s, E: Encoding<Unit = u16>> CStrNonNull<'s, E> {
    /// A copy of the string as a `U16CString`.
    ///
    /// `O(n)` to find the terminator and to copy.
    pub fn to_u16cstr(&self) -> (r: U16CString)
        ensures
            u16cstring_units(r) == self@.push(0u16),
    {
        proof {
            lemma_nul_is_zero();
        }
        u16cstring_from_vec(slice_to_vec(self.to_units())).unwrap()
    }

    /// A copy of the string as a `U16String`.
    ///
    /// `O(n)` to find the terminator and to copy.
    pub fn to_u16str(&self) -> (r: U16String)
        ensures
            u16string_units(r) == self@,
    {
        u16string_from_vec(slice_to_vec(self.to_units()))
    }
}

impl<'s, E: Encoding<Unit = u32>> CStrNonNull<'s, E> {
    /// A copy of the string as a `U32CString`.
    ///
    /// `O(n)` to find the terminator and to copy.
    pub fn to_u32cstr(&self) -> (r: U32CString)
        ensures
            u32cstring_units(r) == self@.push(0u32),
    {
        proof {
            lemma_nul_is_zero();
        }
        u32cstring_from_vec(slice_to_vec(self.to_units())).unwrap()
    }

    /// A copy of the string as a `U32String`.
    ///
    /// `O(n)` to find the terminator and to copy.
    pub fn to_u32str(&self) -> (r: U32String)
        ensures
            u32string_units(r) == self@,
    {
        u32string_from_vec(slice_to_vec(self.to_units()))
    }
}

impl<'s, E: Encoding<Unit = u16>> CStrPtr<'s, E> {
    /// A copy of the string as a `U16CString`: the empty one for null.
    ///
    /// `O(n)` to find the terminator and to copy.
    pub fn to_u16cstr(&self) -> (r: U16CString)
        ensures
            u16cstring_units(r) == self@.push(0u16),
    {
        proof {
            lemma_nul_is_zero();
        }
        u16cstring_from_vec(slice_to_vec(self.to_units())).unwrap()
    }

    /// A copy of the string as a `U16String`: the empty one for null.
    ///
    /// `O(n)` to find the terminator and to copy.
    pub fn to_u16str(&self) -> (r: U16String)
        ensures
            u16string_units(r) == self@,
    {
        u16string_from_vec(slice_to_vec(self.to_units()))
    }
}

impl<'s, E: Encoding<Unit = u32>> CStrPtr<'s, E> {
    /// A copy of the string as a `U32CString`: the empty one for null.
    ///
    /// `O(n)` to find the terminator and to copy.
    pub fn to_u32cstr(&self) -> (r: U32CString)
        ensures
            u32cstring_units(r) == self@.push(0u32),
    {
        proof {
            lemma_nul_is_zero();
        }
        u32cstring_from_vec(slice_to_vec(self.to_units())).unwrap()
    }

    /// A copy of the string as a `U32String`: the empty one for null.
    ///
    /// `O(n)` to find the terminator and to copy.
    pub fn to_u32str(&self) -> (r: U32String)
        ensures
            u32string_units(r) == self@,
    {
        u32string_from_vec(slice_to_vec(self.to_units()))
    }
}

/// A `U16CString` as a borrowed C string of a 16-bit encoding that makes no
/// claim.
fn u16cstring_as_cstr<'a, E: Encoding<Unit = u16>>(s: &'a U16CString) -> (r: CStrNonNull<'a, E>)
    requires
        forall|units: Seq<u16>| E::valid(units),
    ensures
        r@ == until_nul(u16cstring_units(*s)),
        r@ == u16cstring_units(*s).drop_last(),
{
    let units = u16cstring_as_slice_with_nul(s);
    proof {
        lemma_nul_index(units@);
        assert(until_nul(units@) == units@.drop_last());
    }
    CStrNonNull::from_units_with_nul_unchecked(units)
}

/// A `U32CString` as a borrowed C string of a 32-bit encoding that makes no
/// claim.
fn u32cstring_as_cstr<'a, E: Encoding<Unit = u32>>(s: &'a U32CString) -> (r: CStrNonNull<'a, E>)
    requires
        forall|units: Seq<u32>| E::valid(units),
    ensures
        r@ == until_nul(u32cstring_units(*s)),
        r@ == u32cstring_units(*s).drop_last(),
{
    let units = u32cstring_as_slice_with_nul(s);
    proof {
        lemma_nul_index(units@);
        assert(until_nul(units@) == units@.drop_last());
    }
    CStrNonNull::from_units_with_nul_unchecked(units)
}

impl AsCStr<Unknown16> for U16CString {
    open spec fn cstr(&self) -> Seq<u16> {
        until_nul(u16cstring_units(*self))
    }

    proof fn lemma_cstr(&self) {
        lemma_nul_index(u16cstring_units(*self));
    }

    fn as_cstr(&self) -> (r: CStrNonNull<'_, Unknown16>) {
        u16cstring_as_cstr::<Unknown16>(self)
    }
}

impl AsCStr<Utf16ish> for U16CString {
    open spec fn cstr(&self) -> Seq<u16> {
        until_nul(u16cstring_units(*self))
    }

    proof fn lemma_cstr(&self) {
        lemma_nul_index(u16cstring_units(*self));
    }

    fn as_cstr(&self) -> (r: CStrNonNull<'_, Utf16ish>) {
        u16cstring_as_cstr::<Utf16ish>(self)
    }
}

impl AsCStr<Unknown32> for U32CString {
    open spec fn cstr(&self) -> Seq<u32> {
        until_nul(u32cstring_units(*self))
    }

    proof fn lemma_cstr(&self) {
        lemma_nul_index(u32cstring_units(*self));
    }

    fn as_cstr(&self) -> (r: CStrNonNull<'_, Unknown32>) {
        u32cstring_as_cstr::<Unknown32>(self)
    }
}

impl AsCStr<Utf32ish> for U32CString {
    open spec fn cstr(&self) -> Seq<u32> {
        until_nul(u32cstring_units(*self))
    }

    proof fn lemma_cstr(&self) {
        lemma_nul_index(u32cstring_units(*self));
    }

    fn as_cstr(&self) -> (r: CStrNonNull<'_, Utf32ish>) {
        u32cstring_as_cstr::<Utf32ish>(self)
    }
}

impl AsOptCStr<Unknown16> for U16CString {
    open spec fn opt_cstr(&self) -> Option<Seq<u16>> {
        Some(until_nul(u16cstring_units(*self)))
    }

    proof fn lemma_opt_cstr(&self) {
        lemma_nul_index(u16cstring_units(*self));
    }

    fn as_opt_cstr(&self) -> (r: CStrPtr<'_, Unknown16>) {
        let s = u16cstring_as_cstr::<Unknown16>(self);
        let r = CStrPtr::from(s);
        proof {
            crate::pointers::lemma_from_non_null(Some(s));
        }
        r
    }
}

impl AsOptCStr<Unknown32> for U32CString {
    open spec fn opt_cstr(&self) -> Option<Seq<u32>> {
        Some(until_nul(u32cstring_units(*self)))
    }

    proof fn lemma_opt_cstr(&self) {
        lemma_nul_index(u32cstring_units(*self));
    }

    fn as_opt_cstr(&self) -> (r: CStrPtr<'_, Unknown32>) {
        let s = u32cstring_as_cstr::<Unknown32>(self);
        let r = CStrPtr::from(s);
        proof {
            crate::pointers::lemma_from_non_null(Some(s));
        }
        r
    }
}

impl TryIntoAsCStr<Utf16> for Utf16String {
    type Target = EString0<Utf16>;

    open spec fn units(&self) -> Seq<u16> {
        utf16string_units(*self)
    }

    fn try_into(self) -> (r: Result<EString0<Utf16>, InteriorNulError>) {
        EString0::from_units(utf16string_as_slice(&self))
    }
}

impl TryIntoAsCStr<Utf16ish> for Utf16String {
    type Target = EString0<Utf16ish>;

    open spec fn units(&self) -> Seq<u16> {
        utf16string_units(*self)
    }

    fn try_into(self) -> (r: Result<EString0<Utf16ish>, InteriorNulError>) {
        EString0::from_units(utf16string_as_slice(&self))
    }
}

impl TryIntoAsCStr<Unknown16> for Utf16String {
    type Target = EString0<Unknown16>;

    open spec fn units(&self) -> Seq<u16> {
        utf16string_units(*self)
    }

    fn try_into(self) -> (r: Result<EString0<Unknown16>, InteriorNulError>) {
        EString0::from_units(utf16string_as_slice(&self))
    }
}

impl TryIntoAsCStr<Unknown16> for U16String {
    type Target = EString0<Unknown16>;

    open spec fn units(&self) -> Seq<u16> {
        u16string_units(*self)
    }

    fn try_into(self) -> (r: Result<EString0<Unknown16>, InteriorNulError>) {
        EString0::from_units(u16string_as_slice(&self))
    }
}

impl TryIntoAsCStr<Utf32> for Utf32String {
    type Target = EString0<Utf32>;

    open spec fn units(&self) -> Seq<char> {
        utf32string_chars(*self)
    }

    fn try_into(self) -> (r: Result<EString0<Utf32>, InteriorNulError>) {
        EString0::from_units(utf32string_as_char_slice(&self))
    }
}

impl TryIntoAsCStr<Utf32ish> for Utf32String {
    type Target = EString0<Utf32ish>;

    open spec fn units(&self) -> Seq<u32> {
        encode_utf32(utf32string_chars(*self))
    }

    fn try_into(self) -> (r: Result<EString0<Utf32ish>, InteriorNulError>) {
        let chars = utf32string_as_char_slice(&self);
        let units = cast_char_units(chars);
        assert(units@ == encode_utf32(chars@));
        EString0::from_units(units)
    }
}

impl TryIntoAsCStr<Unknown32> for Utf32String {
    type Target = EString0<Unknown32>;

    open spec fn units(&self) -> Seq<u32> {
        encode_utf32(utf32string_chars(*self))
    }

    fn try_into(self) -> (r: Result<EString0<Unknown32>, InteriorNulError>) {
        let chars = utf32string_as_char_slice(&self);
        let units = cast_char_units(chars);
        assert(units@ == encode_utf32(chars@));
        EString0::from_units(units)
    }
}

impl TryIntoAsCStr<Unknown32> for U32String {
    type Target = EString0<Unknown32>;

    open spec fn units(&self) -> Seq<u32> {
        u32string_units(*self)
    }

    fn try_into(self) -> (r: Result<EString0<Unknown32>, InteriorNulError>) {
        EString0::from_units(u32string_as_slice(&self))
    }
}

} // verus!
