//! What can stand in for a C string where one is asked for.

use crate::encoding::utf32::encode_utf32;
use crate::encoding::{
    Encoding, Unknown16, Unknown32, Unknown8, Utf16, Utf16ish, Utf32, Utf32ish, Utf8, Utf8ish,
};
use crate::estring::EString0;
use crate::outside::cast_char_units;
use crate::pointers::{CStrNonNull, CStrPtr};
use crate::unit::{has_nul, lemma_nul_index, lemma_nul_index_unique, lemma_nul_is_zero, until_nul};
use vstd::prelude::*;

verus! {

/// Treat `self` as a C string of encoding `E`.
pub trait AsCStr<E: Encoding> {
    /// The string that `self` stands for.
    spec fn cstr(&self) -> Seq<E::Unit>;

    /// The string holds no terminator.
    proof fn lemma_cstr(&self)
        ensures
            !has_nul(self.cstr()),
    ;

    /// The string as a borrowed C string: terminated, and valid for `E`.
    fn as_cstr(&self) -> (r: CStrNonNull<'_, E>)
        ensures
            r@ == self.cstr(),
    ;
}

/// Treat `self` as a C string of encoding `E`, or as null.
pub trait AsOptCStr<E: Encoding> {
    /// The string that `self` stands for, where it stands for one.
    spec fn opt_cstr(&self) -> Option<Seq<E::Unit>>;

    /// The string, where there is one, holds no terminator.
    proof fn lemma_opt_cstr(&self)
        ensures
            self.opt_cstr() matches Some(units) ==> !has_nul(units),
    ;

    /// The string as a borrowed C string, or null.
    fn as_opt_cstr(&self) -> (r: CStrPtr<'_, E>)
        ensures
            r.is_null() <==> self.opt_cstr() is None,
            self.opt_cstr() matches Some(units) ==> r@ == units,
    ;
}

impl<'s, E: Encoding> AsCStr<E> for CStrNonNull<'s, E> {
    open spec fn cstr(&self) -> Seq<E::Unit> {
        self@
    }

    proof fn lemma_cstr(&self) {
        self.lemma_no_nul();
    }

    fn as_cstr(&self) -> (r: CStrNonNull<'_, E>) {
        *self
    }
}

impl<'s, E: Encoding> AsOptCStr<E> for CStrNonNull<'s, E> {
    open spec fn opt_cstr(&self) -> Option<Seq<E::Unit>> {
        Some(self@)
    }

    proof fn lemma_opt_cstr(&self) {
        self.lemma_no_nul();
    }

    fn as_opt_cstr(&self) -> (r: CStrPtr<'_, E>) {
        let r = CStrPtr::from(*self);
        proof {
            crate::pointers::lemma_from_non_null(Some(*self));
        }
        r
    }
}

impl<'s, E: Encoding> AsOptCStr<E> for CStrPtr<'s, E> {
    open spec fn opt_cstr(&self) -> Option<Seq<E::Unit>> {
        if self.is_null() {
            None
        } else {
            Some(self@)
        }
    }

    proof fn lemma_opt_cstr(&self) {
        self.lemma_no_nul();
    }

    fn as_opt_cstr(&self) -> (r: CStrPtr<'_, E>) {
        *self
    }
}

impl<E: Encoding> AsCStr<E> for EString0<E> {
    open spec fn cstr(&self) -> Seq<E::Unit> {
        self@
    }

    proof fn lemma_cstr(&self) {
        self.lemma_no_nul();
    }

    fn as_cstr(&self) -> (r: CStrNonNull<'_, E>) {
        self.as_cstr_non_null()
    }
}

impl<E: Encoding> AsOptCStr<E> for EString0<E> {
    open spec fn opt_cstr(&self) -> Option<Seq<E::Unit>> {
        Some(self@)
    }

    proof fn lemma_opt_cstr(&self) {
        self.lemma_no_nul();
    }

    fn as_opt_cstr(&self) -> (r: CStrPtr<'_, E>) {
        let s = self.as_cstr_non_null();
        let r = CStrPtr::from(s);
        proof {
            crate::pointers::lemma_from_non_null(Some(s));
        }
        r
    }
}

impl<E: Encoding, T: AsCStr<E>> AsOptCStr<E> for Option<T> {
    open spec fn opt_cstr(&self) -> Option<Seq<E::Unit>> {
        match self {
            Some(s) => Some(s.cstr()),
            None => None,
        }
    }

    proof fn lemma_opt_cstr(&self) {
        match self {
            Some(s) => {
                s.lemma_cstr();
            },
            None => {},
        }
    }

    fn as_opt_cstr(&self) -> (r: CStrPtr<'_, E>) {
        match self {
            Some(s) => {
                let s = s.as_cstr();
                let r = CStrPtr::from(s);
                proof {
                    crate::pointers::lemma_from_non_null(Some(s));
                }
                r
            },
            None => CStrPtr::null(),
        }
    }
}

impl<E: Encoding> AsOptCStr<E> for () {
    open spec fn opt_cstr(&self) -> Option<Seq<E::Unit>> {
        None
    }

    proof fn lemma_opt_cstr(&self) {
    }

    fn as_opt_cstr(&self) -> (r: CStrPtr<'_, E>) {
        CStrPtr::null()
    }
}

impl<'s> AsCStr<Utf8ish> for CStrNonNull<'s, Utf8> {
    open spec fn cstr(&self) -> Seq<<Utf8ish as Encoding>::Unit> {
        self@
    }

    proof fn lemma_cstr(&self) {
        self.lemma_no_nul();
    }

    fn as_cstr(&self) -> (r: CStrNonNull<'_, Utf8ish>) {
        self.assume_encoding::<Utf8ish>()
    }
}

impl<'s> AsOptCStr<Utf8ish> for CStrNonNull<'s, Utf8> {
    open spec fn opt_cstr(&self) -> Option<Seq<<Utf8ish as Encoding>::Unit>> {
        Some(self@)
    }

    proof fn lemma_opt_cstr(&self) {
        self.lemma_no_nul();
    }

    fn as_opt_cstr(&self) -> (r: CStrPtr<'_, Utf8ish>) {
        let s = self.assume_encoding::<Utf8ish>();
        let r = CStrPtr::from(s);
        proof {
            crate::pointers::lemma_from_non_null(Some(s));
        }
        r
    }
}

impl<'s> AsOptCStr<Utf8ish> for CStrPtr<'s, Utf8> {
    open spec fn opt_cstr(&self) -> Option<Seq<<Utf8ish as Encoding>::Unit>> {
        if self.is_null() {
            None
        } else {
            Some(self@)
        }
    }

    proof fn lemma_opt_cstr(&self) {
        self.lemma_no_nul();
    }

    fn as_opt_cstr(&self) -> (r: CStrPtr<'_, Utf8ish>) {
        self.assume_encoding::<Utf8ish>()
    }
}

impl<'s> AsCStr<Unknown8> for CStrNonNull<'s, Utf8> {
    open spec fn cstr(&self) -> Seq<<Unknown8 as Encoding>::Unit> {
        self@
    }

    proof fn lemma_cstr(&self) {
        self.lemma_no_nul();
    }

    fn as_cstr(&self) -> (r: CStrNonNull<'_, Unknown8>) {
        self.assume_encoding::<Unknown8>()
    }
}

impl<'s> AsOptCStr<Unknown8> for CStrNonNull<'s, Utf8> {
    open spec fn opt_cstr(&self) -> Option<Seq<<Unknown8 as Encoding>::Unit>> {
        Some(self@)
    }

    proof fn lemma_opt_cstr(&self) {
        self.lemma_no_nul();
    }

    fn as_opt_cstr(&self) -> (r: CStrPtr<'_, Unknown8>) {
        let s = self.assume_encoding::<Unknown8>();
        let r = CStrPtr::from(s);
        proof {
            crate::pointers::lemma_from_non_null(Some(s));
        }
        r
    }
}

impl<'s> AsOptCStr<Unknown8> for CStrPtr<'s, Utf8> {
    open spec fn opt_cstr(&self) -> Option<Seq<<Unknown8 as Encoding>::Unit>> {
        if self.is_null() {
            None
        } else {
            Some(self@)
        }
    }

    proof fn lemma_opt_cstr(&self) {
        self.lemma_no_nul();
    }

    fn as_opt_cstr(&self) -> (r: CStrPtr<'_, Unknown8>) {
        self.assume_encoding::<Unknown8>()
    }
}

impl<'s> AsCStr<Unknown8> for CStrNonNull<'s, Utf8ish> {
    open spec fn cstr(&self) -> Seq<<Unknown8 as Encoding>::Unit> {
        self@
    }

    proof fn lemma_cstr(&self) {
        self.lemma_no_nul();
    }

    fn as_cstr(&self) -> (r: CStrNonNull<'_, Unknown8>) {
        self.assume_encoding::<Unknown8>()
    }
}

impl<'s> AsOptCStr<Unknown8> for CStrNonNull<'s, Utf8ish> {
    open spec fn opt_cstr(&self) -> Option<Seq<<Unknown8 as Encoding>::Unit>> {
        Some(self@)
    }

    proof fn lemma_opt_cstr(&self) {
        self.lemma_no_nul();
    }

    fn as_opt_cstr(&self) -> (r: CStrPtr<'_, Unknown8>) {
        let s = self.assume_encoding::<Unknown8>();
        let r = CStrPtr::from(s);
        proof {
            crate::pointers::lemma_from_non_null(Some(s));
        }
        r
    }
}

impl<'s> AsOptCStr<Unknown8> for CStrPtr<'s, Utf8ish> {
    open spec fn opt_cstr(&self) -> Option<Seq<<Unknown8 as Encoding>::Unit>> {
        if self.is_null() {
            None
        } else {
            Some(self@)
        }
    }

    proof fn lemma_opt_cstr(&self) {
        self.lemma_no_nul();
    }

    fn as_opt_cstr(&self) -> (r: CStrPtr<'_, Unknown8>) {
        self.assume_encoding::<Unknown8>()
    }
}

impl<'s> AsCStr<Utf16ish> for CStrNonNull<'s, Utf16> {
    open spec fn cstr(&self) -> Seq<<Utf16ish as Encoding>::Unit> {
        self@
    }

    proof fn lemma_cstr(&self) {
        self.lemma_no_nul();
    }

    fn as_cstr(&self) -> (r: CStrNonNull<'_, Utf16ish>) {
        self.assume_encoding::<Utf16ish>()
    }
}

impl<'s> AsOptCStr<Utf16ish> for CStrNonNull<'s, Utf16> {
    open spec fn opt_cstr(&self) -> Option<Seq<<Utf16ish as Encoding>::Unit>> {
        Some(self@)
    }

    proof fn lemma_opt_cstr(&self) {
        self.lemma_no_nul();
    }

    fn as_opt_cstr(&self) -> (r: CStrPtr<'_, Utf16ish>) {
        let s = self.assume_encoding::<Utf16ish>();
        let r = CStrPtr::from(s);
        proof {
            crate::pointers::lemma_from_non_null(Some(s));
        }
        r
    }
}

impl<'s> AsOptCStr<Utf16ish> for CStrPtr<'s, Utf16> {
    open spec fn opt_cstr(&self) -> Option<Seq<<Utf16ish as Encoding>::Unit>> {
        if self.is_null() {
            None
        } else {
            Some(self@)
        }
    }

    proof fn lemma_opt_cstr(&self) {
        self.lemma_no_nul();
    }

    fn as_opt_cstr(&self) -> (r: CStrPtr<'_, Utf16ish>) {
        self.assume_encoding::<Utf16ish>()
    }
}

impl<'s> AsCStr<Unknown16> for CStrNonNull<'s, Utf16> {
    open spec fn cstr(&self) -> Seq<<Unknown16 as Encoding>::Unit> {
        self@
    }

    proof fn lemma_cstr(&self) {
        self.lemma_no_nul();
    }

    fn as_cstr(&self) -> (r: CStrNonNull<'_, Unknown16>) {
        self.assume_encoding::<Unknown16>()
    }
}

impl<'s> AsOptCStr<Unknown16> for CStrNonNull<'s, Utf16> {
    open spec fn opt_cstr(&self) -> Option<Seq<<Unknown16 as Encoding>::Unit>> {
        Some(self@)
    }

    proof fn lemma_opt_cstr(&self) {
        self.lemma_no_nul();
    }

    fn as_opt_cstr(&self) -> (r: CStrPtr<'_, Unknown16>) {
        let s = self.assume_encoding::<Unknown16>();
        let r = CStrPtr::from(s);
        proof {
            crate::pointers::lemma_from_non_null(Some(s));
        }
        r
    }
}

impl<'s> AsOptCStr<Unknown16> for CStrPtr<'s, Utf16> {
    open spec fn opt_cstr(&self) -> Option<Seq<<Unknown16 as Encoding>::Unit>> {
        if self.is_null() {
            None
        } else {
            Some(self@)
        }
    }

    proof fn lemma_opt_cstr(&self) {
        self.lemma_no_nul();
    }

    fn as_opt_cstr(&self) -> (r: CStrPtr<'_, Unknown16>) {
        self.assume_encoding::<Unknown16>()
    }
}

impl<'s> AsCStr<Unknown16> for CStrNonNull<'s, Utf16ish> {
    open spec fn cstr(&self) -> Seq<<Unknown16 as Encoding>::Unit> {
        self@
    }

    proof fn lemma_cstr(&self) {
        self.lemma_no_nul();
    }

    fn as_cstr(&self) -> (r: CStrNonNull<'_, Unknown16>) {
        self.assume_encoding::<Unknown16>()
    }
}

impl<'s> AsOptCStr<Unknown16> for CStrNonNull<'s, Utf16ish> {
    open spec fn opt_cstr(&self) -> Option<Seq<<Unknown16 as Encoding>::Unit>> {
        Some(self@)
    }

    proof fn lemma_opt_cstr(&self) {
        self.lemma_no_nul();
    }

    fn as_opt_cstr(&self) -> (r: CStrPtr<'_, Unknown16>) {
        let s = self.assume_encoding::<Unknown16>();
        let r = CStrPtr::from(s);
        proof {
            crate::pointers::lemma_from_non_null(Some(s));
        }
        r
    }
}

impl<'s> AsOptCStr<Unknown16> for CStrPtr<'s, Utf16ish> {
    open spec fn opt_cstr(&self) -> Option<Seq<<Unknown16 as Encoding>::Unit>> {
        if self.is_null() {
            None
        } else {
            Some(self@)
        }
    }

    proof fn lemma_opt_cstr(&self) {
        self.lemma_no_nul();
    }

    fn as_opt_cstr(&self) -> (r: CStrPtr<'_, Unknown16>) {
        self.assume_encoding::<Unknown16>()
    }
}

impl<'s> AsCStr<Unknown32> for CStrNonNull<'s, Utf32ish> {
    open spec fn cstr(&self) -> Seq<u32> {
        self@
    }

    proof fn lemma_cstr(&self) {
        self.lemma_no_nul();
    }

    fn as_cstr(&self) -> (r: CStrNonNull<'_, Unknown32>) {
        self.assume_encoding::<Unknown32>()
    }
}

impl<'s> AsOptCStr<Unknown32> for CStrNonNull<'s, Utf32ish> {
    open spec fn opt_cstr(&self) -> Option<Seq<u32>> {
        Some(self@)
    }

    proof fn lemma_opt_cstr(&self) {
        self.lemma_no_nul();
    }

    fn as_opt_cstr(&self) -> (r: CStrPtr<'_, Unknown32>) {
        let s = self.assume_encoding::<Unknown32>();
        let r = CStrPtr::from(s);
        proof {
            crate::pointers::lemma_from_non_null(Some(s));
        }
        r
    }
}

impl<'s> AsOptCStr<Unknown32> for CStrPtr<'s, Utf32ish> {
    open spec fn opt_cstr(&self) -> Option<Seq<u32>> {
        if self.is_null() {
            None
        } else {
            Some(self@)
        }
    }

    proof fn lemma_opt_cstr(&self) {
        self.lemma_no_nul();
    }

    fn as_opt_cstr(&self) -> (r: CStrPtr<'_, Unknown32>) {
        self.assume_encoding::<Unknown32>()
    }
}

impl<'s> AsCStr<Utf32ish> for CStrNonNull<'s, Utf32> {
    open spec fn cstr(&self) -> Seq<u32> {
        encode_utf32(self@)
    }

    proof fn lemma_cstr(&self) {
        self.lemma_no_nul();
        lemma_encode_utf32_no_nul(self@);
    }

    fn as_cstr(&self) -> (r: CStrNonNull<'_, Utf32ish>) {
        let chars = self.to_units_with_nul();
        let units = cast_char_units(chars);
        proof {
            lemma_nul_index(chars@);
            lemma_nul_index_unique(chars@, self@.len() as int);
            lemma_char_units(chars@, units@);
            assert(until_nul(chars@) == self@);
        }
        CStrNonNull::from_units_with_nul_unchecked(units)
    }
}

impl<'s> AsOptCStr<Utf32ish> for CStrNonNull<'s, Utf32> {
    open spec fn opt_cstr(&self) -> Option<Seq<u32>> {
        Some(encode_utf32(self@))
    }

    proof fn lemma_opt_cstr(&self) {
        self.lemma_no_nul();
        lemma_encode_utf32_no_nul(self@);
    }

    fn as_opt_cstr(&self) -> (r: CStrPtr<'_, Utf32ish>) {
        let s = <Self as AsCStr<Utf32ish>>::as_cstr(self);
        let r = CStrPtr::from(s);
        proof {
            crate::pointers::lemma_from_non_null(Some(s));
        }
        r
    }
}

impl<'s> AsOptCStr<Utf32ish> for CStrPtr<'s, Utf32> {
    open spec fn opt_cstr(&self) -> Option<Seq<u32>> {
        if self.is_null() {
            None
        } else {
            Some(encode_utf32(self@))
        }
    }

    proof fn lemma_opt_cstr(&self) {
        self.lemma_no_nul();
        lemma_encode_utf32_no_nul(self@);
    }

    fn as_opt_cstr(&self) -> (r: CStrPtr<'_, Utf32ish>) {
        match self.as_non_null() {
            Some(s) => {
                let chars = s.to_units_with_nul();
                let units = cast_char_units(chars);
                proof {
                    lemma_nul_index(chars@);
                    lemma_nul_index_unique(chars@, s@.len() as int);
                    lemma_char_units(chars@, units@);
                    assert(until_nul(chars@) == s@);
                }
                CStrPtr::from_units_with_nul_unchecked(units)
            },
            None => CStrPtr::null(),
        }
    }
}

impl<'s> AsCStr<Unknown32> for CStrNonNull<'s, Utf32> {
    open spec fn cstr(&self) -> Seq<u32> {
        encode_utf32(self@)
    }

    proof fn lemma_cstr(&self) {
        self.lemma_no_nul();
        lemma_encode_utf32_no_nul(self@);
    }

    fn as_cstr(&self) -> (r: CStrNonNull<'_, Unknown32>) {
        let chars = self.to_units_with_nul();
        let units = cast_char_units(chars);
        proof {
            lemma_nul_index(chars@);
            lemma_nul_index_unique(chars@, self@.len() as int);
            lemma_char_units(chars@, units@);
            assert(until_nul(chars@) == self@);
        }
        CStrNonNull::from_units_with_nul_unchecked(units)
    }
}

impl<'s> AsOptCStr<Unknown32> for CStrNonNull<'s, Utf32> {
    open spec fn opt_cstr(&self) -> Option<Seq<u32>> {
        Some(encode_utf32(self@))
    }

    proof fn lemma_opt_cstr(&self) {
        self.lemma_no_nul();
        lemma_encode_utf32_no_nul(self@);
    }

    fn as_opt_cstr(&self) -> (r: CStrPtr<'_, Unknown32>) {
        let s = <Self as AsCStr<Unknown32>>::as_cstr(self);
        let r = CStrPtr::from(s);
        proof {
            crate::pointers::lemma_from_non_null(Some(s));
        }
        r
    }
}

impl<'s> AsOptCStr<Unknown32> for CStrPtr<'s, Utf32> {
    open spec fn opt_cstr(&self) -> Option<Seq<u32>> {
        if self.is_null() {
            None
        } else {
            Some(encode_utf32(self@))
        }
    }

    proof fn lemma_opt_cstr(&self) {
        self.lemma_no_nul();
        lemma_encode_utf32_no_nul(self@);
    }

    fn as_opt_cstr(&self) -> (r: CStrPtr<'_, Unknown32>) {
        match self.as_non_null() {
            Some(s) => {
                let chars = s.to_units_with_nul();
                let units = cast_char_units(chars);
                proof {
                    lemma_nul_index(chars@);
                    lemma_nul_index_unique(chars@, s@.len() as int);
                    lemma_char_units(chars@, units@);
                    assert(until_nul(chars@) == s@);
                }
                CStrPtr::from_units_with_nul_unchecked(units)
            },
            None => CStrPtr::null(),
        }
    }
}

/// Narrowing the confidence of a view changes its tag and nothing else: from
/// strict to lenient to opaque, the units of the string are the units they
/// were. Where the step from `Utf32` changes the type of the unit from `char`
/// to `u32`, each unit is the number of the `char` it was.
pub proof fn lemma_narrowing_keeps_units<'s>(
    narrow: CStrNonNull<'s, Utf8>,
    wide: CStrNonNull<'s, Utf16>,
    scalars: CStrNonNull<'s, Utf32>,
    lenient8: CStrNonNull<'s, Utf8ish>,
    lenient16: CStrNonNull<'s, Utf16ish>,
    lenient32: CStrNonNull<'s, Utf32ish>,
)
    ensures
        <CStrNonNull<'s, Utf8> as AsCStr<Utf8ish>>::cstr(&narrow) == narrow@,
        <CStrNonNull<'s, Utf8> as AsCStr<Unknown8>>::cstr(&narrow) == narrow@,
        <CStrNonNull<'s, Utf8ish> as AsCStr<Unknown8>>::cstr(&lenient8) == lenient8@,
        <CStrNonNull<'s, Utf16> as AsCStr<Utf16ish>>::cstr(&wide) == wide@,
        <CStrNonNull<'s, Utf16> as AsCStr<Unknown16>>::cstr(&wide) == wide@,
        <CStrNonNull<'s, Utf16ish> as AsCStr<Unknown16>>::cstr(&lenient16) == lenient16@,
        <CStrNonNull<'s, Utf32ish> as AsCStr<Unknown32>>::cstr(&lenient32) == lenient32@,
        <CStrNonNull<'s, Utf32> as AsCStr<Utf32ish>>::cstr(&scalars).len() == scalars@.len(),
        forall|i: int|
            0 <= i < scalars@.len() ==> <CStrNonNull<'s, Utf32> as AsCStr<Utf32ish>>::cstr(
                &scalars,
            )[i] == scalars@[i] as u32,
        <CStrNonNull<'s, Utf32> as AsCStr<Unknown32>>::cstr(&scalars) == <CStrNonNull<
            's,
            Utf32,
        > as AsCStr<Utf32ish>>::cstr(&scalars),
{
}

/// Scalar values without a terminator among them have numbers without a zero
/// among them.
pub proof fn lemma_encode_utf32_no_nul(chars: Seq<char>)
    requires
        !has_nul(chars),
    ensures
        !has_nul(encode_utf32(chars)),
{
    lemma_nul_is_zero();
    let units = encode_utf32(chars);
    if has_nul(units) {
        let i = choose|i: int| 0 <= i < units.len() && units[i] == 0u32;
        vstd::utf8::char_u32_cast(chars[i], units[i]);
        vstd::utf8::char_u32_cast('\0', 0u32);
        assert(chars[i] == '\0');
    }
}

/// The units of a string of `char`s, terminator included, as the numbers they
/// are, make a string of as many units: the numbers of the `char`s.
pub(crate) proof fn lemma_char_units(chars: Seq<char>, units: Seq<u32>)
    requires
        units.len() == chars.len(),
        forall|i: int| 0 <= i < chars.len() ==> units[i] == chars[i] as u32,
        has_nul(chars),
    ensures
        has_nul(units),
        until_nul(units) == encode_utf32(until_nul(chars)),
{
    lemma_nul_is_zero();
    lemma_nul_index(chars);
    let n = crate::unit::nul_index(chars);
    vstd::utf8::char_u32_cast('\0', 0u32);
    assert forall|i: int| 0 <= i < n implies units[i] != 0u32 by {
        assert(chars[i] != '\0');
        vstd::utf8::char_u32_cast(chars[i], units[i]);
    }
    assert(units[n] == 0u32);
    lemma_nul_index_unique(units, n);
    assert(until_nul(units) == encode_utf32(until_nul(chars)));
}

} // verus!
