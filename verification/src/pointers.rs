//! Borrowed C strings: a possibly null view and a never null one.
//!
//! A view holds the units that its string lives in, terminator included, and
//! the tag of its encoding. Its string is what stands before the first
//! terminator, and whoever holds a view may rely on that string being valid in
//! the view's encoding.

use crate::encoding::{
    lossy_text, Encoding, FromUnits, ToChars, Unknown16, Unknown32, Unknown8, Utf16, Utf16ish,
    Utf32, Utf32ish, Utf8, Utf8ish,
};
use crate::errors::FromUnitsWithNulError;
use crate::outside::{cast_scalar_units, str_from_utf8};
use crate::unit::{
    find_nul, has_nul, is_terminated, lemma_nul_index, lemma_nul_is_zero, strlen, until_nul, Unit,
};
use vstd::prelude::*;
use crate::encoding::utf16::valid_utf16;
use vstd::utf8::{decode_utf8, is_scalar, valid_utf8};

verus! {

/// A borrowed C string that may be null. Null is treated as the empty string.
///
/// To treat null as `None`, use `Option<CStrNonNull>` instead.
pub struct CStrPtr<'s, E: Encoding> {
    units: Option<&'s [E::Unit]>,
}

/// A borrowed C string that is never null.
///
/// To treat null as `""`, use `CStrPtr` instead.
pub struct CStrNonNull<'s, E: Encoding> {
    units: &'s [E::Unit],
}

impl<'s, E: Encoding> Clone for CStrPtr<'s, E> {
    fn clone(&self) -> (r: Self)
        ensures
            r == *self,
    {
        *self
    }
}

impl<'s, E: Encoding> Copy for CStrPtr<'s, E> {

}

impl<'s, E: Encoding> Clone for CStrNonNull<'s, E> {
    fn clone(&self) -> (r: Self)
        ensures
            r == *self,
    {
        *self
    }
}

impl<'s, E: Encoding> Copy for CStrNonNull<'s, E> {

}

/// What a view requires of the units it points into: a terminator, and in
/// front of the first one a string that is valid for `E`.
pub open spec fn holds_cstr<E: Encoding>(units: Seq<E::Unit>) -> bool {
    has_nul(units) && E::valid(until_nul(units))
}

impl<'s, E: Encoding> View for CStrNonNull<'s, E> {
    type V = Seq<E::Unit>;

    /// The string: the units in front of the terminator.
    closed spec fn view(&self) -> Seq<E::Unit> {
        until_nul(self.units@)
    }
}

impl<'s, E: Encoding> View for CStrPtr<'s, E> {
    type V = Seq<E::Unit>;

    /// The string: the units in front of the terminator, and nothing for null.
    closed spec fn view(&self) -> Seq<E::Unit> {
        match self.units {
            Some(units) => until_nul(units@),
            None => Seq::<E::Unit>::empty(),
        }
    }
}

impl<'s, E: Encoding> CStrNonNull<'s, E> {
    #[verifier::type_invariant]
    spec fn well_formed(self) -> bool {
        holds_cstr::<E>(self.units@)
    }

    /// The string of a view holds no terminator.
    pub proof fn lemma_no_nul(&self)
        ensures
            !has_nul(self@),
    {
        lemma_nul_index(self.units@);
    }

    /// Reads `units`, a string with its terminator, as a view of encoding `E`.
    ///
    /// Fails where `units` does not end in a terminator, holds a terminator
    /// earlier, or is not valid for `E` all the way.
    pub fn from_units_with_nul<U: Unit>(units: &'s [U]) -> (r: Result<
        Self,
        FromUnitsWithNulError,
    >) where E: FromUnits<U>
        ensures
            r is Ok <==> E::valid_len(units@) == units@.len() && is_terminated(
                E::converted(units@),
            ),
            r matches Ok(s) ==> s@ == E::converted(units@).drop_last(),
    {
        let all = match E::from_units(units) {
            Ok(all) => all,
            Err(_) => {
                return Err(FromUnitsWithNulError(()));
            },
        };
        proof {
            E::lemma_converted(units@);
            lemma_nul_index(all@);
        }
        let len = all.len();
        match find_nul(all) {
            Some(n) => {
                if n == len - 1 {
                    proof {
                        assert(until_nul(all@).push(E::Unit::NUL) == all@);
                        E::lemma_valid(until_nul(all@));
                        assert(until_nul(all@) == all@.drop_last());
                    }
                    Ok(CStrNonNull { units: all })
                } else {
                    Err(FromUnitsWithNulError(()))
                }
            },
            None => Err(FromUnitsWithNulError(())),
        }
    }

    /// Takes `units` as a view of encoding `E` without a look at them. The
    /// string ends at the first terminator in `units`.
    pub fn from_units_with_nul_unchecked(units: &'s [E::Unit]) -> (r: Self)
        requires
            has_nul(units@),
            E::valid(until_nul(units@)),
        ensures
            r@ == until_nul(units@),
    {
        CStrNonNull { units }
    }

    /// Takes the units that a string literal was turned into when the program
    /// was built: a string with its terminator, valid for `E`.
    pub fn zzz_unsound_do_not_call_this_directly_from_macro_units_with_nul(
        units: &'s [E::Unit],
    ) -> (r: Self)
        requires
            is_terminated(units@),
            E::valid(units@.drop_last()),
        ensures
            r@ == units@.drop_last(),
    {
        proof {
            lemma_nul_index(units@);
            assert(until_nul(units@) == units@.drop_last());
        }
        CStrNonNull { units }
    }

    /// Checks if `self` is empty: the first unit is the terminator.
    pub fn is_empty(&self) -> (r: bool)
        ensures
            r == (self@.len() == 0),
    {
        proof {
            use_type_invariant(self);
            lemma_nul_index(self.units@);
        }
        self.units[0].is_nul()
    }

    /// The units of the string, without the terminator.
    ///
    /// `O(n)` to find the terminator.
    pub fn to_units(&self) -> (r: &'s [E::Unit])
        ensures
            r@ == self@,
            !has_nul(r@),
            E::valid(r@),
    {
        proof {
            use_type_invariant(self);
            lemma_nul_index(self.units@);
        }
        let n = strlen(self.units);
        let (head, _) = self.units.split_at(n);
        head
    }

    /// The units of the string, with the terminator.
    ///
    /// `O(n)` to find the terminator.
    pub fn to_units_with_nul(&self) -> (r: &'s [E::Unit])
        ensures
            r@ == self@.push(E::Unit::NUL),
            is_terminated(r@),
    {
        proof {
            use_type_invariant(self);
            lemma_nul_index(self.units@);
        }
        let n = strlen(self.units);
        let (head, _) = self.units.split_at(n + 1);
        proof {
            assert(head@ == until_nul(self.units@).push(E::Unit::NUL));
            crate::unit::lemma_nul_index_unique(head@, n as int);
        }
        head
    }

    /// The text of the string, with U+FFFD wherever it does not decode.
    ///
    /// `O(n)` to find the terminator and to decode.
    pub fn to_string_lossy(&self) -> (text: String) where E: ToChars
        ensures
            text@ == lossy_text::<E>(self@),
    {
        E::to_string_lossy(self.to_units())
    }

    /// Shows the string as a quoted, escaped string.
    pub fn debug(&self) -> (text: String)
        ensures
            text@ == E::debug_text(self@),
    {
        E::debug_fmt(self.to_units())
    }

    /// The same string under another tag of the same width, for which the
    /// string is known to be valid.
    pub fn assume_encoding<F: Encoding<Unit = E::Unit>>(self) -> (r: CStrNonNull<'s, F>)
        requires
            F::valid(self@),
        ensures
            r@ == self@,
    {
        proof {
            use_type_invariant(self);
        }
        CStrNonNull { units: self.units }
    }
}

impl<'s, E: Encoding> CStrPtr<'s, E> {
    #[verifier::type_invariant]
    spec fn well_formed(self) -> bool {
        self.units matches Some(units) ==> holds_cstr::<E>(units@)
    }

    /// Whether `self` is null.
    pub closed spec fn spec_is_null(&self) -> bool {
        self.units is None
    }

    /// The string of a view holds no terminator.
    pub proof fn lemma_no_nul(&self)
        ensures
            !has_nul(self@),
    {
        match self.units {
            Some(units) => {
                lemma_nul_index(units@);
            },
            None => {},
        }
    }

    /// The null view.
    pub fn null() -> (r: Self)
        ensures
            r.is_null(),
            r@.len() == 0,
    {
        CStrPtr { units: None }
    }

    /// Reads `units`, a string with its terminator, as a view of encoding `E`.
    ///
    /// Fails where `units` does not end in a terminator, holds a terminator
    /// earlier, or is not valid for `E` all the way.
    pub fn from_units_with_nul<U: Unit>(units: &'s [U]) -> (r: Result<
        Self,
        FromUnitsWithNulError,
    >) where E: FromUnits<U>
        ensures
            r is Ok <==> E::valid_len(units@) == units@.len() && is_terminated(
                E::converted(units@),
            ),
            r matches Ok(s) ==> !s.is_null() && s@ == E::converted(units@).drop_last(),
    {
        match CStrNonNull::<'s, E>::from_units_with_nul(units) {
            Ok(s) => Ok(CStrPtr::from(s)),
            Err(e) => Err(e),
        }
    }

    /// Takes `units` as a view of encoding `E` without a look at them. The
    /// string ends at the first terminator in `units`.
    pub fn from_units_with_nul_unchecked(units: &'s [E::Unit]) -> (r: Self)
        requires
            has_nul(units@),
            E::valid(until_nul(units@)),
        ensures
            !r.is_null(),
            r@ == until_nul(units@),
    {
        CStrPtr { units: Some(units) }
    }

    /// Checks if `self` is null.
    #[verifier::when_used_as_spec(spec_is_null)]
    pub fn is_null(&self) -> (r: bool)
        ensures
            r == self.spec_is_null(),
    {
        self.units.is_none()
    }

    /// Checks if `self` is empty: either null, or the first unit is the
    /// terminator.
    pub fn is_empty(&self) -> (r: bool)
        ensures
            r == (self@.len() == 0),
            self.is_null() ==> r,
    {
        match self.units {
            None => true,
            Some(units) => {
                proof {
                    use_type_invariant(self);
                    lemma_nul_index(units@);
                }
                units[0].is_nul()
            },
        }
    }

    /// The view as a never null one, where it is not null.
    pub fn as_non_null(&self) -> (r: Option<CStrNonNull<'s, E>>)
        ensures
            r is None <==> self.is_null(),
            r matches Some(s) ==> s@ == self@,
    {
        match self.units {
            None => None,
            Some(units) => {
                proof {
                    use_type_invariant(self);
                }
                Some(CStrNonNull { units })
            },
        }
    }

    /// The units of the string, without the terminator.
    ///
    /// `O(n)` to find the terminator.
    pub fn to_units(&self) -> (r: &'s [E::Unit])
        ensures
            r@ == self@,
            !has_nul(r@),
            E::valid(r@),
    {
        match self.as_non_null() {
            None => {
                let empty: &'s [E::Unit] = &[];
                proof {
                    E::lemma_valid(empty@);
                    assert(empty@ == Seq::<E::Unit>::empty());
                }
                empty
            },
            Some(s) => s.to_units(),
        }
    }

    /// The units of the string, with the terminator.
    ///
    /// `O(n)` to find the terminator.
    pub fn to_units_with_nul(&self) -> (r: &'s [E::Unit])
        ensures
            r@ == self@.push(E::Unit::NUL),
            is_terminated(r@),
    {
        match self.as_non_null() {
            None => {
                let empty = E::Unit::empty();
                proof {
                    assert(empty@ == Seq::<E::Unit>::empty().push(E::Unit::NUL));
                    crate::unit::lemma_nul_index_unique(empty@, 0);
                }
                empty
            },
            Some(s) => s.to_units_with_nul(),
        }
    }

    /// The text of the string, with U+FFFD wherever it does not decode.
    ///
    /// `O(n)` to find the terminator and to decode.
    pub fn to_string_lossy(&self) -> (text: String) where E: ToChars
        ensures
            text@ == lossy_text::<E>(self@),
    {
        E::to_string_lossy(self.to_units())
    }

    /// Shows the string as a quoted, escaped string.
    pub fn debug(&self) -> (text: String)
        ensures
            text@ == E::debug_text(self@),
    {
        E::debug_fmt(self.to_units())
    }

    /// The same string under another tag of the same width, for which the
    /// string is known to be valid.
    pub fn assume_encoding<F: Encoding<Unit = E::Unit>>(self) -> (r: CStrPtr<'s, F>)
        requires
            F::valid(self@),
        ensures
            r.is_null() == self.is_null(),
            r@ == self@,
    {
        proof {
            use_type_invariant(self);
        }
        CStrPtr { units: self.units }
    }
}

impl<'s, E: Encoding> From<CStrNonNull<'s, E>> for CStrPtr<'s, E> {
    fn from(p: CStrNonNull<'s, E>) -> (r: CStrPtr<'s, E>) {
        proof {
            use_type_invariant(p);
        }
        CStrPtr { units: Some(p.units) }
    }
}

impl<'s, E: Encoding> vstd::std_specs::convert::FromSpecImpl<CStrNonNull<'s, E>> for CStrPtr<'s, E> {
    open spec fn obeys_from_spec() -> bool {
        true
    }

    closed spec fn from_spec(p: CStrNonNull<'s, E>) -> CStrPtr<'s, E> {
        CStrPtr { units: Some(p.units) }
    }
}

impl<'s, E: Encoding> From<Option<CStrNonNull<'s, E>>> for CStrPtr<'s, E> {
    fn from(p: Option<CStrNonNull<'s, E>>) -> (r: CStrPtr<'s, E>) {
        match p {
            Some(p) => {
                proof {
                    use_type_invariant(p);
                }
                CStrPtr { units: Some(p.units) }
            },
            None => CStrPtr { units: None },
        }
    }
}

impl<'s, E: Encoding> vstd::std_specs::convert::FromSpecImpl<Option<CStrNonNull<'s, E>>> for CStrPtr<'s, E> {
    open spec fn obeys_from_spec() -> bool {
        true
    }

    closed spec fn from_spec(p: Option<CStrNonNull<'s, E>>) -> CStrPtr<'s, E> {
        match p {
            Some(p) => CStrPtr { units: Some(p.units) },
            None => CStrPtr { units: None },
        }
    }
}

/// A view made from a never null one is not null and holds the same string;
/// one made from no view is null.
pub proof fn lemma_from_non_null<'s, E: Encoding>(p: Option<CStrNonNull<'s, E>>)
    ensures
        p matches Some(s) ==> {
            &&& !(<CStrPtr<'s, E> as vstd::std_specs::convert::FromSpec<
                CStrNonNull<'s, E>,
            >>::from_spec(s)).is_null()
            &&& (<CStrPtr<'s, E> as vstd::std_specs::convert::FromSpec<
                CStrNonNull<'s, E>,
            >>::from_spec(s))@ == s@
            &&& (<CStrPtr<'s, E> as vstd::std_specs::convert::FromSpec<
                Option<CStrNonNull<'s, E>>,
            >>::from_spec(p))@ == s@
            &&& !(<CStrPtr<'s, E> as vstd::std_specs::convert::FromSpec<
                Option<CStrNonNull<'s, E>>,
            >>::from_spec(p)).is_null()
        },
        p is None ==> (<CStrPtr<'s, E> as vstd::std_specs::convert::FromSpec<
            Option<CStrNonNull<'s, E>>,
        >>::from_spec(p)).is_null(),
{
}

impl<'s, E: Encoding> Default for CStrPtr<'s, E> {
    /// The empty string, not null.
    fn default() -> (r: Self)
        ensures
            !r.is_null(),
            r@.len() == 0,
    {
        let empty = E::Unit::empty();
        proof {
            crate::unit::lemma_nul_index_unique(empty@, 0);
            lemma_nul_index(empty@);
            E::lemma_valid(until_nul(empty@));
            assert(until_nul(empty@) == Seq::<E::Unit>::empty());
        }
        CStrPtr { units: Some(empty) }
    }
}

impl<'s, E: Encoding> Default for CStrNonNull<'s, E> {
    /// The empty string.
    fn default() -> (r: Self)
        ensures
            r@.len() == 0,
    {
        let empty = E::Unit::empty();
        proof {
            crate::unit::lemma_nul_index_unique(empty@, 0);
            lemma_nul_index(empty@);
            E::lemma_valid(until_nul(empty@));
            assert(until_nul(empty@) == Seq::<E::Unit>::empty());
        }
        CStrNonNull { units: empty }
    }
}


impl<'s, E: Encoding<Unit = u8>> CStrNonNull<'s, E> {
    /// `from_units_with_nul`, for bytes.
    pub fn from_bytes_with_nul(bytes: &'s [u8]) -> (r: Result<Self, FromUnitsWithNulError>) where
        E: FromUnits<u8>,

        ensures
            r is Ok <==> E::valid_len(bytes@) == bytes@.len() && is_terminated(
                E::converted(bytes@),
            ),
            r matches Ok(s) ==> s@ == E::converted(bytes@).drop_last(),
    {
        match Self::from_units_with_nul(bytes) {
            Ok(s) => Ok(s),
            Err(e) => Err(e),
        }
    }

    /// `from_units_with_nul_unchecked`, for bytes.
    pub fn from_bytes_with_nul_unchecked(bytes: &'s [u8]) -> (r: Self)
        requires
            has_nul(bytes@),
            E::valid(until_nul(bytes@)),
        ensures
            r@ == until_nul(bytes@),
    {
        Self::from_units_with_nul_unchecked(bytes)
    }

    /// `to_units`, for bytes.
    pub fn to_bytes(&self) -> (r: &'s [u8])
        ensures
            r@ == self@,
    {
        self.to_units()
    }

    /// `to_units_with_nul`, for bytes.
    pub fn to_bytes_with_nul(&self) -> (r: &'s [u8])
        ensures
            r@ == self@.push(0u8),
    {
        proof {
            lemma_nul_is_zero();
        }
        self.to_units_with_nul()
    }
}

impl<'s> CStrNonNull<'s, Unknown8> {
    /// Assume `self` is, more or less, UTF-8. This cannot go wrong, though
    /// what comes of it may read as gibberish: `Utf8ish` allows anything.
    pub fn assume_utf8ish(self) -> (r: CStrNonNull<'s, Utf8ish>)
        ensures
            r@ == self@,
    {
        self.assume_encoding::<Utf8ish>()
    }

    /// Assume `self` is valid UTF-8, which the caller knows.
    pub fn assume_utf8(self) -> (r: CStrNonNull<'s, Utf8>)
        requires
            valid_utf8(self@),
        ensures
            r@ == self@,
    {
        self.assume_encoding::<Utf8>()
    }
}

impl<'s> CStrNonNull<'s, Utf8ish> {
    /// Assume `self` is valid UTF-8, which the caller knows.
    pub fn assume_utf8(self) -> (r: CStrNonNull<'s, Utf8>)
        requires
            valid_utf8(self@),
        ensures
            r@ == self@,
    {
        self.assume_encoding::<Utf8>()
    }

    /// The string as a `&str`, where it is valid UTF-8.
    ///
    /// `O(n)` to find the terminator and to validate.
    pub fn to_str(&self) -> (r: Result<&'s str, core::str::Utf8Error>)
        ensures
            r is Ok <==> valid_utf8(self@),
            r matches Ok(text) ==> text@ == decode_utf8(self@),
    {
        str_from_utf8(self.to_units())
    }
}

impl<'s> CStrNonNull<'s, Utf8> {
    /// The string as a `&str`.
    ///
    /// `O(n)` to find the terminator.
    pub fn to_str(&self) -> (r: &'s str)
        ensures
            r@ == decode_utf8(self@),
    {
        match str_from_utf8(self.to_units()) {
            Ok(text) => text,
            Err(_) => "",
        }
    }
}

impl<'s> CStrNonNull<'s, Unknown16> {
    /// Assume `self` is, more or less, UTF-16. This cannot go wrong, though
    /// what comes of it may read as gibberish: `Utf16ish` allows anything.
    pub fn assume_utf16ish(self) -> (r: CStrNonNull<'s, Utf16ish>)
        ensures
            r@ == self@,
    {
        self.assume_encoding::<Utf16ish>()
    }

    /// Assume `self` is valid UTF-16, which the caller knows.
    pub fn assume_utf16(self) -> (r: CStrNonNull<'s, Utf16>)
        requires
            valid_utf16(self@),
        ensures
            r@ == self@,
    {
        self.assume_encoding::<Utf16>()
    }
}

impl<'s> CStrNonNull<'s, Utf16ish> {
    /// Assume `self` is valid UTF-16, which the caller knows.
    pub fn assume_utf16(self) -> (r: CStrNonNull<'s, Utf16>)
        requires
            valid_utf16(self@),
        ensures
            r@ == self@,
    {
        self.assume_encoding::<Utf16>()
    }
}

impl<'s> CStrNonNull<'s, Unknown32> {
    /// Assume `self` is, more or less, UTF-32. This cannot go wrong, though
    /// what comes of it may read as gibberish: `Utf32ish` allows anything.
    pub fn assume_utf32ish(self) -> (r: CStrNonNull<'s, Utf32ish>)
        ensures
            r@ == self@,
    {
        self.assume_encoding::<Utf32ish>()
    }
}

impl<'s, E: Encoding<Unit = u8>> CStrPtr<'s, E> {
    /// `from_units_with_nul`, for bytes.
    pub fn from_bytes_with_nul(bytes: &'s [u8]) -> (r: Result<Self, FromUnitsWithNulError>) where
        E: FromUnits<u8>,

        ensures
            r is Ok <==> E::valid_len(bytes@) == bytes@.len() && is_terminated(
                E::converted(bytes@),
            ),
            r matches Ok(s) ==> s@ == E::converted(bytes@).drop_last(),
    {
        match Self::from_units_with_nul(bytes) {
            Ok(s) => Ok(s),
            Err(e) => Err(e),
        }
    }

    /// `from_units_with_nul_unchecked`, for bytes.
    pub fn from_bytes_with_nul_unchecked(bytes: &'s [u8]) -> (r: Self)
        requires
            has_nul(bytes@),
            E::valid(until_nul(bytes@)),
        ensures
            r@ == until_nul(bytes@),
    {
        Self::from_units_with_nul_unchecked(bytes)
    }

    /// `to_units`, for bytes.
    pub fn to_bytes(&self) -> (r: &'s [u8])
        ensures
            r@ == self@,
    {
        self.to_units()
    }

    /// `to_units_with_nul`, for bytes.
    pub fn to_bytes_with_nul(&self) -> (r: &'s [u8])
        ensures
            r@ == self@.push(0u8),
    {
        proof {
            lemma_nul_is_zero();
        }
        self.to_units_with_nul()
    }
}

impl<'s> CStrPtr<'s, Unknown8> {
    /// Assume `self` is, more or less, UTF-8. This cannot go wrong, though
    /// what comes of it may read as gibberish: `Utf8ish` allows anything.
    pub fn assume_utf8ish(self) -> (r: CStrPtr<'s, Utf8ish>)
        ensures
            r.is_null() == self.is_null(),
            r@ == self@,
    {
        self.assume_encoding::<Utf8ish>()
    }

    /// Assume `self` is valid UTF-8, which the caller knows.
    pub fn assume_utf8(self) -> (r: CStrPtr<'s, Utf8>)
        requires
            valid_utf8(self@),
        ensures
            r.is_null() == self.is_null(),
            r@ == self@,
    {
        self.assume_encoding::<Utf8>()
    }
}

impl<'s> CStrPtr<'s, Utf8ish> {
    /// Assume `self` is valid UTF-8, which the caller knows.
    pub fn assume_utf8(self) -> (r: CStrPtr<'s, Utf8>)
        requires
            valid_utf8(self@),
        ensures
            r.is_null() == self.is_null(),
            r@ == self@,
    {
        self.assume_encoding::<Utf8>()
    }

    /// The string as a `&str`, where it is valid UTF-8.
    ///
    /// `O(n)` to find the terminator and to validate.
    pub fn to_str(&self) -> (r: Result<&'s str, core::str::Utf8Error>)
        ensures
            r is Ok <==> valid_utf8(self@),
            r matches Ok(text) ==> text@ == decode_utf8(self@),
    {
        str_from_utf8(self.to_units())
    }
}

impl<'s> CStrPtr<'s, Utf8> {
    /// The string as a `&str`.
    ///
    /// `O(n)` to find the terminator.
    pub fn to_str(&self) -> (r: &'s str)
        ensures
            r@ == decode_utf8(self@),
    {
        match str_from_utf8(self.to_units()) {
            Ok(text) => text,
            Err(_) => "",
        }
    }
}

impl<'s> CStrPtr<'s, Unknown16> {
    /// Assume `self` is, more or less, UTF-16. This cannot go wrong, though
    /// what comes of it may read as gibberish: `Utf16ish` allows anything.
    pub fn assume_utf16ish(self) -> (r: CStrPtr<'s, Utf16ish>)
        ensures
            r.is_null() == self.is_null(),
            r@ == self@,
    {
        self.assume_encoding::<Utf16ish>()
    }

    /// Assume `self` is valid UTF-16, which the caller knows.
    pub fn assume_utf16(self) -> (r: CStrPtr<'s, Utf16>)
        requires
            valid_utf16(self@),
        ensures
            r.is_null() == self.is_null(),
            r@ == self@,
    {
        self.assume_encoding::<Utf16>()
    }
}

impl<'s> CStrPtr<'s, Utf16ish> {
    /// Assume `self` is valid UTF-16, which the caller knows.
    pub fn assume_utf16(self) -> (r: CStrPtr<'s, Utf16>)
        requires
            valid_utf16(self@),
        ensures
            r.is_null() == self.is_null(),
            r@ == self@,
    {
        self.assume_encoding::<Utf16>()
    }
}

impl<'s> CStrPtr<'s, Unknown32> {
    /// Assume `self` is, more or less, UTF-32. This cannot go wrong, though
    /// what comes of it may read as gibberish: `Utf32ish` allows anything.
    pub fn assume_utf32ish(self) -> (r: CStrPtr<'s, Utf32ish>)
        ensures
            r.is_null() == self.is_null(),
            r@ == self@,
    {
        self.assume_encoding::<Utf32ish>()
    }
}

/// The scalar values that units stand for, where all of them stand for one.
pub open spec fn scalars_of(units: Seq<u32>) -> Seq<char> {
    Seq::new(units.len(), |i: int| units[i] as char)
}

/// Units that are a string with its terminator, read as the `char`s they
/// are, are a string with its terminator: the scalar values of the units.
proof fn lemma_scalar_units(units: Seq<u32>, chars: Seq<char>)
    requires
        chars.len() == units.len(),
        forall|i: int| 0 <= i < units.len() ==> chars[i] as u32 == units[i],
        is_terminated(units),
    ensures
        is_terminated(chars),
        until_nul(chars) == scalars_of(units.drop_last()),
{
    lemma_nul_is_zero();
    lemma_nul_index(units);
    let n = units.len() - 1;
    vstd::utf8::char_u32_cast('\0', 0u32);
    assert forall|i: int| 0 <= i < n implies chars[i] != '\0' by {
        assert(units[i] != 0u32);
    }
    vstd::utf8::char_u32_cast(chars[n], 0u32);
    crate::unit::lemma_nul_index_unique(chars, n);
    assert forall|i: int| 0 <= i < n implies until_nul(chars)[i] == units[i] as char by {
        vstd::utf8::char_u32_cast(chars[i], units[i]);
    }
    assert(until_nul(chars) == scalars_of(units.drop_last()));
}

impl<'s, E: Encoding> CStrPtr<'s, E> {
    /// The view of a never null one: not null, and of the same string.
    pub fn from_non_null(p: CStrNonNull<'s, E>) -> (r: Self)
        ensures
            !r.is_null(),
            r@ == p@,
    {
        proof {
            use_type_invariant(p);
        }
        CStrPtr { units: Some(p.units) }
    }
}

impl<'s> CStrNonNull<'s, Unknown32> {
    /// Assume `self` is valid UTF-32, which the caller knows: every unit is a
    /// scalar value.
    pub fn assume_utf32(self) -> (r: CStrNonNull<'s, Utf32>)
        requires
            forall|i: int| 0 <= i < self@.len() ==> is_scalar(#[trigger] self@[i]),
        ensures
            r@ == scalars_of(self@),
    {
        let units = self.to_units_with_nul();
        proof {
            lemma_nul_is_zero();
            assert forall|i: int| 0 <= i < units@.len() implies is_scalar(#[trigger] units@[i]) by {
                if i < self@.len() {
                    assert(units@[i] == self@[i]);
                }
            }
        }
        let chars = cast_scalar_units(units);
        proof {
            lemma_scalar_units(units@, chars@);
            lemma_nul_index(chars@);
            Utf32::lemma_valid(until_nul(chars@));
            assert(units@.drop_last() == self@);
        }
        CStrNonNull::from_units_with_nul_unchecked(chars)
    }
}

impl<'s> CStrNonNull<'s, Utf32ish> {
    /// Assume `self` is valid UTF-32, which the caller knows: every unit is a
    /// scalar value.
    pub fn assume_utf32(self) -> (r: CStrNonNull<'s, Utf32>)
        requires
            forall|i: int| 0 <= i < self@.len() ==> is_scalar(#[trigger] self@[i]),
        ensures
            r@ == scalars_of(self@),
    {
        let units = self.to_units_with_nul();
        proof {
            lemma_nul_is_zero();
            assert forall|i: int| 0 <= i < units@.len() implies is_scalar(#[trigger] units@[i]) by {
                if i < self@.len() {
                    assert(units@[i] == self@[i]);
                }
            }
        }
        let chars = cast_scalar_units(units);
        proof {
            lemma_scalar_units(units@, chars@);
            lemma_nul_index(chars@);
            Utf32::lemma_valid(until_nul(chars@));
            assert(units@.drop_last() == self@);
        }
        CStrNonNull::from_units_with_nul_unchecked(chars)
    }
}

impl<'s> CStrPtr<'s, Unknown32> {
    /// Assume `self` is valid UTF-32, which the caller knows: every unit is a
    /// scalar value.
    pub fn assume_utf32(self) -> (r: CStrPtr<'s, Utf32>)
        requires
            forall|i: int| 0 <= i < self@.len() ==> is_scalar(#[trigger] self@[i]),
        ensures
            r.is_null() == self.is_null(),
            r@ == scalars_of(self@),
    {
        match self.as_non_null() {
            Some(s) => CStrPtr::from_non_null(s.assume_utf32()),
            None => CStrPtr::null(),
        }
    }
}

impl<'s> CStrPtr<'s, Utf32ish> {
    /// Assume `self` is valid UTF-32, which the caller knows: every unit is a
    /// scalar value.
    pub fn assume_utf32(self) -> (r: CStrPtr<'s, Utf32>)
        requires
            forall|i: int| 0 <= i < self@.len() ==> is_scalar(#[trigger] self@[i]),
        ensures
            r.is_null() == self.is_null(),
            r@ == scalars_of(self@),
    {
        match self.as_non_null() {
            Some(s) => CStrPtr::from_non_null(s.assume_utf32()),
            None => CStrPtr::null(),
        }
    }
}

} // verus!
