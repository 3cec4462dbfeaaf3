//! An owned C string: units of some encoding with their terminator.

use crate::encoding::Encoding;
use crate::errors::InteriorNulError;
use crate::pointers::CStrNonNull;
use crate::unit::{
    has_nul, is_terminated, lemma_nul_index, lemma_nul_index_unique, until_nul, Unit,
};
use vstd::prelude::*;
use vstd::slice::slice_to_vec;

verus! {

/// Units of encoding `E` on the heap, followed by a terminator: free of
/// terminators in front of that one, and valid for `E`.
///
/// It is made on demand from a borrowed text and lives as long as the
/// expression that needs a C string of it; it never changes.
pub struct EString0<E: Encoding>(Vec<E::Unit>);

impl<E: Encoding> View for EString0<E> {
    type V = Seq<E::Unit>;

    /// The string: the units in front of the terminator.
    closed spec fn view(&self) -> Seq<E::Unit> {
        until_nul(self.0@)
    }
}

impl<E: Encoding> EString0<E> {
    #[verifier::type_invariant]
    spec fn well_formed(self) -> bool {
        is_terminated(self.0@) && E::valid(self.0@.drop_last())
    }

    /// The string holds no terminator.
    pub proof fn lemma_no_nul(&self)
        ensures
            !has_nul(self@),
    {
        lemma_nul_index(self.0@);
    }

    /// Takes `units`, which the caller knows to be valid for `E`, and appends
    /// the terminator. Fails where `units` holds a terminator already.
    pub fn from_vec_no_nul(units: Vec<E::Unit>) -> (r: Result<Self, InteriorNulError>)
        requires
            E::valid(units@),
        ensures
            r is Err <==> has_nul(units@),
            r matches Ok(s) ==> s@ == units@,
    {
        let mut units = units;
        let ghost content = units@;
        match InteriorNulError::check(units.as_slice()) {
            Ok(_) => {},
            Err(e) => {
                return Err(e);
            },
        }
        units.push(E::Unit::NUL);
        proof {
            lemma_nul_index(content);
            lemma_nul_index_unique(units@, content.len() as int);
            assert(units@.drop_last() == content);
            assert(until_nul(units@) == content);
        }
        Ok(EString0(units))
    }

    /// Takes `units`, a string with its terminator that the caller knows to be
    /// valid for `E`.
    pub fn from_vec_with_nul(units: Vec<E::Unit>) -> (r: Self)
        requires
            is_terminated(units@),
            E::valid(units@.drop_last()),
        ensures
            r@ == units@.drop_last(),
    {
        proof {
            assert(until_nul(units@) == units@.drop_last());
        }
        EString0(units)
    }

    /// Copies `units`, which the caller knows to be valid for `E`, and appends
    /// the terminator. Fails where `units` holds a terminator already.
    pub fn from_units(units: &[E::Unit]) -> (r: Result<Self, InteriorNulError>)
        requires
            E::valid(units@),
        ensures
            r is Err <==> has_nul(units@),
            r matches Ok(s) ==> s@ == units@,
    {
        Self::from_vec_no_nul(slice_to_vec(units))
    }

    /// The units of the string, with the terminator.
    pub fn as_units_with_nul(&self) -> (r: &[E::Unit])
        ensures
            r@ == self@.push(E::Unit::NUL),
            is_terminated(r@),
            E::valid(self@),
            !has_nul(self@),
    {
        proof {
            use_type_invariant(self);
            lemma_nul_index(self.0@);
            assert(until_nul(self.0@) == self.0@.drop_last());
            assert(self.0@.drop_last().push(E::Unit::NUL) == self.0@);
        }
        self.0.as_slice()
    }

    /// The string as a borrowed C string.
    pub fn as_cstr_non_null(&self) -> (r: CStrNonNull<'_, E>)
        ensures
            r@ == self@,
    {
        let units = self.as_units_with_nul();
        proof {
            lemma_nul_index(units@);
            assert(until_nul(units@) == self@);
        }
        CStrNonNull::from_units_with_nul_unchecked(units)
    }
}

} // verus!
