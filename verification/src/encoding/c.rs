//! The encoding of the C locale.

use crate::encoding::Encoding;
use crate::fmt::{cstr_bytes, cstr_bytes_text};
use vstd::prelude::*;

verus! {

/// `LC_CTYPE`, the "Local Category: Character TYPE" of the C locale.
///
/// It decides what the multibyte string functions of C (`mbstowcs`, `mbrtowc`
/// and the like) take a narrow string to mean. It is global state, or state of
/// the thread, that the platform keeps and that any code may change: units
/// with this tag carry no claim.
#[allow(non_camel_case_types)]
#[derive(Clone, Copy)]
pub struct LC_CTYPE;

impl Encoding for LC_CTYPE {
    type Unit = u8;

    open spec fn valid(units: Seq<u8>) -> bool {
        true
    }

    proof fn lemma_valid(units: Seq<u8>) {
    }

    open spec fn debug_text(units: Seq<u8>) -> Seq<char> {
        cstr_bytes_text(units)
    }

    fn debug_fmt(units: &[u8]) -> (text: String) {
        cstr_bytes(units)
    }
}

} // verus!
