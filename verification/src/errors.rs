//! What can go wrong: each failure is a plain value that callers inspect.

use crate::unit::{has_nul, find_nul, Unit};
use vstd::prelude::*;

verus! {

/// The buffer in question is too small to contain the string in question.
#[derive(Clone, Copy, Debug, PartialEq, Eq, PartialOrd, Ord, Hash)]
pub struct BufferTooSmallError(pub(crate) ());

impl BufferTooSmallError {
    /// What went wrong, in words.
    pub fn description(&self) -> (text: &'static str)
        ensures
            text@ == "data provided is too large for the buffer"@,
    {
        "data provided is too large for the buffer"
    }
}

/// The string in question contains no terminal `\0`.
#[derive(Clone, Copy, Debug, PartialEq, Eq, PartialOrd, Ord, Hash)]
pub struct NotNulTerminatedError(pub(crate) ());

impl NotNulTerminatedError {
    /// What went wrong, in words.
    pub fn description(&self) -> (text: &'static str)
        ensures
            text@ == "data provided is not nul terminated"@,
    {
        "data provided is not nul terminated"
    }
}

/// The string in question contains no terminal `\0`, contains an interior `\0`,
/// or contains an invalid sequence for the encoding.
#[derive(Clone, Copy, Debug, PartialEq, Eq, PartialOrd, Ord, Hash)]
pub struct FromUnitsWithNulError(pub(crate) ());

impl FromUnitsWithNulError {
    /// What went wrong, in words.
    pub fn description(&self) -> (text: &'static str)
        ensures
            text@
                == "data provided is not nul terminated, contains interior nuls, or contains invalid sequences for the Encoding"@,
    {
        "data provided is not nul terminated, contains interior nuls, or contains invalid sequences for the Encoding"
    }
}

/// The string in question contains an interior `\0`.
#[derive(Clone, Copy, Debug, PartialEq, Eq, PartialOrd, Ord, Hash)]
pub struct InteriorNulError(pub(crate) ());

impl InteriorNulError {
    /// What went wrong, in words.
    pub fn description(&self) -> (text: &'static str)
        ensures
            text@ == "data provided contains interior nuls"@,
    {
        "data provided contains interior nuls"
    }

    /// Accepts `units` exactly when no terminator occurs in it.
    pub fn check<U: Unit>(units: &[U]) -> (r: Result<(), InteriorNulError>)
        ensures
            r is Err <==> has_nul(units@),
    {
        match find_nul(units) {
            Some(_) => Err(InteriorNulError(())),
            None => Ok(()),
        }
    }
}

} // verus!
