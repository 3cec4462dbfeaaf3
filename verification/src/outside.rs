//! What this crate believes, without proof, of the code it calls but does not
//! own: functions of `core` that have no specification yet, and the casts of
//! `bytemuck`.

use vstd::prelude::*;
use vstd::utf8::is_scalar;

verus! {

/// `char::from_u32` accepts exactly the Unicode scalar values, and the `char`
/// it gives has the number it was given.
pub assume_specification[ char::from_u32 ](i: u32) -> (r: Option<char>)
    ensures
        r == (if is_scalar(i) {
            Some(i as char)
        } else {
            None::<char>
        }),
;

/// `String::push` appends the one `char` to the end of the string.
pub assume_specification[ String::push ](s: &mut String, c: char)
    ensures
        final(s)@ == old(s)@.push(c),
;

/// `bytemuck::must_cast_slice` from `i8` to `u8`: the same memory read at the
/// same width, so as many units, each the two's complement reading of the byte
/// it was.
#[verifier::external_body]
pub(crate) fn cast_i8_units(units: &[i8]) -> (r: &[u8])
    ensures
        r@.len() == units@.len(),
        forall|i: int| 0 <= i < units@.len() ==> r@[i] == units@[i] as u8,
{
    bytemuck::must_cast_slice::<i8, u8>(units)
}

/// `bytemuck::must_cast_slice` from `char` to `u32`: the same memory read at
/// the same width, so as many units, each the number of the `char` it was.
#[verifier::external_body]
pub(crate) fn cast_char_units(units: &[char]) -> (r: &[u32])
    ensures
        r@.len() == units@.len(),
        forall|i: int| 0 <= i < units@.len() ==> r@[i] == units@[i] as u32,
{
    bytemuck::must_cast_slice::<char, u32>(units)
}

/// `<char as bytemuck::CheckedBitPattern>::is_valid_bit_pattern`: whether the
/// 32 bits are those of a `char`, which is to say a Unicode scalar value.
#[verifier::external_body]
pub(crate) fn is_char_bits(bits: &u32) -> (r: bool)
    ensures
        r == is_scalar(*bits),
{
    <char as bytemuck::CheckedBitPattern>::is_valid_bit_pattern(bits)
}

/// `bytemuck::checked::cast_slice` from `u32` to `char`, which panics on a unit
/// that is no scalar value: on units that all are, the same memory read as
/// `char`s, as many of them, each with the number of the unit it was.
#[verifier::external_body]
pub(crate) fn cast_scalar_units(units: &[u32]) -> (r: &[char])
    requires
        forall|i: int| 0 <= i < units@.len() ==> is_scalar(#[trigger] units@[i]),
    ensures
        r@.len() == units@.len(),
        forall|i: int| 0 <= i < units@.len() ==> r@[i] as u32 == units@[i],
{
    bytemuck::checked::cast_slice::<u32, char>(units)
}

/// `core::str::Utf8Error`: why bytes are no UTF-8. Nothing here looks inside.
#[verifier::external_type_specification]
#[verifier::external_body]
pub struct ExUtf8Error(core::str::Utf8Error);

/// `core::str::from_utf8` accepts exactly the bytes that are valid UTF-8, and
/// the string it gives has those bytes.
#[verifier::external_body]
pub(crate) fn str_from_utf8(bytes: &[u8]) -> (r: Result<&str, core::str::Utf8Error>)
    ensures
        r is Ok <==> vstd::utf8::valid_utf8(bytes@),
        r matches Ok(text) ==> text@ == vstd::utf8::decode_utf8(bytes@),
{
    core::str::from_utf8(bytes)
}

} // verus!
