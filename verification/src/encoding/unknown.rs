//! The opaque encodings: units of a known width and nothing more.

use crate::encoding::{Encoding, FromUnitsInfalliable};
use crate::fmt::{c16_units, c16_units_text, c32_units, c32_units_text, cstr_bytes, cstr_bytes_text};
use crate::outside::{cast_char_units, cast_i8_units};
use vstd::prelude::*;

verus! {

/// An unknown 8-bit encoding.
#[derive(Clone, Copy)]
pub struct Unknown8;

impl Encoding for Unknown8 {
    type Unit = u8;

    open spec fn valid(units: Seq<u8>) -> bool {
        true
    }

    proof fn lemma_valid(units: Seq<u8>) {
    }

    open spec fn debug_text(units: Seq<u8>) -> Seq<char> {
        cstr_bytes_text(units)
    }

    fn debug_fmt(units: &[u8]) -> (text: String) {
        cstr_bytes(units)
    }
}

impl FromUnitsInfalliable<i8> for Unknown8 {
    open spec fn unit_from(unit: i8) -> u8 {
        unit as u8
    }

    proof fn lemma_all_valid(units: Seq<u8>) {
    }

    fn from_units_infalliable(units: &[i8]) -> (r: &[u8]) {
        cast_i8_units(units)
    }
}

impl FromUnitsInfalliable<u8> for Unknown8 {
    open spec fn unit_from(unit: u8) -> u8 {
        unit
    }

    proof fn lemma_all_valid(units: Seq<u8>) {
    }

    fn from_units_infalliable(units: &[u8]) -> (r: &[u8]) {
        units
    }
}

/// An unknown 16-bit encoding.
#[derive(Clone, Copy)]
pub struct Unknown16;

impl Encoding for Unknown16 {
    type Unit = u16;

    open spec fn valid(units: Seq<u16>) -> bool {
        true
    }

    proof fn lemma_valid(units: Seq<u16>) {
    }

    open spec fn debug_text(units: Seq<u16>) -> Seq<char> {
        c16_units_text(units)
    }

    fn debug_fmt(units: &[u16]) -> (text: String) {
        c16_units(units)
    }
}

impl FromUnitsInfalliable<u16> for Unknown16 {
    open spec fn unit_from(unit: u16) -> u16 {
        unit
    }

    proof fn lemma_all_valid(units: Seq<u16>) {
    }

    fn from_units_infalliable(units: &[u16]) -> (r: &[u16]) {
        units
    }
}

/// An unknown 32-bit encoding.
#[derive(Clone, Copy)]
pub struct Unknown32;

impl Encoding for Unknown32 {
    type Unit = u32;

    open spec fn valid(units: Seq<u32>) -> bool {
        true
    }

    proof fn lemma_valid(units: Seq<u32>) {
    }

    open spec fn debug_text(units: Seq<u32>) -> Seq<char> {
        c32_units_text(units)
    }

    fn debug_fmt(units: &[u32]) -> (text: String) {
        c32_units(units)
    }
}

impl FromUnitsInfalliable<u32> for Unknown32 {
    open spec fn unit_from(unit: u32) -> u32 {
        unit
    }

    proof fn lemma_all_valid(units: Seq<u32>) {
    }

    fn from_units_infalliable(units: &[u32]) -> (r: &[u32]) {
        units
    }
}

impl FromUnitsInfalliable<char> for Unknown32 {
    open spec fn unit_from(unit: char) -> u32 {
        unit as u32
    }

    proof fn lemma_all_valid(units: Seq<u32>) {
    }

    fn from_units_infalliable(units: &[char]) -> (r: &[u32]) {
        cast_char_units(units)
    }
}

} // verus!
