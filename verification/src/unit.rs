//! Code units and the terminator scan.

use vstd::prelude::*;

verus! {

/// A code unit: the fixed-width storage element of an encoding.
///
/// | Encoding | Unit   |
/// | -------- | ------ |
/// | 8-bit    | `u8` (and `i8`, the C `char` of many platforms) |
/// | UTF-16   | `u16`  |
/// | UTF-32   | `u32`, or `char` once every unit is known to be a scalar value |
pub trait Unit: Copy + Sized + 'static {
    /// The terminator of this width.
    const NUL: Self;

    /// The empty string with its terminator.
    fn empty() -> (r: &'static [Self])
        ensures
            r@ == seq![Self::NUL],
    ;

    /// Whether `self` is the terminator.
    fn is_nul(&self) -> (r: bool)
        ensures
            r == (*self == Self::NUL),
    ;

    /// `N` terminators in a row: the empty string at every capacity.
    fn zeroed<const N: usize>() -> (r: [Self; N])
        ensures
            r@ == Seq::new(N as nat, |i: int| Self::NUL),
    ;
}

impl Unit for i8 {
    const NUL: i8 = 0;

    fn empty() -> (r: &'static [i8]) {
        let r: &'static [i8; 1] = &[0i8];
        assert(r@ == seq![0i8]);
        r
    }

    fn is_nul(&self) -> (r: bool) {
        *self == 0i8
    }

    fn zeroed<const N: usize>() -> (r: [i8; N]) {
        let r = [0i8; N];
        assert(r@ == Seq::new(N as nat, |i: int| 0i8));
        r
    }
}

impl Unit for u8 {
    const NUL: u8 = 0;

    fn empty() -> (r: &'static [u8]) {
        let r: &'static [u8; 1] = &[0u8];
        assert(r@ == seq![0u8]);
        r
    }

    fn is_nul(&self) -> (r: bool) {
        *self == 0u8
    }

    fn zeroed<const N: usize>() -> (r: [u8; N]) {
        let r = [0u8; N];
        assert(r@ == Seq::new(N as nat, |i: int| 0u8));
        r
    }
}

impl Unit for u16 {
    const NUL: u16 = 0;

    fn empty() -> (r: &'static [u16]) {
        let r: &'static [u16; 1] = &[0u16];
        assert(r@ == seq![0u16]);
        r
    }

    fn is_nul(&self) -> (r: bool) {
        *self == 0u16
    }

    fn zeroed<const N: usize>() -> (r: [u16; N]) {
        let r = [0u16; N];
        assert(r@ == Seq::new(N as nat, |i: int| 0u16));
        r
    }
}

impl Unit for u32 {
    const NUL: u32 = 0;

    fn empty() -> (r: &'static [u32]) {
        let r: &'static [u32; 1] = &[0u32];
        assert(r@ == seq![0u32]);
        r
    }

    fn is_nul(&self) -> (r: bool) {
        *self == 0u32
    }

    fn zeroed<const N: usize>() -> (r: [u32; N]) {
        let r = [0u32; N];
        assert(r@ == Seq::new(N as nat, |i: int| 0u32));
        r
    }
}

impl Unit for char {
    const NUL: char = '\0';

    fn empty() -> (r: &'static [char]) {
        let r: &'static [char; 1] = &['\0'];
        assert(r@ == seq!['\0']);
        r
    }

    fn is_nul(&self) -> (r: bool) {
        *self == '\0'
    }

    fn zeroed<const N: usize>() -> (r: [char; N]) {
        let r = ['\0'; N];
        assert(r@ == Seq::new(N as nat, |i: int| '\0'));
        r
    }
}

/// Whether a terminator occurs anywhere in `units`.
pub open spec fn has_nul<U: Unit>(units: Seq<U>) -> bool {
    exists|i: int| 0 <= i < units.len() && units[i] == U::NUL
}

/// The index of the first terminator in `units`, or the length of `units` where
/// there is none.
pub open spec fn nul_index<U: Unit>(units: Seq<U>) -> int
    decreases units.len(),
{
    if units.len() == 0 || units[0] == U::NUL {
        0
    } else {
        1 + nul_index(units.drop_first())
    }
}

/// The string that starts `units`: everything before the first terminator, and
/// all of `units` where there is none.
pub open spec fn until_nul<U: Unit>(units: Seq<U>) -> Seq<U> {
    units.take(nul_index(units))
}

/// Whether `units` is exactly one string with its terminator: the only
/// terminator is the last unit.
pub open spec fn is_terminated<U: Unit>(units: Seq<U>) -> bool {
    units.len() > 0 && nul_index(units) == units.len() - 1
}

/// `nul_index` is where the first terminator stands.
pub proof fn lemma_nul_index<U: Unit>(units: Seq<U>)
    ensures
        0 <= nul_index(units) <= units.len(),
        forall|i: int| 0 <= i < nul_index(units) ==> units[i] != U::NUL,
        nul_index(units) < units.len() ==> units[nul_index(units)] == U::NUL,
        has_nul(units) <==> nul_index(units) < units.len(),
        !has_nul(until_nul(units)),
    decreases units.len(),
{
    if units.len() == 0 || units[0] == U::NUL {
    } else {
        let rest = units.drop_first();
        lemma_nul_index(rest);
        assert forall|i: int| 0 <= i < nul_index(units) implies units[i] != U::NUL by {
            if i > 0 {
                assert(units[i] == rest[i - 1]);
            }
        }
        if has_nul(units) {
            let i = choose|i: int| 0 <= i < units.len() && units[i] == U::NUL;
            assert(rest[i - 1] == U::NUL);
        }
    }
    if has_nul(until_nul(units)) {
        let i = choose|i: int| 0 <= i < until_nul(units).len() && until_nul(units)[i] == U::NUL;
        assert(units[i] == U::NUL);
    }
}

/// Only one index is that of a first terminator.
pub proof fn lemma_nul_index_unique<U: Unit>(units: Seq<U>, n: int)
    requires
        0 <= n <= units.len(),
        forall|i: int| 0 <= i < n ==> units[i] != U::NUL,
        n < units.len() ==> units[n] == U::NUL,
    ensures
        nul_index(units) == n,
{
    lemma_nul_index(units);
    let m = nul_index(units);
    if m < n {
        assert(units[m] != U::NUL);
    }
}

/// Where the first terminator of `units` stands, if there is one.
pub fn find_nul<U: Unit>(units: &[U]) -> (r: Option<usize>)
    ensures
        r is Some <==> has_nul(units@),
        r matches Some(n) ==> n == nul_index(units@) && n < units@.len() <= usize::MAX,
{
    let mut n: usize = 0;
    while n < units.len()
        invariant
            n <= units@.len(),
            forall|i: int| 0 <= i < n ==> units@[i] != U::NUL,
        decreases units@.len() - n,
    {
        if units[n].is_nul() {
            proof {
                lemma_nul_index_unique(units@, n as int);
                lemma_nul_index(units@);
            }
            return Some(n);
        }
        n += 1;
    }
    proof {
        lemma_nul_index_unique(units@, n as int);
        lemma_nul_index(units@);
    }
    None
}

/// Length of the string that starts `units`: the number of units before the
/// first terminator.
pub fn strlen<U: Unit>(units: &[U]) -> (n: usize)
    requires
        has_nul(units@),
    ensures
        n == nul_index(units@),
        n < units@.len() <= usize::MAX,
{
    let mut n: usize = 0;
    let len = units.len();
    proof {
        lemma_nul_index(units@);
    }
    while n < len
        invariant
            len == units@.len(),
            n <= nul_index(units@) < units@.len(),
            forall|i: int| 0 <= i < n ==> units@[i] != U::NUL,
            units@[nul_index(units@)] == U::NUL,
        decreases units@.len() - n,
    {
        if units[n].is_nul() {
            proof {
                lemma_nul_index_unique(units@, n as int);
            }
            return n;
        }
        n += 1;
    }
    n
}

/// The terminator of each width is the number zero.
pub proof fn lemma_nul_is_zero()
    ensures
        <i8 as Unit>::NUL == 0i8,
        <u8 as Unit>::NUL == 0u8,
        <u16 as Unit>::NUL == 0u16,
        <u32 as Unit>::NUL == 0u32,
        <char as Unit>::NUL == '\0',
{
}

} // verus!
