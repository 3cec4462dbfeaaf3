//! A C string in an array of fixed size, as a field of a C structure holds it.

use crate::encoding::{lossy_text, Encoding, FromUnitsInfalliable, ToChars};
use crate::errors::{BufferTooSmallError, NotNulTerminatedError};
use crate::outside::str_from_utf8;
use crate::pointers::CStrNonNull;
use crate::unit::{
    find_nul, has_nul, lemma_nul_index, lemma_nul_index_unique, nul_index, until_nul, Unit,
};
use vstd::prelude::*;
use vstd::utf8::{decode_utf8, valid_utf8};

verus! {

/// `N` code units of encoding `E`, laid out as the array that they are.
///
/// Nothing guarantees that the buffer holds a terminator: foreign code may
/// fill all of it, and a full buffer is a state like any other. What needs a
/// terminator either looks for one and may fail (`validate`,
/// `to_units_with_nul`), or puts one in the last slot (`nul_truncate`).
pub struct CStrBuf<E: Encoding, const N: usize> {
    buffer: [E::Unit; N],
}

impl<E: Encoding, const N: usize> Clone for CStrBuf<E, N> {
    fn clone(&self) -> (r: Self)
        ensures
            r == *self,
    {
        *self
    }
}

impl<E: Encoding, const N: usize> Copy for CStrBuf<E, N> {

}

impl<E: Encoding, const N: usize> View for CStrBuf<E, N> {
    type V = Seq<E::Unit>;

    /// All `N` units of the buffer.
    closed spec fn view(&self) -> Seq<E::Unit> {
        self.buffer@
    }
}

/// A buffer that held `old` after the first `n` units of `data` and a
/// terminator were written to its front: what lay behind the terminator stays.
pub open spec fn stored<U: Unit>(old: Seq<U>, data: Seq<U>, n: int) -> Seq<U> {
    data.take(n) + seq![U::NUL] + old.skip(n + 1)
}

/// The smaller of two numbers.
pub open spec fn min(a: int, b: int) -> int {
    if a <= b {
        a
    } else {
        b
    }
}

/// What `set_truncate` leaves in a buffer that held `old`: as much of `data`
/// as fits in front of a terminator.
pub open spec fn truncated<U: Unit>(old: Seq<U>, data: Seq<U>) -> Seq<U> {
    stored(old, data, min(old.len() - 1, data.len() as int))
}

/// What `set_truncate_without_nul` leaves in a buffer that held `old`: as much
/// of `data` as fits, and a terminator only where a slot is left for one.
pub open spec fn truncated_without_nul<U: Unit>(old: Seq<U>, data: Seq<U>) -> Seq<U> {
    if data.len() < old.len() {
        stored(old, data, data.len() as int)
    } else {
        data.take(old.len() as int)
    }
}

/// A write of data and terminator leaves a buffer of the same size with a
/// terminator in it, and the string it holds is the data as far as the data
/// held no terminator itself.
pub proof fn lemma_stored<U: Unit>(old: Seq<U>, data: Seq<U>, n: int)
    requires
        0 <= n < old.len(),
        n <= data.len(),
    ensures
        stored(old, data, n).len() == old.len(),
        has_nul(stored(old, data, n)),
        until_nul(stored(old, data, n)) == until_nul(data.take(n)),
        forall|i: int| n < i < old.len() ==> stored(old, data, n)[i] == old[i],
{
    let s = stored(old, data, n);
    let d = data.take(n);
    assert(s[n] == U::NUL);
    lemma_nul_index(d);
    lemma_nul_index(s);
    let k = nul_index(d);
    assert forall|i: int| 0 <= i < k implies s[i] != U::NUL by {
        assert(s[i] == d[i]);
    }
    if k < n {
        assert(s[k] == d[k]);
    }
    lemma_nul_index_unique(s, k);
    assert(s.take(k) == d.take(k));
}

/// After `set_truncate`, whatever the buffer held and whatever was written,
/// the buffer holds a terminator: `validate` cannot fail.
pub proof fn lemma_truncated_is_terminated<U: Unit>(old: Seq<U>, data: Seq<U>)
    requires
        old.len() >= 1,
    ensures
        truncated(old, data).len() == old.len(),
        has_nul(truncated(old, data)),
        until_nul(truncated(old, data)) == until_nul(
            data.take(min(old.len() - 1, data.len() as int)),
        ),
{
    lemma_stored(old, data, min(old.len() - 1, data.len() as int));
}

impl<E: Encoding, const N: usize> CStrBuf<E, N> {
    /// A buffer holds `N` units, whatever they are.
    pub proof fn lemma_len(self)
        ensures
            self@.len() == N,
    {
    }

    /// Whatever a buffer of at least one unit holds and whatever is written to
    /// it, what `set_truncate` leaves holds a terminator, in the slot behind
    /// the data that fit: `validate` cannot fail on it.
    pub proof fn lemma_set_truncate_terminates(self, data: Seq<E::Unit>)
        requires
            N >= 1,
        ensures
            truncated(self@, data).len() == N,
            truncated(self@, data)[min(N - 1, data.len() as int)] == E::Unit::NUL,
            has_nul(truncated(self@, data)),
    {
        self.lemma_len();
        lemma_truncated_is_terminated(self@, data);
    }

    /// Writes the first `n` units of `data` and a terminator to the front of
    /// the buffer.
    fn store(&mut self, data: &[E::Unit], n: usize)
        requires
            n < N,
            n <= data@.len(),
        ensures
            final(self)@ == stored(old(self)@, data@, n as int),
    {
        let mut i: usize = 0;
        while i < n
            invariant
                i <= n < N,
                n <= data@.len(),
                self.buffer@.len() == N,
                forall|k: int| 0 <= k < i ==> self.buffer@[k] == data@[k],
                forall|k: int| i <= k < N ==> self.buffer@[k] == old(self).buffer@[k],
            decreases n - i,
        {
            self.buffer[i] = data[i];
            i += 1;
        }
        self.buffer[n] = E::Unit::NUL;
        assert(self.buffer@ == stored(old(self).buffer@, data@, n as int));
    }

    /// Writes the first `N` units of `data`, which fill the buffer.
    fn fill(&mut self, data: &[E::Unit])
        requires
            data@.len() >= N,
        ensures
            final(self)@ == data@.take(N as int),
    {
        let mut i: usize = 0;
        while i < N
            invariant
                i <= N <= data@.len(),
                self.buffer@.len() == N,
                forall|k: int| 0 <= k < i ==> self.buffer@[k] == data@[k],
            decreases N - i,
        {
            self.buffer[i] = data[i];
            i += 1;
        }
        assert(self.buffer@ == data@.take(N as int));
    }

    /// A buffer that holds `data` and a terminator, or as much of `data` as
    /// fits in front of a terminator. A buffer of no units has no room for
    /// the terminator.
    pub fn from_truncate(data: &[E::Unit]) -> (r: Self)
        requires
            N >= 1,
        ensures
            r@ == truncated(Seq::new(N as nat, |i: int| E::Unit::NUL), data@),
    {
        let mut s = Self::default();
        let _ = s.set_truncate(data);
        s
    }

    /// A buffer that holds `data` and a terminator, or as much of `data` as
    /// fits, which may leave no room for the terminator.
    pub fn from_truncate_without_nul(data: &[E::Unit]) -> (r: Self)
        ensures
            r@ == truncated_without_nul(Seq::new(N as nat, |i: int| E::Unit::NUL), data@),
    {
        let mut s = Self::default();
        let _ = s.set_truncate_without_nul(data);
        s
    }

    /// A buffer that holds `data` and a terminator, where both fit.
    pub fn try_from(data: &[E::Unit]) -> (r: Result<Self, BufferTooSmallError>)
        ensures
            r is Err <==> data@.len() >= N,
            r matches Ok(s) ==> s@ == stored(
                Seq::new(N as nat, |i: int| E::Unit::NUL),
                data@,
                data@.len() as int,
            ),
    {
        let mut s = Self::default();
        match s.try_set(data) {
            Ok(_) => Ok(s),
            Err(e) => Err(e),
        }
    }

    /// A buffer that holds `data`, where it fits, and a terminator, where one
    /// fits behind it.
    pub fn try_from_without_nul(data: &[E::Unit]) -> (r: Result<Self, BufferTooSmallError>)
        ensures
            r is Err <==> data@.len() > N,
            r matches Ok(s) ==> s@ == truncated_without_nul(
                Seq::new(N as nat, |i: int| E::Unit::NUL),
                data@,
            ),
    {
        let mut s = Self::default();
        match s.try_set_without_nul(data) {
            Ok(_) => Ok(s),
            Err(e) => Err(e),
        }
    }

    /// All units of the buffer.
    pub fn buffer(&self) -> (r: &[E::Unit])
        ensures
            r@ == self@,
            r@.len() == N,
    {
        &self.buffer
    }

    /// Checks if `self` is empty: the first unit is the terminator.
    pub fn is_empty(&self) -> (r: bool)
        ensures
            r == (N > 0 && self@[0] == E::Unit::NUL),
    {
        N > 0 && self.buffer[0].is_nul()
    }

    /// The units of the string: what stands in front of the first terminator,
    /// and all of the buffer where it holds none.
    ///
    /// `O(n)` to find the terminator.
    pub fn to_units(&self) -> (r: &[E::Unit])
        ensures
            r@ == until_nul(self@),
    {
        let buffer: &[E::Unit] = &self.buffer;
        proof {
            lemma_nul_index(buffer@);
        }
        match find_nul(buffer) {
            Some(nul) => {
                let (head, _) = buffer.split_at(nul);
                head
            },
            None => {
                assert(buffer@.take(buffer@.len() as int) == buffer@);
                buffer
            },
        }
    }

    /// The units of the string with its terminator, where the buffer holds a
    /// terminator.
    ///
    /// `O(n)` to find the terminator.
    pub fn to_units_with_nul(&self) -> (r: Result<&[E::Unit], NotNulTerminatedError>)
        ensures
            r is Ok <==> has_nul(self@),
            r matches Ok(units) ==> units@ == until_nul(self@).push(E::Unit::NUL),
    {
        let buffer: &[E::Unit] = &self.buffer;
        proof {
            lemma_nul_index(buffer@);
        }
        match find_nul(buffer) {
            Some(nul) => {
                let (head, _) = buffer.split_at(nul + 1);
                assert(head@ == until_nul(buffer@).push(E::Unit::NUL));
                Ok(head)
            },
            None => Err(NotNulTerminatedError(())),
        }
    }

    /// Ensures that the buffer holds a terminator.
    ///
    /// `O(n)` to find the terminator.
    pub fn validate(&self) -> (r: Result<(), NotNulTerminatedError>)
        ensures
            r is Ok <==> has_nul(self@),
    {
        match self.to_units_with_nul() {
            Ok(_) => Ok(()),
            Err(e) => Err(e),
        }
    }

    /// All units of the buffer, to change at will.
    pub fn buffer_mut(&mut self) -> (r: &mut [E::Unit])
        ensures
            r@ == old(self)@,
            r@.len() == N,
            final(self)@ == final(r)@,
    {
        &mut self.buffer
    }

    /// Ensures that the buffer holds a terminator by putting one in the last
    /// slot, and returns the string that the buffer then holds. A buffer of no
    /// units has no last slot.
    ///
    /// The encoding has to be one that makes no claim, since nothing is known
    /// of what the buffer holds.
    pub fn nul_truncate(&mut self) -> (r: CStrNonNull<'_, E>) where
        E: FromUnitsInfalliable<<E as Encoding>::Unit>,

        requires
            N >= 1,
        ensures
            final(self)@ == old(self)@.update(N - 1, E::Unit::NUL),
            final(self)@.len() == N,
            has_nul(final(self)@),
            r@ == until_nul(final(self)@),
    {
        self.buffer[N - 1] = E::Unit::NUL;
        proof {
            assert(self.buffer@[N - 1] == E::Unit::NUL);
            E::lemma_all_valid(until_nul(self.buffer@));
        }
        CStrNonNull::from_units_with_nul_unchecked(&self.buffer)
    }

    /// Makes the buffer hold `data` and a terminator. Where `data` does not
    /// fit, it is cut short to fit with the terminator, and the cut is
    /// reported. A buffer of no units has no room for the terminator.
    pub fn set_truncate(&mut self, data: &[E::Unit]) -> (r: Result<(), BufferTooSmallError>)
        requires
            N >= 1,
        ensures
            final(self)@ == stored(old(self)@, data@, min(N - 1, data@.len() as int)),
            final(self)@ == truncated(old(self)@, data@),
            final(self)@.len() == N,
            final(self)@[min(N - 1, data@.len() as int)] == E::Unit::NUL,
            forall|i: int|
                0 <= i < min(N - 1, data@.len() as int) ==> final(self)@[i] == data@[i],
            forall|i: int|
                min(N - 1, data@.len() as int) < i < N ==> final(self)@[i] == old(self)@[i],
            has_nul(final(self)@),
            r is Err <==> data@.len() >= N,
    {
        let n = if data.len() < N - 1 {
            data.len()
        } else {
            N - 1
        };
        proof {
            old(self).lemma_set_truncate_terminates(data@);
        }
        self.store(data, n);
        if data.len() >= N {
            Err(BufferTooSmallError(()))
        } else {
            Ok(())
        }
    }

    /// Makes the buffer hold `data` and a terminator. Where `data` does not
    /// fit, it is cut short to fit, without a terminator, and the cut is
    /// reported.
    pub fn set_truncate_without_nul(&mut self, data: &[E::Unit]) -> (r: Result<
        (),
        BufferTooSmallError,
    >)
        ensures
            final(self)@ == truncated_without_nul(old(self)@, data@),
            final(self)@.len() == N,
            r is Err <==> data@.len() > N,
    {
        if data.len() < N {
            self.store(data, data.len());
            Ok(())
        } else {
            self.fill(data);
            if data.len() > N {
                Err(BufferTooSmallError(()))
            } else {
                Ok(())
            }
        }
    }

    /// Makes the buffer hold `data` and a terminator, where both fit. Where
    /// they do not, the buffer stays as it was.
    pub fn try_set(&mut self, data: &[E::Unit]) -> (r: Result<(), BufferTooSmallError>)
        ensures
            r is Err <==> data@.len() >= N,
            r is Err ==> final(self)@ == old(self)@,
            r is Ok ==> final(self)@ == stored(old(self)@, data@, data@.len() as int),
            r is Ok ==> final(self)@[data@.len() as int] == E::Unit::NUL,
            r is Ok ==> forall|i: int| 0 <= i < data@.len() ==> final(self)@[i] == data@[i],
            r is Ok ==> forall|i: int| data@.len() < i < N ==> final(self)@[i] == old(self)@[i],
            final(self)@.len() == N,
    {
        proof {
            old(self).lemma_len();
        }
        if data.len() >= N {
            return Err(BufferTooSmallError(()));
        }
        self.store(data, data.len());
        Ok(())
    }

    /// Makes the buffer hold `data`, where it fits, and a terminator, where
    /// one fits behind it. Where `data` does not fit, the buffer stays as it
    /// was.
    pub fn try_set_without_nul(&mut self, data: &[E::Unit]) -> (r: Result<
        (),
        BufferTooSmallError,
    >)
        ensures
            r is Err <==> data@.len() > N,
            r is Err ==> final(self)@ == old(self)@,
            r is Ok ==> final(self)@ == truncated_without_nul(old(self)@, data@),
            final(self)@.len() == N,
    {
        if data.len() > N {
            return Err(BufferTooSmallError(()));
        }
        if data.len() < N {
            self.store(data, data.len());
        } else {
            self.fill(data);
        }
        Ok(())
    }

    /// The text of the string, with U+FFFD wherever it does not decode.
    pub fn to_string_lossy(&self) -> (text: String) where E: ToChars
        ensures
            text@ == lossy_text::<E>(until_nul(self@)),
    {
        E::to_string_lossy(self.to_units())
    }

    /// Shows the string as a quoted, escaped string.
    pub fn debug(&self) -> (text: String)
        ensures
            text@ == E::debug_text(until_nul(self@)),
    {
        E::debug_fmt(self.to_units())
    }
}

impl<E: Encoding<Unit = u8>, const N: usize> CStrBuf<E, N> {
    /// `to_units`, for bytes.
    pub fn to_bytes(&self) -> (r: &[u8])
        ensures
            r@ == until_nul(self@),
    {
        self.to_units()
    }

    /// `to_units_with_nul`, for bytes.
    pub fn to_bytes_with_nul(&self) -> (r: Result<&[u8], NotNulTerminatedError>)
        ensures
            r is Ok <==> has_nul(self@),
            r matches Ok(units) ==> units@ == until_nul(self@).push(0u8),
    {
        proof {
            crate::unit::lemma_nul_is_zero();
        }
        self.to_units_with_nul()
    }

    /// The string as a `&str`, where it is valid UTF-8.
    pub fn to_str(&self) -> (r: Result<&str, core::str::Utf8Error>)
        ensures
            r is Ok <==> valid_utf8(until_nul(self@)),
            r matches Ok(text) ==> text@ == decode_utf8(until_nul(self@)),
    {
        str_from_utf8(self.to_units())
    }
}

impl<E: Encoding, const N: usize> Default for CStrBuf<E, N> {
    /// The empty string: every unit is the terminator.
    fn default() -> (r: Self)
        ensures
            r@ == Seq::new(N as nat, |i: int| E::Unit::NUL),
    {
        CStrBuf { buffer: E::Unit::zeroed::<N>() }
    }
}

} // verus!
