//! C ABI shaped strings: code units, the encodings that give them meaning, and
//! the views and buffers that hold NUL-terminated runs of them.

pub mod as_traits;
pub mod buffers;
pub mod encoding;
pub mod errors;
pub mod estring;
pub mod fmt;
pub mod literal;
pub mod outside;
pub mod pointers;
pub mod try_into_as_traits;
pub mod unit;
pub mod wide;

pub use as_traits::{AsCStr, AsOptCStr};
pub use buffers::CStrBuf;
pub use encoding::Encoding;
pub use estring::EString0;
pub use errors::{BufferTooSmallError, FromUnitsWithNulError, InteriorNulError, NotNulTerminatedError};
pub use pointers::{CStrNonNull, CStrPtr};
pub use try_into_as_traits::{TryIntoAsCStr, TryIntoAsOptCStr};
pub use unit::{strlen, Unit};
