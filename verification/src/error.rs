//! What can go wrong while encoding or decoding.

use crate::io;
use vstd::prelude::*;
use vstd::std_specs::convert::FromSpecImpl;

verus! {

/// A kind of value that the format has no encoding for.
#[derive(Debug, Clone, Copy, PartialEq, Eq, Structural)]
pub enum Primitive {
    /// A signed 64-bit integer.
    I64,
    /// An unsigned 64-bit integer.
    U64,
    /// A 32-bit floating point number.
    F32,
    /// A 64-bit floating point number.
    F64,
    /// A character.
    Char,
    /// A string.
    Str,
    /// An optional value.
    Optional,
    /// A key-value mapping.
    Mapping,
}

/// The kind of error that encoding or decoding can end in.
#[derive(Debug, Clone, Copy, PartialEq, Eq, Structural)]
pub enum ErrorKind {
    /// The byte source or sink failed: the input ended too early, or the
    /// sink is full.
    Io(io::Error),
    /// A byte other than 0 or 1 where a `bool` was expected.
    InvalidBoolEncoding(u8),
    /// A tag that matches no variant of a closed enumeration.
    InvalidTagEncoding(usize),
    /// The format is not self-describing: a value cannot be decoded without
    /// naming its type.
    DeserializeAnyNotSupported,
    /// A sequence whose length is not known before its first element is
    /// written cannot be encoded: the count comes first on the wire.
    SequenceMustHaveLength,
    /// The format has no encoding for this kind of value.
    NotSupported(Primitive),
}

/// An error of encoding or decoding.
pub type Error = Box<ErrorKind>;

/// The result of encoding or decoding.
pub type Result<T> = core::result::Result<T, Error>;

impl From<io::Error> for Error {
    fn from(err: io::Error) -> (r: Error) {
        Box::new(ErrorKind::Io(err))
    }
}

impl FromSpecImpl<io::Error> for Error {
    open spec fn obeys_from_spec() -> bool {
        true
    }

    open spec fn from_spec(err: io::Error) -> Error {
        Box::new(ErrorKind::Io(err))
    }
}

/// Whether `r` is the failure `kind`.
pub open spec fn failed_with<T>(r: Result<T>, kind: ErrorKind) -> bool {
    r matches Err(e) && *e == kind
}

} // verus!
