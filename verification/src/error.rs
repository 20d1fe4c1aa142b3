use vstd::prelude::*;

verus! {

/// The kind of an input failure, as the library reports it.
///
/// Parsing from memory only ever reports `UnexpectedEof`; the other kinds are produced by
/// callers that read archives or files and hand the outcome back to the library.
#[derive(Debug, Clone, Copy, PartialEq, Eq)]
pub enum PmxIoErrorKind {
    UnexpectedEof,
    NotFound,
    InvalidInput,
    InvalidData,
    Other,
}

/// Errors produced while reading PMX data.
///
/// `UnsupportedVersion` carries the IEEE-754 bit pattern of the version field.
#[derive(Debug, Clone, Copy, PartialEq, Eq)]
pub enum PmxError {
    Io(PmxIoErrorKind),
    InvalidMagic([u8; 4]),
    UnsupportedVersion(u32),
    InvalidFormat(&'static str),
}

pub type PmxResult<T> = Result<T, PmxError>;

} // verus!
