//! The ways in which an operation of the filesystem can fail.

use vstd::prelude::*;

verus! {

/// `std::io::Error`, carried through as the object store reported it.
#[verifier::external_type_specification]
#[verifier::external_body]
pub struct ExIoError(std::io::Error);

/// Why a text or a run of bytes is no object reference.
#[derive(Clone, Copy, Debug, PartialEq, Eq, Structural)]
pub enum HashParseError {
    /// Neither 20 nor 32 bytes, or neither 40 nor 64 hexadecimal digits.
    LengthMismatch,
    /// The first character that is no hexadecimal digit.
    BadCharacter(char),
}

/// Why an operation of the filesystem failed.
#[derive(Debug)]
pub enum FsError {
    /// The path names nothing: a component is missing on the way, is empty,
    /// is looked for in something that is no directory, or the path ends at
    /// an object that is neither file nor directory.
    NotFound,
    /// The operation would change the filesystem, which is read-only.
    NotSupported,
    /// A directory holds an entry whose name is no text.
    InvalidData,
    /// The commit was named by something that is no object reference.
    InvalidHash(HashParseError),
    /// The stream cannot seek.
    SeekNotSupported,
    /// The object store failed; its error is handed on as it came.
    Upstream(std::io::Error),
}

} // verus!
