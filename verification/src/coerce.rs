//! Naming a commit by text, by bytes or by a reference.

use crate::error::HashParseError;
use crate::object::{parse_bytes, parse_hex, CommitId, ObjectId};
use vstd::prelude::*;
use vstd::utf8::encode_utf8;

verus! {

/// The outcome of naming a commit, with the reference as its bytes.
pub open spec fn named(r: Result<CommitId, HashParseError>) -> Result<Seq<u8>, HashParseError> {
    match r {
        Ok(id) => Ok(id@),
        Err(e) => Err(e),
    }
}

/// What can name a commit: hexadecimal text and runs of bytes, which are
/// checked, and references, which are taken as they are.
pub trait TryIntoCommitHash: Sized {
    /// The reference that `self` names, or why it names none.
    spec fn commit_hash(&self) -> Result<Seq<u8>, HashParseError>;

    /// Turns `self` into a commit reference.
    fn try_into_commit_hash(self) -> (r: Result<CommitId, HashParseError>)
        ensures
            named(r) == self.commit_hash(),
    ;
}

/// Reads a commit reference from hexadecimal digits.
fn commit_from_hex(text: &str) -> (r: Result<CommitId, HashParseError>)
    ensures
        named(r) == parse_hex(encode_utf8(text@)),
{
    match ObjectId::from_hex(text) {
        Ok(id) => Ok(id.cast_commit()),
        Err(e) => Err(e),
    }
}

/// Takes a commit reference from its bytes.
fn commit_from_bytes(src: &[u8]) -> (r: Result<CommitId, HashParseError>)
    ensures
        named(r) == parse_bytes(src@),
{
    match ObjectId::from_bytes(src) {
        Ok(id) => Ok(id.cast_commit()),
        Err(e) => Err(e),
    }
}

impl TryIntoCommitHash for &str {
    open spec fn commit_hash(&self) -> Result<Seq<u8>, HashParseError> {
        parse_hex(encode_utf8(self@))
    }

    fn try_into_commit_hash(self) -> (r: Result<CommitId, HashParseError>) {
        commit_from_hex(self)
    }
}

impl TryIntoCommitHash for String {
    open spec fn commit_hash(&self) -> Result<Seq<u8>, HashParseError> {
        parse_hex(encode_utf8(self@))
    }

    fn try_into_commit_hash(self) -> (r: Result<CommitId, HashParseError>) {
        commit_from_hex(self.as_str())
    }
}

impl TryIntoCommitHash for &String {
    open spec fn commit_hash(&self) -> Result<Seq<u8>, HashParseError> {
        parse_hex(encode_utf8(self@))
    }

    fn try_into_commit_hash(self) -> (r: Result<CommitId, HashParseError>) {
        commit_from_hex(self.as_str())
    }
}

impl TryIntoCommitHash for &[u8] {
    open spec fn commit_hash(&self) -> Result<Seq<u8>, HashParseError> {
        parse_bytes(self@)
    }

    fn try_into_commit_hash(self) -> (r: Result<CommitId, HashParseError>) {
        commit_from_bytes(self)
    }
}

impl TryIntoCommitHash for Vec<u8> {
    open spec fn commit_hash(&self) -> Result<Seq<u8>, HashParseError> {
        parse_bytes(self@)
    }

    fn try_into_commit_hash(self) -> (r: Result<CommitId, HashParseError>) {
        commit_from_bytes(self.as_slice())
    }
}

impl TryIntoCommitHash for &Vec<u8> {
    open spec fn commit_hash(&self) -> Result<Seq<u8>, HashParseError> {
        parse_bytes(self@)
    }

    fn try_into_commit_hash(self) -> (r: Result<CommitId, HashParseError>) {
        commit_from_bytes(self.as_slice())
    }
}

impl TryIntoCommitHash for CommitId {
    open spec fn commit_hash(&self) -> Result<Seq<u8>, HashParseError> {
        Ok(self@)
    }

    fn try_into_commit_hash(self) -> (r: Result<CommitId, HashParseError>) {
        Ok(self)
    }
}

impl TryIntoCommitHash for &CommitId {
    open spec fn commit_hash(&self) -> Result<Seq<u8>, HashParseError> {
        Ok(self@)
    }

    fn try_into_commit_hash(self) -> (r: Result<CommitId, HashParseError>) {
        Ok(self.clone())
    }
}

impl TryIntoCommitHash for ObjectId {
    open spec fn commit_hash(&self) -> Result<Seq<u8>, HashParseError> {
        Ok(self@)
    }

    fn try_into_commit_hash(self) -> (r: Result<CommitId, HashParseError>) {
        Ok(self.cast_commit())
    }
}

impl TryIntoCommitHash for &ObjectId {
    open spec fn commit_hash(&self) -> Result<Seq<u8>, HashParseError> {
        Ok(self@)
    }

    fn try_into_commit_hash(self) -> (r: Result<CommitId, HashParseError>) {
        Ok(self.clone().cast_commit())
    }
}

} // verus!
