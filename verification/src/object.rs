//! Object references, object kinds and directory listings.

use crate::error::HashParseError;
use vstd::prelude::*;
use vstd::utf8::encode_utf8;

verus! {

/// The lengths, in bytes, that an object reference can have.
pub open spec fn is_id_len(n: nat) -> bool {
    n == 20 || n == 32
}

/// The value of a hexadecimal digit, upper or lower case.
pub open spec fn hex_digit(b: u8) -> Option<u8> {
    if 0x30 <= b <= 0x39 {
        Some((b - 0x30) as u8)
    } else if 0x61 <= b <= 0x66 {
        Some((b - 0x61 + 10) as u8)
    } else if 0x41 <= b <= 0x46 {
        Some((b - 0x41 + 10) as u8)
    } else {
        None
    }
}

/// Whether `i` is the place of the first byte of `text` that is no
/// hexadecimal digit.
pub open spec fn is_first_bad_digit(text: Seq<u8>, i: int) -> bool {
    &&& 0 <= i < text.len()
    &&& hex_digit(text[i]) is None
    &&& forall|j: int| 0 <= j < i ==> hex_digit(#[trigger] text[j]) is Some
}

/// The bytes that the hexadecimal digits of `text` spell, two digits a byte.
pub open spec fn hex_bytes(text: Seq<u8>) -> Seq<u8> {
    Seq::new(
        text.len() / 2,
        |k: int| (hex_digit(text[2 * k])->0 * 16 + hex_digit(text[2 * k + 1])->0) as u8,
    )
}

/// What a text of 40 or 64 hexadecimal digits stands for, or why `text` is
/// no such text. The length is judged first.
pub open spec fn parse_hex(text: Seq<u8>) -> Result<Seq<u8>, HashParseError> {
    if text.len() != 40 && text.len() != 64 {
        Err(HashParseError::LengthMismatch)
    } else if exists|i: int| is_first_bad_digit(text, i) {
        let i = choose|i: int| is_first_bad_digit(text, i);
        Err(HashParseError::BadCharacter(text[i] as char))
    } else {
        Ok(hex_bytes(text))
    }
}

/// What a run of 20 or 32 bytes stands for, or why `src` is no such run.
pub open spec fn parse_bytes(src: Seq<u8>) -> Result<Seq<u8>, HashParseError> {
    if is_id_len(src.len()) {
        Ok(src)
    } else {
        Err(HashParseError::LengthMismatch)
    }
}

/// The outcome of reading a reference, with the reference as its bytes.
pub open spec fn parsed(r: Result<ObjectId, HashParseError>) -> Result<Seq<u8>, HashParseError> {
    match r {
        Ok(id) => Ok(id@),
        Err(e) => Err(e),
    }
}

/// A reference to an object of the store: the 20 or 32 bytes of its hash.
/// It says nothing of what kind of object it names; only the store knows.
#[derive(Debug, PartialEq, Eq)]
pub struct ObjectId {
    pub(crate) bytes: Vec<u8>,
}

impl View for ObjectId {
    type V = Seq<u8>;

    closed spec fn view(&self) -> Seq<u8> {
        self.bytes@
    }
}

impl Clone for ObjectId {
    fn clone(&self) -> (r: Self)
        ensures
            r@ == self@,
    {
        proof {
            use_type_invariant(self);
        }
        let bytes = self.bytes.clone();
        assert(bytes@ =~= self.bytes@);
        ObjectId { bytes }
    }
}

impl ObjectId {
    #[verifier::type_invariant]
    spec fn fixed_size(self) -> bool {
        is_id_len(self.bytes@.len())
    }

    /// Reads a reference from its 40 or 64 hexadecimal digits.
    pub fn from_hex(text: &str) -> (r: Result<ObjectId, HashParseError>)
        ensures
            parsed(r) == parse_hex(encode_utf8(text@)),
    {
        hash_from_str(text)
    }

    /// Takes a reference from its 20 or 32 bytes.
    pub fn from_bytes(src: &[u8]) -> (r: Result<ObjectId, HashParseError>)
        ensures
            parsed(r) == parse_bytes(src@),
    {
        hash_from_bytes(src)
    }

    /// The bytes of the reference.
    pub fn as_bytes(&self) -> (r: &[u8])
        ensures
            r@ == self@,
            is_id_len(r@.len()),
    {
        proof {
            use_type_invariant(self);
        }
        self.bytes.as_slice()
    }
}

/// `clgit::generic::Hash::from_str`, on a reference of unknown kind. The
/// text must be 40 or 64 bytes long, else the length is at fault; then each
/// byte must be a hexadecimal digit, else the first that is none is at
/// fault; the reference holds the bytes that the digits spell.
#[verifier::external_body]
fn hash_from_str(text: &str) -> (r: Result<ObjectId, HashParseError>)
    ensures
        parsed(r) == parse_hex(encode_utf8(text@)),
{
    match clgit::unknown::Hash::from_str(text) {
        Ok(hash) => Ok(ObjectId { bytes: hash.bytes().to_vec() }),
        Err(clgit::HashParseError::LengthMismatch) => Err(HashParseError::LengthMismatch),
        Err(clgit::HashParseError::BadCharacter(c)) => Err(HashParseError::BadCharacter(c)),
    }
}

/// `clgit::generic::Hash::from_bytes`, on a reference of unknown kind. A
/// run of 20 or 32 bytes is taken as it is; any other length is at fault.
#[verifier::external_body]
fn hash_from_bytes(src: &[u8]) -> (r: Result<ObjectId, HashParseError>)
    ensures
        parsed(r) == parse_bytes(src@),
{
    match clgit::unknown::Hash::from_bytes(src) {
        Ok(hash) => Ok(ObjectId { bytes: hash.bytes().to_vec() }),
        Err(clgit::HashParseError::LengthMismatch) => Err(HashParseError::LengthMismatch),
        Err(clgit::HashParseError::BadCharacter(c)) => Err(HashParseError::BadCharacter(c)),
    }
}

/// A reference that is taken to name a commit. Whether it does is for the
/// store to say when the commit is read.
#[derive(Debug, PartialEq, Eq)]
pub struct CommitId {
    pub(crate) id: ObjectId,
}

impl View for CommitId {
    type V = Seq<u8>;

    closed spec fn view(&self) -> Seq<u8> {
        self.id@
    }
}

impl Clone for CommitId {
    fn clone(&self) -> (r: Self)
        ensures
            r@ == self@,
    {
        CommitId { id: self.id.clone() }
    }
}

impl CommitId {
    /// The same reference without its kind.
    pub fn typeless(&self) -> (r: ObjectId)
        ensures
            r@ == self@,
    {
        self.id.clone()
    }

    /// The bytes of the reference.
    pub fn as_bytes(&self) -> (r: &[u8])
        ensures
            r@ == self@,
            is_id_len(r@.len()),
    {
        self.id.as_bytes()
    }
}

impl ObjectId {
    /// Takes the reference to name a commit, without asking the store.
    pub fn cast_commit(self) -> (r: CommitId)
        ensures
            r@ == self@,
    {
        CommitId { id: self }
    }
}

/// The kinds of object that the store tells apart.
#[derive(Clone, Copy, Debug, PartialEq, Eq, Structural)]
pub enum ObjectKind {
    /// The bytes of a file.
    Blob,
    /// A directory.
    Tree,
    /// A commit: where a tree holds one, another repository is nested.
    Commit,
    /// Anything else the store may name.
    Other,
}

} // verus!
