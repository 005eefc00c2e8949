//! A forward-only byte source where a source that can seek is asked for.

use crate::error::FsError;
use vstd::prelude::*;

verus! {

/// `std::io::SeekFrom`: where a seek is to go. The adapter never looks at it.
#[verifier::external_type_specification]
#[verifier::external_body]
pub struct ExSeekFrom(std::io::SeekFrom);

/// Wraps a source that can only be read forward, such as the content of a
/// blob as the store streams it. Reading is the source's own business;
/// seeking fails at once, so that nobody reads from a wrong offset.
#[derive(Debug)]
pub struct ReadFakeSeek<IO>(pub IO);

impl<IO> ReadFakeSeek<IO> {
    /// Wraps `source`.
    pub fn new(source: IO) -> (r: Self)
        ensures
            r.0 == source,
    {
        ReadFakeSeek(source)
    }

    /// Fails: the stream cannot seek, not even to where it stands. The
    /// source is left as it was.
    pub fn seek(&mut self, pos: std::io::SeekFrom) -> (r: Result<u64, FsError>)
        ensures
            r == Err::<u64, _>(FsError::SeekNotSupported),
            *final(self) == *old(self),
    {
        Err(FsError::SeekNotSupported)
    }

    /// The source, to read from.
    pub fn get_mut(&mut self) -> (r: &mut IO)
        ensures
            *r == old(self).0,
            final(self).0 == *final(r),
    {
        &mut self.0
    }

    /// Unwraps the source.
    pub fn into_inner(self) -> (r: IO)
        ensures
            r == self.0,
    {
        self.0
    }
}

} // verus!
