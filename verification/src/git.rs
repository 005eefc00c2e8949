//! The object store: a git repository, read through `clgit`.
//!
//! Nothing here is proved. Each function makes one call into the store and
//! turns what comes back into the library's own values. What the store
//! answers depends on the repository on disk, so the contracts say only
//! what holds of every answer.

use crate::object::{is_id_len, CommitId, ObjectId, ObjectKind};
use crate::tree::{distinct_names, EntryName, TreeEntry, TreeListing};
use std::sync::Arc;
use vstd::prelude::*;

verus! {

/// `clgit::RepositoryCache`: a repository and what was read of it so far.
#[verifier::external_type_specification]
#[verifier::external_body]
pub struct ExRepositoryCache(clgit::RepositoryCache);

/// `clgit::RepositoryCache::commit`: reads the commit and hands out the
/// reference of its root tree, which has the length of a reference.
#[verifier::external_body]
pub(crate) fn read_root_tree(store: &Arc<clgit::RepositoryCache>, commit: &CommitId) -> (r: Result<
    ObjectId,
    std::io::Error,
>)
    ensures
        r matches Ok(id) ==> is_id_len(id@.len()),
{
    let hash = clgit::commit::Hash::from_bytes(commit.as_bytes())?;
    Ok(ObjectId { bytes: store.commit(&hash)?.tree.bytes().to_vec() })
}

/// `clgit::RepositoryCache::tree`: reads the tree and hands out its
/// entries in the order of the tree's map, which holds each name once.
/// Each entry's reference has the length of a reference.
#[verifier::external_body]
pub(crate) fn fetch_tree(store: &Arc<clgit::RepositoryCache>, id: &ObjectId) -> (r: Result<
    TreeListing,
    std::io::Error,
>)
    ensures
        r matches Ok(listing) ==> distinct_names(listing@),
        r matches Ok(listing) ==> forall|i: int|
            0 <= i < listing@.len() ==> is_id_len((#[trigger] listing@[i]).id.len()),
{
    let hash = clgit::tree::Hash::from_bytes(id.as_bytes())?;
    let tree = store.tree(&hash)?;
    let entries = tree.entries.iter().map(|(name, entry)| TreeEntry {
        name: match name.as_str() {
            Some(text) => EntryName::Text(text.to_owned()),
            None => EntryName::Raw(name.as_bytes().unwrap_or_default().to_vec()),
        },
        id: ObjectId { bytes: entry.hash.bytes().to_vec() },
    });
    Ok(TreeListing { entries: entries.collect() })
}

/// `clgit::Repository::cat_file_type`: asks the store of what kind the
/// object is.
#[verifier::external_body]
pub(crate) fn object_kind(store: &Arc<clgit::RepositoryCache>, id: &ObjectId) -> (r: Result<
    ObjectKind,
    std::io::Error,
>) {
    let hash = clgit::unknown::Hash::from_bytes(id.as_bytes())?;
    Ok(match store.repository.cat_file_type(&hash)? {
        clgit::FileType::Blob => ObjectKind::Blob,
        clgit::FileType::Tree => ObjectKind::Tree,
        clgit::FileType::Commit => ObjectKind::Commit,
        _ => ObjectKind::Other,
    })
}

/// `clgit::Repository::cat_file_size`: asks the store how many bytes the
/// blob holds.
#[verifier::external_body]
pub(crate) fn object_size(store: &Arc<clgit::RepositoryCache>, id: &ObjectId) -> (r: Result<
    u64,
    std::io::Error,
>) {
    let hash = clgit::blob::Hash::from_bytes(id.as_bytes())?;
    store.repository.cat_file_size(&hash)
}

} // verus!
