//! What the filesystem is of a given object store: the meaning of each
//! operation, stated over the answers that the store gives.

use crate::error::FsError;
use crate::object::ObjectKind;
use crate::path::path_components;
use crate::tree::{list_names, lookup, EntryView};
use vstd::prelude::*;

verus! {

/// Whether a path ends at a file or at a directory.
#[derive(Clone, Copy, Debug, PartialEq, Eq, Structural)]
pub enum FileType {
    File,
    Directory,
}

/// What is known of the object at the end of a path.
#[derive(Clone, Copy, Debug, PartialEq, Eq, Structural)]
pub struct Metadata {
    /// File or directory.
    pub file_type: FileType,
    /// The length of a file in bytes; 0 for a directory.
    pub len: u64,
}

/// An object store, as far as the filesystem asks it: for each reference,
/// what the store answers when asked for the tree, the kind and the size of
/// the object. Nothing is assumed of how the three answers agree.
pub struct Store {
    pub trees: spec_fn(Seq<u8>) -> Result<Seq<EntryView>, std::io::Error>,
    pub kinds: spec_fn(Seq<u8>) -> Result<ObjectKind, std::io::Error>,
    pub sizes: spec_fn(Seq<u8>) -> Result<u64, std::io::Error>,
}

/// The object reached from `at` by looking up `names` one after the other,
/// each in the tree that the one before it named. Whatever keeps the store
/// from yielding a tree on the way ends the walk like a missing name.
pub open spec fn walk(store: Store, at: Seq<u8>, names: Seq<Seq<char>>) -> Option<Seq<u8>>
    decreases names.len(),
{
    if names.len() == 0 {
        Some(at)
    } else {
        match (store.trees)(at) {
            Ok(entries) => match lookup(entries, names[0]) {
                Some(id) => walk(store, id, names.skip(1)),
                None => None,
            },
            Err(_) => None,
        }
    }
}

/// The object that `path` names below `root`. A path with an empty
/// component, such as `a//b`, names nothing, whatever the store holds.
pub open spec fn resolve(store: Store, root: Seq<u8>, path: Seq<char>) -> Option<Seq<u8>> {
    let names = path_components(path);
    if names.contains(Seq::<char>::empty()) {
        None
    } else {
        walk(store, root, names)
    }
}

/// The reference of the object that `path` names.
pub open spec fn reference_at(store: Store, root: Seq<u8>, path: Seq<char>) -> Result<
    Seq<u8>,
    FsError,
> {
    match resolve(store, root, path) {
        Some(id) => Ok(id),
        None => Err(FsError::NotFound),
    }
}

/// Whether `path` names anything.
pub open spec fn exists_at(store: Store, root: Seq<u8>, path: Seq<char>) -> bool {
    resolve(store, root, path) is Some
}

/// The names in the directory that `path` names, in the order of the store.
pub open spec fn names_at(store: Store, root: Seq<u8>, path: Seq<char>) -> Result<
    Seq<Seq<char>>,
    FsError,
> {
    match resolve(store, root, path) {
        Some(id) => match (store.trees)(id) {
            Ok(entries) => list_names(entries),
            Err(e) => Err(FsError::Upstream(e)),
        },
        None => Err(FsError::NotFound),
    }
}

/// What the store knows of the object `id`: a blob is a file of the size
/// that the store reports, a tree is a directory of length 0, and anything
/// else is treated as if nothing were there.
pub open spec fn describe(store: Store, id: Seq<u8>) -> Result<Metadata, FsError> {
    match (store.kinds)(id) {
        Ok(ObjectKind::Tree) => Ok(Metadata { file_type: FileType::Directory, len: 0 }),
        Ok(ObjectKind::Blob) => match (store.sizes)(id) {
            Ok(len) => Ok(Metadata { file_type: FileType::File, len }),
            Err(e) => Err(FsError::Upstream(e)),
        },
        Ok(_) => Err(FsError::NotFound),
        Err(e) => Err(FsError::Upstream(e)),
    }
}

/// The metadata of what `path` names.
pub open spec fn metadata_at(store: Store, root: Seq<u8>, path: Seq<char>) -> Result<
    Metadata,
    FsError,
> {
    match resolve(store, root, path) {
        Some(id) => describe(store, id),
        None => Err(FsError::NotFound),
    }
}

} // verus!
