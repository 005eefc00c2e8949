//! A read-only filesystem view of the tree recorded by one git commit.
//!
//! Paths are split into components, the components are walked through the
//! commit's trees, and the object that a path names is listed, described or
//! handed out for reading. Every decision of that walk is a verified function
//! of plain values; the few calls into the object store are trusted wrappers.
//!
//! - `path`: separators, trimming, splitting a path into components.
//! - `object`, `coerce`: object references, and what can name a commit.
//! - `tree`: directory listings, lookup by name.
//! - `store`: what each operation means of a given store.
//! - `query`: one operation as a dialogue of requests and replies.
//! - `laws`: the dialogue agrees with the meaning; what holds of every store.
//! - `git`: the calls into the repository.
//! - `commitfs`: the filesystem of a commit, which puts the requests of a
//!   query to the repository.
//! - `stream`: the adapter that reads forward and refuses to seek.

pub mod coerce;
pub mod commitfs;
pub mod error;
pub mod git;
pub mod laws;
pub mod object;
pub mod path;
pub mod query;
pub mod store;
pub mod stream;
pub mod tree;

pub use coerce::TryIntoCommitHash;
pub use commitfs::CommitFS;
pub use error::{FsError, HashParseError};
pub use object::{CommitId, ObjectId, ObjectKind};
pub use path::{components, is_path_sep};
pub use query::{Answer, Operation, Query, Reply, Request};
pub use store::{FileType, Metadata};
pub use stream::ReadFakeSeek;
pub use tree::{EntryName, TreeEntry, TreeListing};
