//! The filesystem of one commit.

use crate::coerce::TryIntoCommitHash;
use crate::error::{FsError, HashParseError};
use crate::git::{fetch_tree, object_kind, object_size, read_root_tree};
use crate::laws::{lemma_finished_stays_always, lemma_reply_progress};
use crate::object::{CommitId, ObjectId};
use crate::path::{path_components, texts};
use crate::query::{
    conforms, outcome_view, Answer, AnswerView, Operation, Query, QueryView, Reply, ReplyView,
    Request,
};
use crate::store::{FileType, Metadata};
use std::sync::Arc;
use vstd::pervasive::unreached;
use vstd::prelude::*;

verus! {

/// A read-only filesystem over the tree of one commit.
///
/// It holds the repository that it reads and the root tree of the commit,
/// both fixed when it is made. It keeps nothing between calls: each call
/// walks its path from the root again.
pub struct CommitFS {
    src: Arc<clgit::RepositoryCache>,
    commit: CommitId,
    root: ObjectId,
}

/// The outcome of locating a path, with the reference as its bytes.
pub open spec fn as_reference(r: Result<ObjectId, FsError>) -> Result<AnswerView, FsError> {
    match r {
        Ok(id) => Ok(AnswerView::Reference(id@)),
        Err(e) => Err(e),
    }
}

/// The outcome of listing a directory, with the names as texts.
pub open spec fn as_names(r: Result<Vec<String>, FsError>) -> Result<AnswerView, FsError> {
    match r {
        Ok(names) => Ok(AnswerView::Names(texts(names@))),
        Err(e) => Err(e),
    }
}

/// The outcome of asking for metadata.
pub open spec fn as_metadata(r: Result<Metadata, FsError>) -> Result<AnswerView, FsError> {
    match r {
        Ok(m) => Ok(AnswerView::Metadata(m)),
        Err(e) => Err(e),
    }
}

impl CommitFS {
    /// The repository that the filesystem reads.
    pub closed spec fn store(&self) -> Arc<clgit::RepositoryCache> {
        self.src
    }

    /// The reference of the commit.
    pub closed spec fn commit(&self) -> Seq<u8> {
        self.commit@
    }

    /// The reference of the commit's root tree.
    pub closed spec fn root(&self) -> Seq<u8> {
        self.root@
    }

    /// Makes the filesystem of `commit` in `repository`. A `commit` that is
    /// no reference is refused before the repository is read; then the
    /// commit is read for its root tree, and what the store says of it
    /// decides.
    pub fn new<C: TryIntoCommitHash>(repository: Arc<clgit::RepositoryCache>, commit: C) -> (r:
        Result<CommitFS, FsError>)
        ensures
            match r {
                Ok(fs) => fs.store() == repository && commit.commit_hash() == Ok::<
                    _,
                    HashParseError,
                >(fs.commit()),
                Err(FsError::InvalidHash(e)) => commit.commit_hash() == Err::<Seq<u8>, _>(e),
                Err(FsError::Upstream(_)) => commit.commit_hash() is Ok,
                Err(_) => false,
            },
    {
        match commit.try_into_commit_hash() {
            Err(e) => Err(FsError::InvalidHash(e)),
            Ok(commit) => match read_root_tree(&repository, &commit) {
                Err(e) => Err(FsError::Upstream(e)),
                Ok(root) => Ok(CommitFS { src: repository, commit, root }),
            },
        }
    }

    /// Makes the filesystem of a commit whose root tree is known already.
    /// The store is not read.
    pub fn at_tree(repository: Arc<clgit::RepositoryCache>, commit: CommitId, root: ObjectId) -> (fs:
        CommitFS)
        ensures
            fs.store() == repository,
            fs.commit() == commit@,
            fs.root() == root@,
    {
        CommitFS { src: repository, commit, root }
    }

    /// The repository that the filesystem reads.
    pub fn repository(&self) -> (r: &Arc<clgit::RepositoryCache>)
        ensures
            *r == self.store(),
    {
        &self.src
    }

    /// The commit whose tree the filesystem shows.
    pub fn commit_id(&self) -> (r: &CommitId)
        ensures
            r@ == self.commit(),
    {
        &self.commit
    }

    /// The root tree of the commit.
    pub fn root_tree(&self) -> (r: &ObjectId)
        ensures
            r@ == self.root(),
    {
        &self.root
    }

    /// Puts each request of `query` to the store and hands the reply back,
    /// until the query has its outcome.
    fn run(&self, query: Query) -> (r: Result<Answer, FsError>)
        ensures
            query@.reaches(outcome_view(r)),
            conforms(query@.op, outcome_view(r)),
    {
        let ghost begun = query@;
        let ghost mut replies: Seq<ReplyView> = Seq::empty();
        let mut q = query;
        loop
            invariant
                begun == query@,
                q@ == begun.feed(replies),
                q@.op == begun.op,
                begun.dialogue(replies),
            decreases q@.steps_left(),
        {
            let reply = match q.request() {
                Some(Request::Tree(id)) => Reply::Tree(fetch_tree(&self.src, &id)),
                Some(Request::Kind(id)) => Reply::Kind(object_kind(&self.src, &id)),
                Some(Request::Size(id)) => Reply::Size(object_size(&self.src, &id)),
                None => {
                    return match q.finish() {
                        Some(outcome) => outcome,
                        None => unreached(),
                    };
                },
            };
            proof {
                lemma_reply_progress(q@, reply@);
                assert(replies.push(reply@).drop_last() =~= replies);
            }
            let ghost before = replies;
            q = q.reply(reply);
            proof {
                replies = before.push(reply@);
            }
        }
    }

    /// The object that `path` names: the root for a path without
    /// components, else what the walk through the trees of the store comes
    /// to. Nothing but `NotFound` can go wrong.
    pub fn hash_for_path(&self, path: &str) -> (r: Result<ObjectId, FsError>)
        ensures
            QueryView::start(Operation::Locate, self.root(), path@).reaches(as_reference(r)),
            path_components(path@).len() == 0 ==> as_reference(r) == Ok::<_, FsError>(
                AnswerView::Reference(self.root()),
            ),
            path_components(path@).contains(Seq::<char>::empty()) ==> r matches Err(
                FsError::NotFound,
            ),
            r matches Err(e) ==> e == FsError::NotFound,
    {
        let query = Query::start(Operation::Locate, self.root.clone(), path);
        proof {
            lemma_finished_stays_always(query@);
        }
        match self.run(query) {
            Ok(Answer::Reference(id)) => Ok(id),
            Ok(_) => unreached(),
            Err(e) => Err(e),
        }
    }

    /// The names in the directory that `path` names, each once, in the
    /// order of the store. A directory that holds a name that is no text
    /// is `InvalidData`; what the store reports when asked for the
    /// directory itself is handed on.
    pub fn read_dir(&self, path: &str) -> (r: Result<Vec<String>, FsError>)
        ensures
            QueryView::start(Operation::ReadDir, self.root(), path@).reaches(as_names(r)),
            r matches Ok(names) ==> texts(names@).no_duplicates(),
            r matches Err(e) ==> e is NotFound || e is InvalidData || e is Upstream,
            path_components(path@).contains(Seq::<char>::empty()) ==> r matches Err(
                FsError::NotFound,
            ),
    {
        let query = Query::start(Operation::ReadDir, self.root.clone(), path);
        proof {
            lemma_finished_stays_always(query@);
        }
        match self.run(query) {
            Ok(Answer::Names(names)) => Ok(names),
            Ok(_) => unreached(),
            Err(e) => Err(e),
        }
    }

    /// Whether `path` names a file or a directory, and how long the file
    /// is. A path that ends at a commit, as the entry of a nested
    /// repository does, or at an object of no known kind, is `NotFound`;
    /// what the store reports when asked for kind or size is handed on.
    pub fn metadata(&self, path: &str) -> (r: Result<Metadata, FsError>)
        ensures
            QueryView::start(Operation::Metadata, self.root(), path@).reaches(as_metadata(r)),
            r matches Ok(m) ==> (m.file_type == FileType::Directory ==> m.len == 0),
            r matches Err(e) ==> e is NotFound || e is Upstream,
            path_components(path@).contains(Seq::<char>::empty()) ==> r matches Err(
                FsError::NotFound,
            ),
    {
        let query = Query::start(Operation::Metadata, self.root.clone(), path);
        proof {
            lemma_finished_stays_always(query@);
        }
        match self.run(query) {
            Ok(Answer::Metadata(m)) => Ok(m),
            Ok(_) => unreached(),
            Err(e) => Err(e),
        }
    }

    /// Whether `path` names anything. The root always exists; a path with
    /// an empty component never does; whatever keeps the walk from its end
    /// counts as absence.
    pub fn path_exists(&self, path: &str) -> (found: bool)
        ensures
            QueryView::start(Operation::Exists, self.root(), path@).reaches(
                Ok(AnswerView::Exists(found)),
            ),
            path_components(path@).len() == 0 ==> found,
            path_components(path@).contains(Seq::<char>::empty()) ==> !found,
    {
        let query = Query::start(Operation::Exists, self.root.clone(), path);
        proof {
            lemma_finished_stays_always(query@);
        }
        match self.run(query) {
            Ok(Answer::Exists(found)) => found,
            _ => unreached(),
        }
    }

    /// Fails: the filesystem is read-only.
    pub fn create_dir(&self, path: &str) -> (r: Result<(), FsError>)
        ensures
            r == Err::<(), _>(FsError::NotSupported),
    {
        Err(FsError::NotSupported)
    }

    /// Fails: the filesystem is read-only.
    pub fn create_file(&self, path: &str) -> (r: Result<(), FsError>)
        ensures
            r == Err::<(), _>(FsError::NotSupported),
    {
        Err(FsError::NotSupported)
    }

    /// Fails: the filesystem is read-only.
    pub fn append_file(&self, path: &str) -> (r: Result<(), FsError>)
        ensures
            r == Err::<(), _>(FsError::NotSupported),
    {
        Err(FsError::NotSupported)
    }

    /// Fails: the filesystem is read-only.
    pub fn remove_file(&self, path: &str) -> (r: Result<(), FsError>)
        ensures
            r == Err::<(), _>(FsError::NotSupported),
    {
        Err(FsError::NotSupported)
    }

    /// Fails: the filesystem is read-only.
    pub fn remove_dir(&self, path: &str) -> (r: Result<(), FsError>)
        ensures
            r == Err::<(), _>(FsError::NotSupported),
    {
        Err(FsError::NotSupported)
    }

    /// Fails: the filesystem is read-only.
    pub fn copy_file(&self, src: &str, dst: &str) -> (r: Result<(), FsError>)
        ensures
            r == Err::<(), _>(FsError::NotSupported),
    {
        Err(FsError::NotSupported)
    }

    /// Fails: the filesystem is read-only.
    pub fn move_file(&self, src: &str, dst: &str) -> (r: Result<(), FsError>)
        ensures
            r == Err::<(), _>(FsError::NotSupported),
    {
        Err(FsError::NotSupported)
    }

    /// Fails: the filesystem is read-only.
    pub fn move_dir(&self, src: &str, dst: &str) -> (r: Result<(), FsError>)
        ensures
            r == Err::<(), _>(FsError::NotSupported),
    {
        Err(FsError::NotSupported)
    }
}

} // verus!
