//! One operation of the filesystem as a dialogue with the object store.
//!
//! A `Query` never touches the store. It says which object it needs to know
//! what about, takes the store's reply, and says what it needs next, until
//! it has its answer. Whoever holds the store asks it and hands the replies
//! back; what the answer is for every reply is decided here.

use crate::error::FsError;
use crate::object::{ObjectId, ObjectKind};
use crate::path::{components, path_components, texts};
use crate::store::{FileType, Metadata, Store};
use crate::tree::{distinct_names, list_names, lookup, EntryView, TreeListing};
use vstd::prelude::*;

verus! {

/// The operations that read the filesystem.
#[derive(Clone, Copy, Debug, PartialEq, Eq, Structural)]
pub enum Operation {
    /// Find the object that a path names.
    Locate,
    /// List the names in a directory.
    ReadDir,
    /// Tell a file from a directory, and a file's length.
    Metadata,
    /// Tell whether a path names anything.
    Exists,
}

/// What a query needs to know of the store.
#[derive(Debug, PartialEq, Eq)]
pub enum Request {
    /// The entries of the tree with this reference.
    Tree(ObjectId),
    /// The kind of the object with this reference.
    Kind(ObjectId),
    /// The size of the blob with this reference.
    Size(ObjectId),
}

/// What a `Request` holds.
pub enum RequestView {
    Tree(Seq<u8>),
    Kind(Seq<u8>),
    Size(Seq<u8>),
}

impl View for Request {
    type V = RequestView;

    open spec fn view(&self) -> RequestView {
        match self {
            Request::Tree(id) => RequestView::Tree(id@),
            Request::Kind(id) => RequestView::Kind(id@),
            Request::Size(id) => RequestView::Size(id@),
        }
    }
}

/// What the store said to a request: the thing asked for, or its error.
#[derive(Debug)]
pub enum Reply {
    Tree(Result<TreeListing, std::io::Error>),
    Kind(Result<ObjectKind, std::io::Error>),
    Size(Result<u64, std::io::Error>),
}

/// What a `Reply` holds.
pub enum ReplyView {
    Tree(Result<Seq<EntryView>, std::io::Error>),
    Kind(Result<ObjectKind, std::io::Error>),
    Size(Result<u64, std::io::Error>),
}

impl View for Reply {
    type V = ReplyView;

    open spec fn view(&self) -> ReplyView {
        match self {
            Reply::Tree(Ok(listing)) => ReplyView::Tree(Ok(listing@)),
            Reply::Tree(Err(e)) => ReplyView::Tree(Err(*e)),
            Reply::Kind(kind) => ReplyView::Kind(*kind),
            Reply::Size(size) => ReplyView::Size(*size),
        }
    }
}

/// What an operation found.
#[derive(Debug, PartialEq, Eq)]
pub enum Answer {
    /// The object that the path names.
    Reference(ObjectId),
    /// The names in the directory, in the order of the store.
    Names(Vec<String>),
    /// File or directory, and the length.
    Metadata(Metadata),
    /// Whether the path names anything.
    Exists(bool),
}

/// What an `Answer` holds.
pub enum AnswerView {
    Reference(Seq<u8>),
    Names(Seq<Seq<char>>),
    Metadata(Metadata),
    Exists(bool),
}

impl View for Answer {
    type V = AnswerView;

    open spec fn view(&self) -> AnswerView {
        match self {
            Answer::Reference(id) => AnswerView::Reference(id@),
            Answer::Names(names) => AnswerView::Names(texts(names@)),
            Answer::Metadata(m) => AnswerView::Metadata(*m),
            Answer::Exists(b) => AnswerView::Exists(*b),
        }
    }
}

/// An outcome, with the answer as what it holds.
pub open spec fn outcome_view(r: Result<Answer, FsError>) -> Result<AnswerView, FsError> {
    match r {
        Ok(a) => Ok(a@),
        Err(e) => Err(e),
    }
}

/// How far a query has come.
pub enum StageView {
    /// On the way: at the tree `at`, with the component `next` to look up.
    Walk { at: Seq<u8>, next: nat },
    /// At the directory to list.
    List(Seq<u8>),
    /// At the object whose kind is to be told.
    Kind(Seq<u8>),
    /// At the blob whose size is to be told.
    Size(Seq<u8>),
    /// Finished.
    Done(Result<AnswerView, FsError>),
}

/// What a `Query` holds: the operation, the components of its path, and
/// how far it has come.
pub struct QueryView {
    pub op: Operation,
    pub names: Seq<Seq<char>>,
    pub stage: StageView,
}

/// Where an operation stands once its path is known to name `id`.
pub open spec fn arrived(op: Operation, id: Seq<u8>) -> StageView {
    match op {
        Operation::Locate => StageView::Done(Ok(AnswerView::Reference(id))),
        Operation::ReadDir => StageView::List(id),
        Operation::Metadata => StageView::Kind(id),
        Operation::Exists => StageView::Done(Ok(AnswerView::Exists(true))),
    }
}

/// Where an operation stands once its path is known to name nothing.
pub open spec fn lost(op: Operation) -> StageView {
    match op {
        Operation::Exists => StageView::Done(Ok(AnswerView::Exists(false))),
        _ => StageView::Done(Err(FsError::NotFound)),
    }
}

/// The answer of `ReadDir` to the store's reply for the directory.
pub open spec fn listed(fetched: Result<Seq<EntryView>, std::io::Error>) -> Result<
    AnswerView,
    FsError,
> {
    match fetched {
        Ok(entries) => match list_names(entries) {
            Ok(names) => Ok(AnswerView::Names(names)),
            Err(e) => Err(e),
        },
        Err(e) => Err(FsError::Upstream(e)),
    }
}

/// Where `Metadata` stands after the store's reply for the kind of `id`.
pub open spec fn classified(id: Seq<u8>, kind: Result<ObjectKind, std::io::Error>) -> StageView {
    match kind {
        Ok(ObjectKind::Tree) => StageView::Done(
            Ok(AnswerView::Metadata(Metadata { file_type: FileType::Directory, len: 0 })),
        ),
        Ok(ObjectKind::Blob) => StageView::Size(id),
        Ok(_) => StageView::Done(Err(FsError::NotFound)),
        Err(e) => StageView::Done(Err(FsError::Upstream(e))),
    }
}

/// The answer of `Metadata` to the store's reply for the size of a blob.
pub open spec fn measured(size: Result<u64, std::io::Error>) -> Result<AnswerView, FsError> {
    match size {
        Ok(len) => Ok(AnswerView::Metadata(Metadata { file_type: FileType::File, len })),
        Err(e) => Err(FsError::Upstream(e)),
    }
}

/// Whether `outcome` is one that `op` can come to: an answer of its own
/// kind, or one of the errors that it can meet on its way.
pub open spec fn conforms(op: Operation, outcome: Result<AnswerView, FsError>) -> bool {
    match (op, outcome) {
        (Operation::Locate, Ok(AnswerView::Reference(_))) => true,
        (Operation::Locate, Err(FsError::NotFound)) => true,
        (Operation::ReadDir, Ok(AnswerView::Names(names))) => names.no_duplicates(),
        (Operation::ReadDir, Err(FsError::NotFound)) => true,
        (Operation::ReadDir, Err(FsError::InvalidData)) => true,
        (Operation::ReadDir, Err(FsError::Upstream(_))) => true,
        (Operation::Metadata, Ok(AnswerView::Metadata(m))) => m.file_type == FileType::Directory
            ==> m.len == 0,
        (Operation::Metadata, Err(FsError::NotFound)) => true,
        (Operation::Metadata, Err(FsError::Upstream(_))) => true,
        (Operation::Exists, Ok(AnswerView::Exists(_))) => true,
        _ => false,
    }
}

/// Whether `stage` is one that `op` passes through on a path of `count`
/// components.
pub open spec fn staged(op: Operation, count: nat, stage: StageView) -> bool {
    match stage {
        StageView::Walk { at, next } => next < count,
        StageView::List(_) => op == Operation::ReadDir,
        StageView::Kind(_) => op == Operation::Metadata,
        StageView::Size(_) => op == Operation::Metadata,
        StageView::Done(outcome) => conforms(op, outcome),
    }
}

impl RequestView {
    /// Whether `reply` is of the kind that the request asks for.
    pub open spec fn answered_by(self, reply: ReplyView) -> bool {
        match (self, reply) {
            (RequestView::Tree(_), ReplyView::Tree(_)) => true,
            (RequestView::Kind(_), ReplyView::Kind(_)) => true,
            (RequestView::Size(_), ReplyView::Size(_)) => true,
            _ => false,
        }
    }
}

impl ReplyView {
    /// A reply that holds a tree holds no name twice.
    pub open spec fn wf(self) -> bool {
        self matches ReplyView::Tree(Ok(entries)) ==> distinct_names(entries)
    }
}

impl Store {
    /// What the store replies to a request.
    pub open spec fn reply(self, request: RequestView) -> ReplyView {
        match request {
            RequestView::Tree(id) => ReplyView::Tree((self.trees)(id)),
            RequestView::Kind(id) => ReplyView::Kind((self.kinds)(id)),
            RequestView::Size(id) => ReplyView::Size((self.sizes)(id)),
        }
    }
}

impl QueryView {
    /// The query that `op` begins with for `path` below `root`. A path with
    /// an empty component is lost before the store is asked anything, and
    /// a path without components has arrived at the root.
    pub open spec fn start(op: Operation, root: Seq<u8>, path: Seq<char>) -> QueryView {
        let names = path_components(path);
        QueryView {
            op,
            names,
            stage: if names.contains(Seq::<char>::empty()) {
                lost(op)
            } else if names.len() == 0 {
                arrived(op, root)
            } else {
                StageView::Walk { at: root, next: 0 }
            },
        }
    }

    /// What the query needs to know next; nothing once it is finished.
    pub open spec fn request(self) -> Option<RequestView> {
        match self.stage {
            StageView::Walk { at, next } => Some(RequestView::Tree(at)),
            StageView::List(id) => Some(RequestView::Tree(id)),
            StageView::Kind(id) => Some(RequestView::Kind(id)),
            StageView::Size(id) => Some(RequestView::Size(id)),
            StageView::Done(_) => None,
        }
    }

    /// Where the walk stands after the store's reply for the tree `at`.
    pub open spec fn walked(self, next: nat, fetched: Result<Seq<EntryView>, std::io::Error>)
        -> StageView {
        if next >= self.names.len() {
            lost(self.op)
        } else {
            match fetched {
                Ok(entries) => match lookup(entries, self.names[next as int]) {
                    Some(id) => if next + 1 == self.names.len() {
                        arrived(self.op, id)
                    } else {
                        StageView::Walk { at: id, next: next + 1 }
                    },
                    None => lost(self.op),
                },
                Err(_) => lost(self.op),
            }
        }
    }

    /// The query after `reply`. A reply to something that was not asked
    /// changes nothing.
    pub open spec fn step(self, reply: ReplyView) -> QueryView {
        QueryView {
            stage: match (self.stage, reply) {
                (StageView::Walk { at, next }, ReplyView::Tree(fetched)) => self.walked(
                    next,
                    fetched,
                ),
                (StageView::List(id), ReplyView::Tree(fetched)) => StageView::Done(listed(fetched)),
                (StageView::Kind(id), ReplyView::Kind(kind)) => classified(id, kind),
                (StageView::Size(id), ReplyView::Size(size)) => StageView::Done(measured(size)),
                _ => self.stage,
            },
            ..self
        }
    }

    /// The outcome of a finished query.
    pub open spec fn outcome(self) -> Option<Result<AnswerView, FsError>> {
        match self.stage {
            StageView::Done(r) => Some(r),
            _ => None,
        }
    }

    /// The query is at a stage of its operation.
    pub open spec fn wf(self) -> bool {
        staged(self.op, self.names.len(), self.stage)
    }

    /// A bound on the requests that the query can still make.
    pub open spec fn steps_left(self) -> nat {
        match self.stage {
            StageView::Walk { at, next } => if next < self.names.len() {
                (self.names.len() - next + 2) as nat
            } else {
                1
            },
            StageView::List(_) => 1,
            StageView::Kind(_) => 2,
            StageView::Size(_) => 1,
            StageView::Done(_) => 0,
        }
    }

    /// The query after each of `replies` in turn.
    pub open spec fn feed(self, replies: Seq<ReplyView>) -> QueryView
        decreases replies.len(),
    {
        if replies.len() == 0 {
            self
        } else {
            self.feed(replies.drop_last()).step(replies.last())
        }
    }

    /// Whether `replies` is a run of the dialogue: each reply is well-formed
    /// and replies to what the query asks at the time.
    pub open spec fn dialogue(self, replies: Seq<ReplyView>) -> bool
        decreases replies.len(),
    {
        replies.len() > 0 ==> {
            &&& self.dialogue(replies.drop_last())
            &&& replies.last().wf()
            &&& self.feed(replies.drop_last()).request() matches Some(request)
                && request.answered_by(replies.last())
        }
    }

    /// Whether `outcome` is what the query comes to in some run of the
    /// dialogue.
    pub open spec fn reaches(self, outcome: Result<AnswerView, FsError>) -> bool {
        exists|replies: Seq<ReplyView>|
            self.dialogue(replies) && (#[trigger] self.feed(replies)).outcome() == Some(outcome)
    }

    /// The outcome of the query when `store` replies to each request.
    pub open spec fn answer(self, store: Store) -> Result<AnswerView, FsError>
        decreases self.steps_left(),
    {
        match self.stage {
            StageView::Done(r) => r,
            _ => self.step(store.reply(self.request()->0)).answer(store),
        }
    }
}

/// How far a `Query` has come.
#[derive(Debug)]
enum Stage {
    Walk { at: ObjectId, next: usize },
    List(ObjectId),
    Kind(ObjectId),
    Size(ObjectId),
    Done(Result<Answer, FsError>),
}

impl View for Stage {
    type V = StageView;

    closed spec fn view(&self) -> StageView {
        match self {
            Stage::Walk { at, next } => StageView::Walk { at: at@, next: *next as nat },
            Stage::List(id) => StageView::List(id@),
            Stage::Kind(id) => StageView::Kind(id@),
            Stage::Size(id) => StageView::Size(id@),
            Stage::Done(r) => StageView::Done(outcome_view(*r)),
        }
    }
}

/// One operation on one path, from its first question to its answer.
#[derive(Debug)]
pub struct Query {
    op: Operation,
    names: Vec<String>,
    stage: Stage,
}

impl View for Query {
    type V = QueryView;

    closed spec fn view(&self) -> QueryView {
        QueryView { op: self.op, names: texts(self.names@), stage: self.stage@ }
    }
}

/// Where `op` stands once its path is known to name `id`.
fn stage_arrived(op: Operation, id: ObjectId) -> (r: Stage)
    ensures
        r@ == arrived(op, id@),
{
    match op {
        Operation::Locate => Stage::Done(Ok(Answer::Reference(id))),
        Operation::ReadDir => Stage::List(id),
        Operation::Metadata => Stage::Kind(id),
        Operation::Exists => Stage::Done(Ok(Answer::Exists(true))),
    }
}

/// Where `op` stands once its path is known to name nothing.
fn stage_lost(op: Operation) -> (r: Stage)
    ensures
        r@ == lost(op),
{
    match op {
        Operation::Exists => Stage::Done(Ok(Answer::Exists(false))),
        _ => Stage::Done(Err(FsError::NotFound)),
    }
}

/// Whether one of `names` is empty.
fn has_empty(names: &Vec<String>) -> (r: bool)
    ensures
        r == texts(names@).contains(Seq::<char>::empty()),
{
    let mut i: usize = 0;
    while i < names.len()
        invariant
            i <= names.len(),
            forall|k: int| 0 <= k < i ==> (#[trigger] texts(names@)[k]).len() != 0,
        decreases names.len() - i,
    {
        if names[i].as_str().is_empty() {
            assert(texts(names@)[i as int] =~= Seq::<char>::empty());
            return true;
        }
        i += 1;
    }
    false
}

impl Query {
    #[verifier::type_invariant]
    spec fn in_order(self) -> bool {
        staged(self.op, self.names@.len(), self.stage@)
    }

    /// Begins `op` for `path` below `root`.
    pub fn start(op: Operation, root: ObjectId, path: &str) -> (q: Query)
        ensures
            q@ == QueryView::start(op, root@, path@),
            q@.wf(),
    {
        let names = components(path);
        let stage = if has_empty(&names) {
            stage_lost(op)
        } else if names.len() == 0 {
            stage_arrived(op, root)
        } else {
            Stage::Walk { at: root, next: 0 }
        };
        Query { op, names, stage }
    }

    /// The operation that the query carries out.
    pub fn operation(&self) -> (op: Operation)
        ensures
            op == self@.op,
    {
        self.op
    }

    /// What the query needs to know next; nothing once it is finished.
    pub fn request(&self) -> (r: Option<Request>)
        ensures
            match r {
                Some(request) => self@.request() == Some(request@),
                None => self@.request() is None,
            },
    {
        match &self.stage {
            Stage::Walk { at, next } => Some(Request::Tree(at.clone())),
            Stage::List(id) => Some(Request::Tree(id.clone())),
            Stage::Kind(id) => Some(Request::Kind(id.clone())),
            Stage::Size(id) => Some(Request::Size(id.clone())),
            Stage::Done(_) => None,
        }
    }

    /// Takes the store's reply to the request and moves on. A reply to
    /// something that was not asked changes nothing.
    pub fn reply(self, reply: Reply) -> (q: Query)
        ensures
            q@ == self@.step(reply@),
            q@.wf(),
            reply@.wf(),
    {
        proof {
            use_type_invariant(&self);
            if let Reply::Tree(Ok(listing)) = &reply {
                use_type_invariant(listing);
                listing.lemma_invariant();
            }
        }
        let Query { op, names, stage } = self;
        let count = names.len();
        assert(staged(op, count as nat, stage@));
        let stage = match (stage, reply) {
            (Stage::Walk { at, next }, Reply::Tree(fetched)) => match fetched {
                Ok(listing) => match listing.lookup(names[next].as_str()) {
                    Some(id) => if next + 1 == count {
                        stage_arrived(op, id)
                    } else {
                        Stage::Walk { at: id, next: next + 1 }
                    },
                    None => stage_lost(op),
                },
                Err(_) => stage_lost(op),
            },
            (Stage::List(_), Reply::Tree(fetched)) => Stage::Done(
                match fetched {
                    Ok(listing) => match listing.names() {
                        Ok(found) => Ok(Answer::Names(found)),
                        Err(e) => Err(e),
                    },
                    Err(e) => Err(FsError::Upstream(e)),
                },
            ),
            (Stage::Kind(id), Reply::Kind(kind)) => match kind {
                Ok(ObjectKind::Tree) => Stage::Done(
                    Ok(Answer::Metadata(Metadata { file_type: FileType::Directory, len: 0 })),
                ),
                Ok(ObjectKind::Blob) => Stage::Size(id),
                Ok(_) => Stage::Done(Err(FsError::NotFound)),
                Err(e) => Stage::Done(Err(FsError::Upstream(e))),
            },
            (Stage::Size(_), Reply::Size(size)) => Stage::Done(
                match size {
                    Ok(len) => Ok(Answer::Metadata(Metadata { file_type: FileType::File, len })),
                    Err(e) => Err(FsError::Upstream(e)),
                },
            ),
            (stage, _) => stage,
        };
        Query { op, names, stage }
    }

    /// The outcome, once the query is finished; nothing before.
    pub fn finish(self) -> (r: Option<Result<Answer, FsError>>)
        ensures
            match r {
                Some(outcome) => self@.outcome() == Some(outcome_view(outcome)),
                None => self@.outcome() is None,
            },
            r matches Some(outcome) ==> conforms(self@.op, outcome_view(outcome)),
    {
        proof {
            use_type_invariant(&self);
        }
        match self.stage {
            Stage::Done(outcome) => Some(outcome),
            _ => None,
        }
    }
}

} // verus!
