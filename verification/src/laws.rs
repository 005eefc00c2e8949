//! What holds of the filesystem whatever the store holds.

use crate::error::FsError;
use crate::object::ObjectKind;
use crate::path::{is_separator, path_components, trim, trim_end, trim_start};
use crate::query::{
    arrived, listed, lost, AnswerView, Operation, QueryView, ReplyView, RequestView, StageView,
};
use crate::store::{
    describe, exists_at, metadata_at, names_at, reference_at, resolve, walk, FileType, Metadata,
    Store,
};
use crate::tree::{all_text, distinct_names, lemma_names_differ, EntryView};
use vstd::prelude::*;

verus! {

/// What `op` makes of the object that the path names, if it names one.
pub open spec fn settled(op: Operation, store: Store, found: Option<Seq<u8>>) -> Result<
    AnswerView,
    FsError,
> {
    match found {
        Some(id) => match op {
            Operation::Locate => Ok(AnswerView::Reference(id)),
            Operation::ReadDir => listed((store.trees)(id)),
            Operation::Metadata => match describe(store, id) {
                Ok(m) => Ok(AnswerView::Metadata(m)),
                Err(e) => Err(e),
            },
            Operation::Exists => Ok(AnswerView::Exists(true)),
        },
        None => match op {
            Operation::Exists => Ok(AnswerView::Exists(false)),
            _ => Err(FsError::NotFound),
        },
    }
}

/// What `op` returns for `path` below `root` of `store`.
pub open spec fn operation_at(op: Operation, store: Store, root: Seq<u8>, path: Seq<char>)
    -> Result<AnswerView, FsError> {
    settled(op, store, resolve(store, root, path))
}

/// A query that has arrived at `id` comes to what its operation makes of
/// `id`.
proof fn lemma_arrived(q: QueryView, store: Store, id: Seq<u8>)
    requires
        q.stage == arrived(q.op, id),
    ensures
        q.answer(store) == settled(q.op, store, Some(id)),
{
    reveal_with_fuel(QueryView::answer, 4);
}

/// A query that is lost comes to what its operation makes of nothing.
proof fn lemma_lost(q: QueryView, store: Store)
    requires
        q.stage == lost(q.op),
    ensures
        q.answer(store) == settled(q.op, store, None),
{
}

/// A query on the way comes to what its operation makes of the end of
/// the walk.
proof fn lemma_on_the_way(q: QueryView, store: Store, at: Seq<u8>, next: nat)
    requires
        q.stage == (StageView::Walk { at, next }),
        next < q.names.len(),
    ensures
        q.answer(store) == settled(q.op, store, walk(store, at, q.names.skip(next as int))),
    decreases q.names.len() - next,
{
    reveal_with_fuel(walk, 2);
    let rest = q.names.skip(next as int);
    assert(rest[0] == q.names[next as int]);
    assert(rest.skip(1) =~= q.names.skip(next as int + 1));
    let after = q.step(store.reply(RequestView::Tree(at)));
    assert(q.answer(store) == after.answer(store));
    match (store.trees)(at) {
        Ok(entries) => match crate::tree::lookup(entries, q.names[next as int]) {
            Some(id) => {
                if next + 1 == q.names.len() {
                    assert(rest.skip(1).len() == 0);
                    lemma_arrived(after, store, id);
                } else {
                    lemma_on_the_way(after, store, id, next + 1);
                }
            },
            None => {
                lemma_lost(after, store);
            },
        },
        Err(_) => {
            lemma_lost(after, store);
        },
    }
}

/// Asked of a store, a query comes to what its operation means of that
/// store: the dialogue and the meaning agree, for every operation, path
/// and store.
pub proof fn theorem_query_answers(op: Operation, store: Store, root: Seq<u8>, path: Seq<char>)
    ensures
        QueryView::start(op, root, path).answer(store) == operation_at(op, store, root, path),
{
    let q = QueryView::start(op, root, path);
    let names = path_components(path);
    if names.contains(Seq::<char>::empty()) {
        lemma_lost(q, store);
    } else if names.len() == 0 {
        lemma_arrived(q, store, root);
    } else {
        assert(names.skip(0) =~= names);
        lemma_on_the_way(q, store, root, 0);
    }
}

/// Whether each of `replies` is what `store` says to the request that the
/// query makes at the time.
pub open spec fn told_by(q: QueryView, store: Store, replies: Seq<ReplyView>) -> bool
    decreases replies.len(),
{
    replies.len() > 0 ==> {
        &&& told_by(q, store, replies.drop_last())
        &&& q.feed(replies.drop_last()).request() matches Some(request) && replies.last()
            == store.reply(request)
    }
}

/// Replies that are the store's own do not change what a query comes to.
proof fn lemma_told_keeps_answer(q: QueryView, store: Store, replies: Seq<ReplyView>)
    requires
        told_by(q, store, replies),
    ensures
        q.feed(replies).answer(store) == q.answer(store),
    decreases replies.len(),
{
    if replies.len() > 0 {
        lemma_told_keeps_answer(q, store, replies.drop_last());
    }
}

/// Whoever puts each request of a query to a store and hands the reply
/// back ends with what the operation means of that store: no other outcome
/// can be reached that way.
pub proof fn theorem_faithful_run(
    op: Operation,
    store: Store,
    root: Seq<u8>,
    path: Seq<char>,
    replies: Seq<ReplyView>,
    outcome: Result<AnswerView, FsError>,
)
    requires
        told_by(QueryView::start(op, root, path), store, replies),
        QueryView::start(op, root, path).feed(replies).outcome() == Some(outcome),
    ensures
        outcome == operation_at(op, store, root, path),
{
    lemma_told_keeps_answer(QueryView::start(op, root, path), store, replies);
    theorem_query_answers(op, store, root, path);
}

/// The meaning of each operation, by its own name.
pub proof fn lemma_operations(store: Store, root: Seq<u8>, path: Seq<char>)
    ensures
        operation_at(Operation::Locate, store, root, path) == match reference_at(
            store,
            root,
            path,
        ) {
            Ok(id) => Ok::<_, FsError>(AnswerView::Reference(id)),
            Err(e) => Err(e),
        },
        operation_at(Operation::ReadDir, store, root, path) == match names_at(store, root, path) {
            Ok(names) => Ok::<_, FsError>(AnswerView::Names(names)),
            Err(e) => Err(e),
        },
        operation_at(Operation::Metadata, store, root, path) == match metadata_at(
            store,
            root,
            path,
        ) {
            Ok(m) => Ok::<_, FsError>(AnswerView::Metadata(m)),
            Err(e) => Err(e),
        },
        operation_at(Operation::Exists, store, root, path) == Ok::<_, FsError>(
            AnswerView::Exists(exists_at(store, root, path)),
        ),
{
}

/// Each reply to what was asked brings a query closer to its end.
pub proof fn lemma_reply_progress(q: QueryView, reply: ReplyView)
    requires
        q.request() matches Some(request) && request.answered_by(reply),
    ensures
        q.step(reply).steps_left() < q.steps_left(),
        q.step(reply).op == q.op,
        q.step(reply).names == q.names,
{
}

/// A finished query stays as it is, whatever it is told.
pub proof fn lemma_finished_stays(q: QueryView, replies: Seq<ReplyView>)
    requires
        q.stage is Done,
    ensures
        q.feed(replies) == q,
    decreases replies.len(),
{
    if replies.len() > 0 {
        lemma_finished_stays(q, replies.drop_last());
    }
}

/// A finished query stays as it is, whatever run of replies it is told.
pub proof fn lemma_finished_stays_always(q: QueryView)
    ensures
        q.stage is Done ==> forall|replies: Seq<ReplyView>| #[trigger] q.feed(replies) == q,
{
    if q.stage is Done {
        assert forall|replies: Seq<ReplyView>| #[trigger] q.feed(replies) == q by {
            lemma_finished_stays(q, replies);
        }
    }
}

/// A text of separators alone has no component.
pub proof fn lemma_separators_name_root(path: Seq<char>)
    requires
        forall|i: int| 0 <= i < path.len() ==> is_separator(#[trigger] path[i]),
    ensures
        path_components(path).len() == 0,
    decreases path.len(),
{
    if path.len() > 0 {
        let rest = path.skip(1);
        assert forall|i: int| 0 <= i < rest.len() implies is_separator(#[trigger] rest[i]) by {
            assert(rest[i] == path[i + 1]);
        }
        lemma_separators_name_root(rest);
        assert(trim_start(path) == trim_start(rest));
    } else {
        assert(trim_start(path) == path);
        assert(trim_end(path) == path);
    }
}

/// The root resolves, always: a path that is empty, `/`, `\`, or any run of
/// separators names the root tree of the commit, whatever the store holds,
/// and no operation asks the store on the way there.
pub proof fn law_root_resolves(store: Store, root: Seq<u8>, path: Seq<char>)
    requires
        forall|i: int| 0 <= i < path.len() ==> is_separator(#[trigger] path[i]),
    ensures
        resolve(store, root, path) == Some(root),
        reference_at(store, root, path) == Ok::<_, FsError>(root),
        exists_at(store, root, path),
        forall|op: Operation| #[trigger] QueryView::start(op, root, path).stage == arrived(op, root),
{
    lemma_separators_name_root(path);
    assert(!path_components(path).contains(Seq::<char>::empty()));
}

/// Listing a directory yields the names of its entries, each once, in the
/// order of the store. (A directory with a name that is no text is not
/// listed at all: that is `InvalidData`.)
pub proof fn law_read_dir_lists_entries(
    store: Store,
    root: Seq<u8>,
    path: Seq<char>,
    id: Seq<u8>,
    entries: Seq<EntryView>,
)
    requires
        resolve(store, root, path) == Some(id),
        (store.trees)(id) == Ok::<_, std::io::Error>(entries),
        distinct_names(entries),
        all_text(entries),
    ensures
        names_at(store, root, path) matches Ok(names) && {
            &&& names.len() == entries.len()
            &&& forall|i: int|
                0 <= i < entries.len() ==> (#[trigger] entries[i]).name
                    == crate::tree::NameView::Text(names[i])
            &&& names.no_duplicates()
        },
{
    lemma_names_differ(entries);
}

/// A file is as long as the store says the blob is that opening the file
/// reads: metadata and opening address the same object.
pub proof fn law_metadata_measures_opened_blob(
    store: Store,
    root: Seq<u8>,
    path: Seq<char>,
    len: u64,
)
    requires
        metadata_at(store, root, path) == Ok::<_, FsError>(
            Metadata { file_type: FileType::File, len },
        ),
    ensures
        reference_at(store, root, path) matches Ok(id) && (store.kinds)(id) == Ok::<
            _,
            std::io::Error,
        >(ObjectKind::Blob) && (store.sizes)(id) == Ok::<_, std::io::Error>(len),
{
}

/// A directory has length 0.
pub proof fn law_directory_is_empty(store: Store, root: Seq<u8>, path: Seq<char>)
    ensures
        metadata_at(store, root, path) matches Ok(m) ==> (m.file_type == FileType::Directory
            ==> m.len == 0),
{
}

/// Whatever has metadata exists; and what exists has metadata, unless the
/// store cannot describe the object that the path names (it is a commit or
/// of no known kind, or the store fails when asked).
pub proof fn law_exists_iff_metadata(store: Store, root: Seq<u8>, path: Seq<char>)
    ensures
        metadata_at(store, root, path) is Ok ==> exists_at(store, root, path),
        (resolve(store, root, path) matches Some(id) ==> describe(store, id) is Ok) ==> (exists_at(
            store,
            root,
            path,
        ) <==> metadata_at(store, root, path) is Ok),
{
}

/// A path with an empty component, such as `a//b`, names nothing.
pub proof fn law_empty_component_is_not_found(store: Store, root: Seq<u8>, path: Seq<char>)
    requires
        path_components(path).contains(Seq::<char>::empty()),
    ensures
        !exists_at(store, root, path),
        reference_at(store, root, path) == Err::<Seq<u8>, _>(FsError::NotFound),
        names_at(store, root, path) == Err::<Seq<Seq<char>>, _>(FsError::NotFound),
        metadata_at(store, root, path) == Err::<Metadata, _>(FsError::NotFound),
{
}

/// A path whose first component the root tree does not hold names nothing.
pub proof fn law_missing_component_is_not_found(store: Store, root: Seq<u8>, path: Seq<char>)
    requires
        path_components(path).len() > 0,
        match (store.trees)(root) {
            Ok(entries) => crate::tree::lookup(entries, path_components(path)[0]) is None,
            Err(_) => true,
        },
    ensures
        !exists_at(store, root, path),
        metadata_at(store, root, path) == Err::<Metadata, _>(FsError::NotFound),
{
}

/// An entry that names a commit, as a nested repository does, has no
/// metadata: it is not found, as if nothing were there.
pub proof fn law_nested_repository_is_not_found(
    store: Store,
    root: Seq<u8>,
    path: Seq<char>,
    id: Seq<u8>,
)
    requires
        resolve(store, root, path) == Some(id),
        (store.kinds)(id) == Ok::<_, std::io::Error>(ObjectKind::Commit),
    ensures
        metadata_at(store, root, path) == Err::<Metadata, _>(FsError::NotFound),
{
}

/// Separators at either end of a path change nothing.
pub proof fn law_trimming(path: Seq<char>)
    ensures
        path_components(seq!['/'] + path) == path_components(path),
        path_components(path.push('/')) == path_components(path),
        path_components(seq!['\\'] + path) == path_components(path),
        path_components(path.push('\\')) == path_components(path),
{
    let a = seq!['/'] + path;
    assert(a.skip(1) =~= path);
    let b = seq!['\\'] + path;
    assert(b.skip(1) =~= path);
    lemma_trim_start_push(path, '/');
    lemma_trim_start_push(path, '\\');
}

/// A separator after `s` is gone once `s` is trimmed at both ends.
proof fn lemma_trim_start_push(s: Seq<char>, c: char)
    requires
        is_separator(c),
    ensures
        trim(s.push(c)) == trim(s),
    decreases s.len(),
{
    let t = s.push(c);
    if s.len() > 0 && is_separator(s[0]) {
        assert(t.skip(1) =~= s.skip(1).push(c));
        lemma_trim_start_push(s.skip(1), c);
    } else if s.len() == 0 {
        assert(t.skip(1) =~= s);
        assert(trim_start(t) == trim_start(s));
    } else {
        assert(trim_start(t) == t);
        assert(trim_start(s) == s);
        assert(t.drop_last() =~= s);
    }
}

} // verus!
