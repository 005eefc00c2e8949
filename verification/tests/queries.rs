use std::io;
use vfs_clgit::{
    Answer, EntryName, FileType, FsError, Metadata, ObjectId, ObjectKind, Operation, Query, Reply,
    Request, TreeEntry, TreeListing,
};

fn id(n: u8) -> ObjectId {
    ObjectId::from_bytes(&[n; 20]).unwrap()
}

fn number(id: &ObjectId) -> u8 {
    id.as_bytes()[0]
}

fn text(name: &str, n: u8) -> TreeEntry {
    TreeEntry { name: EntryName::Text(name.to_string()), id: id(n) }
}

enum Object {
    Blob(u64),
    Tree(Vec<(&'static str, u8)>),
    RawTree,
    Commit,
    Other,
}

/// A store in memory. Object 0 is the root tree.
struct Memory {
    objects: Vec<(u8, Object)>,
    asked: usize,
}

fn failure(what: &str) -> io::Error {
    io::Error::new(io::ErrorKind::Other, what.to_string())
}

impl Memory {
    fn new(objects: Vec<(u8, Object)>) -> Memory {
        Memory { objects, asked: 0 }
    }

    fn object(&self, id: &ObjectId) -> Option<&Object> {
        self.objects.iter().find(|(n, _)| *n == number(id)).map(|(_, o)| o)
    }

    fn reply(&mut self, request: &Request) -> Reply {
        self.asked += 1;
        match request {
            Request::Tree(id) => Reply::Tree(match self.object(id) {
                Some(Object::Tree(entries)) => Ok(TreeListing::from_entries(
                    entries.iter().map(|(name, n)| text(name, *n)).collect(),
                )
                .unwrap()),
                Some(Object::RawTree) => Ok(TreeListing::from_entries(vec![
                    text("plain", 200),
                    TreeEntry { name: EntryName::Raw(vec![0xff, 0xfe]), id: self::id(201) },
                ])
                .unwrap()),
                Some(_) => Err(failure("not a tree")),
                None => Err(failure("no such object")),
            }),
            Request::Kind(id) => Reply::Kind(match self.object(id) {
                Some(Object::Blob(_)) => Ok(ObjectKind::Blob),
                Some(Object::Tree(_)) | Some(Object::RawTree) => Ok(ObjectKind::Tree),
                Some(Object::Commit) => Ok(ObjectKind::Commit),
                Some(Object::Other) => Ok(ObjectKind::Other),
                None => Err(failure("no kind")),
            }),
            Request::Size(id) => Reply::Size(match self.object(id) {
                Some(Object::Blob(len)) => Ok(*len),
                _ => Err(failure("no size")),
            }),
        }
    }

    fn run(&mut self, op: Operation, path: &str) -> Result<Answer, FsError> {
        self.asked = 0;
        let mut query = Query::start(op, id(0), path);
        assert_eq!(query.operation(), op);
        loop {
            match query.request() {
                Some(request) => {
                    let reply = self.reply(&request);
                    query = query.reply(reply);
                }
                None => return query.finish().unwrap(),
            }
        }
    }

    fn locate(&mut self, path: &str) -> Result<ObjectId, FsError> {
        match self.run(Operation::Locate, path)? {
            Answer::Reference(id) => Ok(id),
            other => panic!("{:?}", other),
        }
    }

    fn read_dir(&mut self, path: &str) -> Result<Vec<String>, FsError> {
        match self.run(Operation::ReadDir, path)? {
            Answer::Names(names) => Ok(names),
            other => panic!("{:?}", other),
        }
    }

    fn metadata(&mut self, path: &str) -> Result<Metadata, FsError> {
        match self.run(Operation::Metadata, path)? {
            Answer::Metadata(m) => Ok(m),
            other => panic!("{:?}", other),
        }
    }

    fn has(&mut self, path: &str) -> bool {
        match self.run(Operation::Exists, path) {
            Ok(Answer::Exists(found)) => found,
            other => panic!("{:?}", other),
        }
    }
}

/// README (42 bytes), src/main.x, src/deep/inner.txt, a/b, a nested
/// repository `sub`, an object of unknown kind `odd`, an entry `gone` whose
/// object the store lacks, a directory `raw` with a name that is no text.
fn sample() -> Memory {
    Memory::new(vec![
        (
            0,
            Object::Tree(vec![
                ("README", 1),
                ("src", 2),
                ("a", 5),
                ("sub", 7),
                ("odd", 8),
                ("gone", 9),
                ("raw", 10),
                ("empty", 11),
            ]),
        ),
        (1, Object::Blob(42)),
        (2, Object::Tree(vec![("main.x", 3), ("deep", 4)])),
        (3, Object::Blob(7)),
        (4, Object::Tree(vec![("inner.txt", 12)])),
        (5, Object::Tree(vec![("b", 6)])),
        (6, Object::Blob(0)),
        (7, Object::Commit),
        (8, Object::Other),
        (10, Object::RawTree),
        (11, Object::Tree(vec![])),
        (12, Object::Blob(u64::MAX)),
    ])
}

const FILE_42: Metadata = Metadata { file_type: FileType::File, len: 42 };
const DIRECTORY: Metadata = Metadata { file_type: FileType::Directory, len: 0 };

#[test]
fn readme_is_a_file_of_42_bytes() {
    let mut store = sample();
    assert_eq!(store.metadata("README").unwrap(), FILE_42);
}

#[test]
fn separators_at_the_ends_change_nothing() {
    let mut store = sample();
    assert_eq!(store.metadata("/README").unwrap(), FILE_42);
    assert_eq!(store.metadata("README/").unwrap(), FILE_42);
    assert_eq!(store.metadata("\\README\\").unwrap(), FILE_42);
    assert_eq!(store.locate("//src/main.x//").unwrap(), store.locate("src/main.x").unwrap());
}

#[test]
fn subtree_lists_its_entry() {
    let mut store = Memory::new(vec![
        (0, Object::Tree(vec![("src", 2)])),
        (2, Object::Tree(vec![("main.x", 3)])),
        (3, Object::Blob(7)),
    ]);
    assert_eq!(store.read_dir("src").unwrap(), vec!["main.x"]);
    assert_eq!(store.metadata("src").unwrap(), DIRECTORY);
    assert!(!store.has("src/missing.x"));
}

#[test]
fn inner_empty_component_is_not_found() {
    let mut store = sample();
    assert!(store.has("a/b"));
    assert!(matches!(store.locate("a//b"), Err(FsError::NotFound)));
    assert!(matches!(store.metadata("a//b"), Err(FsError::NotFound)));
    assert!(matches!(store.read_dir("a//b"), Err(FsError::NotFound)));
    assert!(!store.has("a//b"));
    assert!(!store.has("a/\\b"));
}

#[test]
fn empty_component_is_refused_before_the_store_is_asked() {
    let mut store = sample();
    assert!(matches!(store.metadata("missing//b"), Err(FsError::NotFound)));
    assert_eq!(store.asked, 0);
    assert!(!store.has("a//b"));
    assert_eq!(store.asked, 0);
}

#[test]
fn nested_repository_is_not_found() {
    let mut store = sample();
    assert!(matches!(store.metadata("sub"), Err(FsError::NotFound)));
    assert!(matches!(store.metadata("/sub/"), Err(FsError::NotFound)));
}

#[test]
fn object_of_unknown_kind_is_not_found() {
    let mut store = sample();
    assert!(matches!(store.metadata("odd"), Err(FsError::NotFound)));
}

#[test]
fn nested_repository_exists_though_it_has_no_metadata() {
    let mut store = sample();
    assert!(store.has("sub"));
    assert_eq!(store.locate("sub").unwrap(), id(7));
}

#[test]
fn root_resolves_whatever_the_store_holds() {
    for mut store in [sample(), Memory::new(vec![]), Memory::new(vec![(0, Object::Blob(1))])] {
        for path in ["", "/", "\\", "//", "\\/\\"] {
            assert_eq!(store.locate(path).unwrap(), id(0));
            assert_eq!(store.asked, 0);
            assert!(store.has(path));
            assert_eq!(store.asked, 0);
        }
    }
}

#[test]
fn root_is_a_directory() {
    let mut store = sample();
    assert_eq!(store.metadata("").unwrap(), DIRECTORY);
    assert_eq!(store.metadata("/").unwrap(), DIRECTORY);
    assert_eq!(store.asked, 1);
}

#[test]
fn root_lists_its_entries_in_the_order_of_the_store() {
    let mut store = sample();
    assert_eq!(
        store.read_dir("/").unwrap(),
        vec!["README", "src", "a", "sub", "odd", "gone", "raw", "empty"]
    );
}

#[test]
fn listed_names_are_those_of_the_tree_each_once() {
    let mut store = sample();
    let names = store.read_dir("src").unwrap();
    assert_eq!(names, vec!["main.x", "deep"]);
    let mut sorted = names.clone();
    sorted.sort();
    sorted.dedup();
    assert_eq!(sorted.len(), names.len());
}

#[test]
fn empty_directory_lists_nothing() {
    let mut store = sample();
    assert_eq!(store.read_dir("empty").unwrap(), Vec::<String>::new());
    assert_eq!(store.metadata("empty").unwrap(), DIRECTORY);
}

#[test]
fn deep_path_resolves() {
    let mut store = sample();
    assert_eq!(store.locate("src/deep/inner.txt").unwrap(), id(12));
    assert_eq!(store.asked, 3);
    assert_eq!(
        store.metadata("src\\deep\\inner.txt").unwrap(),
        Metadata { file_type: FileType::File, len: u64::MAX }
    );
    assert_eq!(store.asked, 5);
}

#[test]
fn empty_file_has_length_zero() {
    let mut store = sample();
    assert_eq!(store.metadata("a/b").unwrap(), Metadata { file_type: FileType::File, len: 0 });
}

#[test]
fn missing_name_is_not_found() {
    let mut store = sample();
    assert!(matches!(store.locate("missing"), Err(FsError::NotFound)));
    assert!(matches!(store.metadata("src/missing.x"), Err(FsError::NotFound)));
    assert!(matches!(store.read_dir("src/deep/nothing"), Err(FsError::NotFound)));
    assert!(!store.has("readme"));
}

#[test]
fn walk_stops_at_the_first_missing_name() {
    let mut store = sample();
    assert!(matches!(store.locate("missing/x/y/z"), Err(FsError::NotFound)));
    assert_eq!(store.asked, 1);
}

#[test]
fn nothing_lies_below_a_file() {
    let mut store = sample();
    assert!(matches!(store.locate("README/x"), Err(FsError::NotFound)));
    assert!(!store.has("README/x"));
    assert!(matches!(store.metadata("src/main.x/y"), Err(FsError::NotFound)));
}

#[test]
fn dots_are_looked_up_as_names() {
    let mut store = sample();
    assert!(matches!(store.locate("."), Err(FsError::NotFound)));
    assert!(matches!(store.locate(".."), Err(FsError::NotFound)));
    assert!(matches!(store.locate("src/.."), Err(FsError::NotFound)));
    assert!(matches!(store.metadata("src/./main.x"), Err(FsError::NotFound)));
    let mut dotted = Memory::new(vec![(0, Object::Tree(vec![("..", 1)])), (1, Object::Blob(3))]);
    assert_eq!(dotted.locate("..").unwrap(), id(1));
}

#[test]
fn listing_a_file_hands_the_store_error_on() {
    let mut store = sample();
    match store.read_dir("README") {
        Err(FsError::Upstream(e)) => assert_eq!(e.to_string(), "not a tree"),
        other => panic!("{:?}", other),
    }
}

#[test]
fn listing_a_directory_with_a_raw_name_is_invalid_data() {
    let mut store = sample();
    assert!(matches!(store.read_dir("raw"), Err(FsError::InvalidData)));
}

#[test]
fn raw_name_hides_nothing_else() {
    let mut store = sample();
    assert_eq!(store.locate("raw/plain").unwrap(), id(200));
}

#[test]
fn dangling_entry_exists_but_has_no_metadata() {
    let mut store = sample();
    assert!(store.has("gone"));
    match store.metadata("gone") {
        Err(FsError::Upstream(e)) => assert_eq!(e.to_string(), "no kind"),
        other => panic!("{:?}", other),
    }
    match store.read_dir("gone") {
        Err(FsError::Upstream(e)) => assert_eq!(e.to_string(), "no such object"),
        other => panic!("{:?}", other),
    }
}

#[test]
fn size_error_is_handed_on() {
    let query = Query::start(Operation::Metadata, id(0), "");
    let query = query.reply(Reply::Kind(Ok(ObjectKind::Blob)));
    assert_eq!(query.request(), Some(Request::Size(id(0))));
    let query = query.reply(Reply::Size(Err(failure("disk on fire"))));
    match query.finish() {
        Some(Err(FsError::Upstream(e))) => {
            assert_eq!(e.kind(), io::ErrorKind::Other);
            assert_eq!(e.to_string(), "disk on fire");
        }
        other => panic!("{:?}", other),
    }
}

#[test]
fn exists_agrees_with_metadata_where_the_store_can_describe() {
    let mut store = sample();
    for path in ["", "README", "src", "src/main.x", "src/deep", "a/b", "nope", "src/nope", "a//b"] {
        let found = store.has(path);
        assert_eq!(found, store.metadata(path).is_ok(), "{}", path);
    }
}

#[test]
fn metadata_measures_the_blob_that_is_located() {
    let mut store = sample();
    for path in ["README", "src/main.x", "a/b"] {
        let located = store.locate(path).unwrap();
        let len = match store.object(&located) {
            Some(Object::Blob(len)) => *len,
            _ => panic!("{}", path),
        };
        assert_eq!(store.metadata(path).unwrap(), Metadata { file_type: FileType::File, len });
    }
}

#[test]
fn query_asks_for_the_root_tree_first() {
    let query = Query::start(Operation::Locate, id(9), "x/y");
    assert_eq!(query.request(), Some(Request::Tree(id(9))));
    assert!(query.finish().is_none());
}

#[test]
fn query_follows_the_entry_it_found() {
    let query = Query::start(Operation::ReadDir, id(0), "x/y");
    let listing = TreeListing::from_entries(vec![text("w", 1), text("x", 2)]).unwrap();
    let query = query.reply(Reply::Tree(Ok(listing)));
    assert_eq!(query.request(), Some(Request::Tree(id(2))));
    let listing = TreeListing::from_entries(vec![text("y", 3)]).unwrap();
    let query = query.reply(Reply::Tree(Ok(listing)));
    assert_eq!(query.request(), Some(Request::Tree(id(3))));
    let listing = TreeListing::from_entries(vec![text("one", 4), text("two", 5)]).unwrap();
    let query = query.reply(Reply::Tree(Ok(listing)));
    assert_eq!(query.request(), None);
    assert_eq!(
        query.finish().unwrap().unwrap(),
        Answer::Names(vec!["one".to_string(), "two".to_string()])
    );
}

#[test]
fn metadata_asks_for_kind_then_size() {
    let query = Query::start(Operation::Metadata, id(0), "f");
    let listing = TreeListing::from_entries(vec![text("f", 1)]).unwrap();
    let query = query.reply(Reply::Tree(Ok(listing)));
    assert_eq!(query.request(), Some(Request::Kind(id(1))));
    let query = query.reply(Reply::Kind(Ok(ObjectKind::Blob)));
    assert_eq!(query.request(), Some(Request::Size(id(1))));
    let query = query.reply(Reply::Size(Ok(5)));
    assert_eq!(query.request(), None);
    assert_eq!(
        query.finish().unwrap().unwrap(),
        Answer::Metadata(Metadata { file_type: FileType::File, len: 5 })
    );
}

#[test]
fn directory_needs_no_size() {
    let query = Query::start(Operation::Metadata, id(0), "");
    let query = query.reply(Reply::Kind(Ok(ObjectKind::Tree)));
    assert_eq!(query.request(), None);
    assert_eq!(query.finish().unwrap().unwrap(), Answer::Metadata(DIRECTORY));
}

#[test]
fn reply_to_what_was_not_asked_changes_nothing() {
    let query = Query::start(Operation::Metadata, id(0), "f");
    let query = query.reply(Reply::Size(Ok(5)));
    let query = query.reply(Reply::Kind(Ok(ObjectKind::Tree)));
    assert_eq!(query.request(), Some(Request::Tree(id(0))));
    let query = Query::start(Operation::Metadata, id(0), "");
    let query = query.reply(Reply::Tree(Err(failure("unasked"))));
    let query = query.reply(Reply::Size(Ok(5)));
    assert_eq!(query.request(), Some(Request::Kind(id(0))));
}

#[test]
fn finished_query_stays_finished() {
    let query = Query::start(Operation::Exists, id(0), "");
    let query = query.reply(Reply::Tree(Err(failure("late"))));
    let query = query.reply(Reply::Kind(Ok(ObjectKind::Commit)));
    assert_eq!(query.request(), None);
    assert_eq!(query.finish().unwrap().unwrap(), Answer::Exists(true));
}

#[test]
fn failing_tree_on_the_way_is_not_found() {
    let query = Query::start(Operation::Locate, id(0), "x/y");
    let query = query.reply(Reply::Tree(Err(failure("corrupt"))));
    assert_eq!(query.request(), None);
    assert!(matches!(query.finish(), Some(Err(FsError::NotFound))));
    let query = Query::start(Operation::Exists, id(0), "x");
    let query = query.reply(Reply::Tree(Err(failure("corrupt"))));
    assert_eq!(query.finish().unwrap().unwrap(), Answer::Exists(false));
}
