//! Directory listings: the entries of one tree, in the order of the store.

use crate::error::FsError;
use crate::object::ObjectId;
use crate::path::texts;
use vstd::prelude::*;

verus! {

/// The name of a directory entry. Most names are text; a name that is not
/// is kept as the bytes it was stored with.
#[derive(Debug, PartialEq, Eq)]
pub enum EntryName {
    /// A name that is text.
    Text(String),
    /// A name that is no text.
    Raw(Vec<u8>),
}

/// What an `EntryName` holds.
pub enum NameView {
    Text(Seq<char>),
    Raw(Seq<u8>),
}

impl View for EntryName {
    type V = NameView;

    open spec fn view(&self) -> NameView {
        match self {
            EntryName::Text(s) => NameView::Text(s@),
            EntryName::Raw(b) => NameView::Raw(b@),
        }
    }
}

/// One entry of a directory: a name and the object that it names.
#[derive(Debug, PartialEq, Eq)]
pub struct TreeEntry {
    pub name: EntryName,
    pub id: ObjectId,
}

/// What a `TreeEntry` holds.
pub struct EntryView {
    pub name: NameView,
    pub id: Seq<u8>,
}

impl View for TreeEntry {
    type V = EntryView;

    open spec fn view(&self) -> EntryView {
        EntryView { name: self.name@, id: self.id@ }
    }
}

/// The entries that a vector of entries holds.
pub open spec fn entry_views(v: Seq<TreeEntry>) -> Seq<EntryView> {
    Seq::new(v.len(), |i: int| v[i]@)
}

/// No two entries have the same name.
pub open spec fn distinct_names(entries: Seq<EntryView>) -> bool {
    forall|i: int, j: int|
        0 <= i < j < entries.len() ==> (#[trigger] entries[i]).name != (#[trigger] entries[j]).name
}

/// The object that the first entry with the text name `name` names.
pub open spec fn lookup(entries: Seq<EntryView>, name: Seq<char>) -> Option<Seq<u8>>
    decreases entries.len(),
{
    if entries.len() == 0 {
        None
    } else if entries[0].name == NameView::Text(name) {
        Some(entries[0].id)
    } else {
        lookup(entries.skip(1), name)
    }
}

/// Every entry has a name that is text.
pub open spec fn all_text(entries: Seq<EntryView>) -> bool {
    forall|i: int| 0 <= i < entries.len() ==> (#[trigger] entries[i]).name is Text
}

/// The names of the entries, in their order.
pub open spec fn text_names(entries: Seq<EntryView>) -> Seq<Seq<char>> {
    Seq::new(entries.len(), |i: int| entries[i].name->Text_0)
}

/// What listing a directory yields: the names of its entries in their
/// order, unless one of them is no text.
pub open spec fn list_names(entries: Seq<EntryView>) -> Result<Seq<Seq<char>>, FsError> {
    if all_text(entries) {
        Ok(text_names(entries))
    } else {
        Err(FsError::InvalidData)
    }
}

/// The entries of one tree, in the order in which the store yields them.
/// No two entries of a listing have the same name.
#[derive(Debug, PartialEq, Eq)]
pub struct TreeListing {
    pub(crate) entries: Vec<TreeEntry>,
}

impl View for TreeListing {
    type V = Seq<EntryView>;

    closed spec fn view(&self) -> Seq<EntryView> {
        entry_views(self.entries@)
    }
}

/// Whether two runs of bytes are the same.
fn same_bytes(a: &Vec<u8>, b: &Vec<u8>) -> (r: bool)
    ensures
        r == (a@ == b@),
{
    if a.len() != b.len() {
        return false;
    }
    let mut i: usize = 0;
    while i < a.len()
        invariant
            i <= a.len() == b.len(),
            forall|k: int| 0 <= k < i ==> a@[k] == b@[k],
        decreases a.len() - i,
    {
        if a[i] != b[i] {
            return false;
        }
        i += 1;
    }
    assert(a@ =~= b@);
    true
}

/// Whether two names are the same.
fn same_name(a: &EntryName, b: &EntryName) -> (r: bool)
    ensures
        r == (a@ == b@),
{
    match (a, b) {
        (EntryName::Text(x), EntryName::Text(y)) => *x == *y,
        (EntryName::Raw(x), EntryName::Raw(y)) => same_bytes(x, y),
        _ => false,
    }
}

/// In a listing of distinct names, the entry at `i` is the one that
/// `lookup` finds for its name.
pub proof fn lemma_lookup_finds(entries: Seq<EntryView>, i: int)
    requires
        distinct_names(entries),
        0 <= i < entries.len(),
        entries[i].name is Text,
    ensures
        lookup(entries, entries[i].name->Text_0) == Some(entries[i].id),
    decreases i,
{
    if i > 0 {
        let rest = entries.skip(1);
        assert(entries[0].name != entries[i].name);
        assert forall|a: int, b: int| 0 <= a < b < rest.len() implies (#[trigger] rest[a]).name != (
        #[trigger] rest[b]).name by {
            assert(rest[a] == entries[a + 1]);
            assert(rest[b] == entries[b + 1]);
        }
        assert(rest[i - 1] == entries[i]);
        lemma_lookup_finds(rest, i - 1);
    }
}

/// `lookup` finds an object exactly when some entry has the name, and the
/// object is that of such an entry.
pub proof fn lemma_lookup_some(entries: Seq<EntryView>, name: Seq<char>)
    ensures
        lookup(entries, name) is Some <==> exists|i: int|
            0 <= i < entries.len() && (#[trigger] entries[i]).name == NameView::Text(name),
        lookup(entries, name) is Some ==> exists|i: int|
            0 <= i < entries.len() && #[trigger] entries[i] == (EntryView {
                name: NameView::Text(name),
                id: lookup(entries, name)->0,
            }),
    decreases entries.len(),
{
    if entries.len() > 0 {
        if entries[0].name == NameView::Text(name) {
            assert(entries[0] == (EntryView { name: NameView::Text(name), id: entries[0].id }));
        } else {
            let rest = entries.skip(1);
            lemma_lookup_some(rest, name);
            if lookup(rest, name) is Some {
                let i = choose|i: int|
                    0 <= i < rest.len() && #[trigger] rest[i] == (EntryView {
                        name: NameView::Text(name),
                        id: lookup(rest, name)->0,
                    });
                assert(entries[i + 1] == rest[i]);
            }
            if exists|i: int|
                0 <= i < entries.len() && (#[trigger] entries[i]).name == NameView::Text(name) {
                let i = choose|i: int|
                    0 <= i < entries.len() && (#[trigger] entries[i]).name == NameView::Text(name);
                assert(rest[i - 1] == entries[i]);
            }
        }
    }
}

/// Distinct names that are all text are distinct texts.
pub proof fn lemma_names_differ(entries: Seq<EntryView>)
    requires
        distinct_names(entries),
        all_text(entries),
    ensures
        text_names(entries).no_duplicates(),
{
    let names = text_names(entries);
    assert forall|i: int, j: int|
        0 <= i < names.len() && 0 <= j < names.len() && i != j implies names[i] != names[j] by {
        if i < j {
            assert(entries[i].name != entries[j].name);
        } else {
            assert(entries[j].name != entries[i].name);
        }
    }
}

impl TreeListing {
    /// What holds of every listing: no two entries have the same name.
    #[verifier::type_invariant]
    pub closed spec fn names_differ(self) -> bool {
        distinct_names(entry_views(self.entries@))
    }

    /// What `names_differ` says of the entries that the listing holds.
    pub proof fn lemma_invariant(self)
        requires
            self.names_differ(),
        ensures
            distinct_names(self@),
    {
    }

    /// Makes a listing of `entries`, in their order, if no two of them have
    /// the same name.
    pub fn from_entries(entries: Vec<TreeEntry>) -> (r: Option<TreeListing>)
        ensures
            r is Some <==> distinct_names(entry_views(entries@)),
            r matches Some(listing) ==> listing@ == entry_views(entries@),
    {
        let ghost views = entry_views(entries@);
        let n = entries.len();
        let mut j: usize = 0;
        while j < n
            invariant
                j <= n == entries.len(),
                views == entry_views(entries@),
                forall|a: int, b: int|
                    0 <= a < b < j ==> (#[trigger] views[a]).name != (#[trigger] views[b]).name,
            decreases n - j,
        {
            let mut i: usize = 0;
            while i < j
                invariant
                    i <= j < n == entries.len(),
                    views == entry_views(entries@),
                    forall|a: int| 0 <= a < i ==> (#[trigger] views[a]).name != views[j as int].name,
                decreases j - i,
            {
                if same_name(&entries[i].name, &entries[j].name) {
                    assert(views[i as int].name == views[j as int].name);
                    return None;
                }
                i += 1;
            }
            j += 1;
        }
        Some(TreeListing { entries })
    }

    /// The number of entries.
    pub fn len(&self) -> (n: usize)
        ensures
            n == self@.len(),
    {
        self.entries.len()
    }

    /// The entries, in the order of the store.
    pub fn entries(&self) -> (r: &Vec<TreeEntry>)
        ensures
            entry_views(r@) == self@,
            distinct_names(self@),
    {
        proof {
            use_type_invariant(self);
        }
        &self.entries
    }

    /// Looks `name` up among the entries. Only an entry whose name is text
    /// can be found.
    pub fn lookup(&self, name: &str) -> (r: Option<ObjectId>)
        ensures
            match r {
                Some(id) => lookup(self@, name@) == Some(id@),
                None => lookup(self@, name@) is None,
            },
    {
        let wanted = name.to_owned();
        let n = self.entries.len();
        let mut i: usize = 0;
        assert(self@.skip(0) =~= self@);
        while i < n
            invariant
                i <= n == self.entries.len(),
                wanted@ == name@,
                lookup(self@, name@) == lookup(self@.skip(i as int), name@),
            decreases n - i,
        {
            let ghost rest = self@.skip(i as int);
            assert(rest[0] == self.entries@[i as int]@);
            assert(rest.skip(1) =~= self@.skip(i + 1));
            match &self.entries[i].name {
                EntryName::Text(s) => {
                    if *s == wanted {
                        return Some(self.entries[i].id.clone());
                    }
                },
                EntryName::Raw(_) => {},
            }
            i += 1;
        }
        assert(self@.skip(n as int).len() == 0);
        None
    }

    /// The names of the entries, each once, in their order. A listing that
    /// holds a name that is no text is not listed at all.
    pub fn names(&self) -> (r: Result<Vec<String>, FsError>)
        ensures
            match r {
                Ok(names) => list_names(self@) == Ok::<_, FsError>(texts(names@)),
                Err(e) => list_names(self@) == Err::<Seq<Seq<char>>, _>(e),
            },
            r matches Ok(names) ==> texts(names@).no_duplicates(),
    {
        proof {
            use_type_invariant(self);
        }
        let n = self.entries.len();
        let mut names: Vec<String> = Vec::new();
        let mut i: usize = 0;
        while i < n
            invariant
                i <= n == self.entries.len(),
                names@.len() == i,
                forall|k: int| 0 <= k < i ==> (#[trigger] self@[k]).name == NameView::Text(names@[k]@),
            decreases n - i,
        {
            assert(self@[i as int] == self.entries@[i as int]@);
            match &self.entries[i].name {
                EntryName::Text(s) => {
                    names.push(s.clone());
                },
                EntryName::Raw(_) => {
                    assert(!(self@[i as int].name is Text));
                    return Err(FsError::InvalidData);
                },
            }
            i += 1;
        }
        assert(all_text(self@));
        assert(texts(names@) =~= text_names(self@));
        proof {
            lemma_names_differ(self@);
        }
        Ok(names)
    }
}

} // verus!
