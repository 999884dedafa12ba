//! The catalog of one directory's children, addressable by position.

use crate::path::DirPath;
use vstd::prelude::*;

verus! {

/// What a directory entry is.
#[derive(Clone, Copy, Debug, PartialEq, Eq, Structural)]
pub enum EntryKind {
    File,
    Directory,
}

/// Why a directory could not be listed.
#[derive(Clone, Copy, Debug, PartialEq, Eq, Structural)]
pub enum EnumerationError {
    NotADirectory,
    PermissionDenied,
    PathNotFound,
}

/// One child of a directory, with its position in the listing that
/// produced it.
#[derive(Debug)]
pub struct DirectoryEntry {
    pub name: String,
    pub kind: EntryKind,
    pub stable_index: usize,
}

/// A child of a directory as a listing gives it: its name and its kind.
pub open spec fn child_view(c: (String, EntryKind)) -> (Seq<char>, EntryKind) {
    (c.0@, c.1)
}

/// The children of a listing as names and kinds.
pub open spec fn listing_view(l: Seq<(String, EntryKind)>) -> Seq<(Seq<char>, EntryKind)> {
    l.map_values(|c: (String, EntryKind)| child_view(c))
}

/// What a catalog says: the directory it lists, and its children in order.
pub struct CatalogView {
    pub dir: Seq<Seq<char>>,
    pub entries: Seq<(Seq<char>, EntryKind)>,
}

/// The catalog that a successful listing of `dir` gives.
pub open spec fn catalog_of(dir: Seq<Seq<char>>, l: Seq<(String, EntryKind)>) -> CatalogView {
    CatalogView { dir, entries: listing_view(l) }
}

/// The snapshot of one directory's children. The entry at position `i`
/// is the `i`-th child of the listing, in the order the listing gave, and
/// carries `i` as its stable index.
pub struct EntryCatalog {
    dir: DirPath,
    entries: Vec<DirectoryEntry>,
}

impl View for EntryCatalog {
    type V = CatalogView;

    closed spec fn view(&self) -> CatalogView {
        CatalogView {
            dir: self.dir@,
            entries: self.entries@.map_values(|e: DirectoryEntry| (e.name@, e.kind)),
        }
    }
}

impl EntryCatalog {
    /// Every entry carries its own position as stable index.
    pub closed spec fn wf(&self) -> bool {
        forall|i: int| 0 <= i < self.entries@.len() ==> #[trigger] self.entries@[i].stable_index == i
    }

    /// The catalog of `dir` from the outcome of listing it: the listed
    /// children in the listing's order, or the listing's error.
    pub fn enumerate(dir: DirPath, listing: Result<Vec<(String, EntryKind)>, EnumerationError>) -> (r: Result<
        EntryCatalog,
        EnumerationError,
    >)
        ensures
            match listing {
                Ok(l) => r matches Ok(c) && c.wf() && c@ == catalog_of(dir@, l@),
                Err(e) => r == Err::<EntryCatalog, EnumerationError>(e),
            },
    {
        match listing {
            Err(e) => Err(e),
            Ok(l) => {
                let mut entries: Vec<DirectoryEntry> = Vec::new();
                for i in 0..l.len()
                    invariant
                        entries@.len() == i,
                        forall|j: int| 0 <= j < i ==> #[trigger] entries@[j].stable_index == j,
                        entries@.map_values(|e: DirectoryEntry| (e.name@, e.kind)) == listing_view(
                            l@.take(i as int),
                        ),
                {
                    let entry = DirectoryEntry {
                        name: l[i].0.clone(),
                        kind: l[i].1,
                        stable_index: i,
                    };
                    entries.push(entry);
                    assert(l@.take(i + 1) == l@.take(i as int).push(l@[i as int]));
                    assert(entries@.map_values(|e: DirectoryEntry| (e.name@, e.kind)) == listing_view(
                        l@.take(i as int),
                    ).push(child_view(l@[i as int])));
                }
                assert(l@.take(l@.len() as int) == l@);
                Ok(EntryCatalog { dir, entries })
            },
        }
    }

    /// The number of entries.
    pub fn len(&self) -> (r: usize)
        ensures
            r == self@.entries.len(),
    {
        self.entries.len()
    }

    /// The entry at `index`, if there is one.
    pub fn entry(&self, index: usize) -> (r: Option<&DirectoryEntry>)
        requires
            self.wf(),
        ensures
            index < self@.entries.len() ==> (r matches Some(e) && e.name@ == self@.entries[index as int].0
                && e.kind == self@.entries[index as int].1 && e.stable_index == index),
            index >= self@.entries.len() ==> r is None,
    {
        if index < self.entries.len() {
            Some(&self.entries[index])
        } else {
            None
        }
    }

    /// The directory this catalog lists.
    pub fn dir(&self) -> (r: &DirPath)
        ensures
            r@ == self@.dir,
    {
        &self.dir
    }

    /// Whether this catalog lists the directory `dir`.
    pub fn describes(&self, dir: &DirPath) -> (r: bool)
        ensures
            r == (self@.dir == dir@),
    {
        self.dir.same_as(dir)
    }
}

} // verus!
