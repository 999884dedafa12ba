//! The browsing state machine: activating entries, going back, selecting.
//!
//! A transition that opens another directory runs in two steps. The first
//! (`activate_entry`, `go_back`, `go_home`) decides the target and hands its
//! path out to be listed; the second (`complete`) takes the outcome of that
//! listing. Only a successful listing moves the cursor and replaces the
//! catalog, both at once, so the catalog always lists the open directory.

use crate::catalog::{catalog_of, CatalogView, DirectoryEntry, EntryCatalog, EntryKind, EnumerationError};
use crate::cursor::{at_back_stop, CursorView, NavigationError, PathCursor};
use crate::path::DirPath;
use vstd::prelude::*;

verus! {

/// What the controller holds: the cursor, the catalog, the selected
/// position, and the path whose listing it awaits.
pub struct NavView {
    pub cursor: CursorView,
    pub catalog: CatalogView,
    pub selection: Option<int>,
    pub pending: Option<Seq<Seq<char>>>,
}

/// The catalog lists the open directory, and the selection, if any, is a
/// position in it.
pub open spec fn consistent(s: NavView) -> bool {
    &&& s.catalog.dir == s.cursor.path
    &&& s.selection matches Some(i) ==> 0 <= i < s.catalog.entries.len()
}

/// The state with `target` awaiting its listing.
pub open spec fn awaiting(s: NavView, target: Seq<Seq<char>>) -> NavView {
    NavView { cursor: s.cursor, catalog: s.catalog, selection: s.selection, pending: Some(target) }
}

/// Where activating the entry at `index` leads: into that entry when it is
/// a directory.
pub open spec fn activation_target(s: NavView, index: int) -> Result<Seq<Seq<char>>, NavigationError> {
    if !(0 <= index < s.catalog.entries.len()) {
        Err(NavigationError::InvalidSelection)
    } else if s.catalog.entries[index].1 == EntryKind::File {
        Err(NavigationError::TargetNotDirectory)
    } else {
        Ok(s.cursor.path.push(s.catalog.entries[index].0))
    }
}

/// The state after activating the entry at `index`: unchanged unless the
/// entry is a directory, whose path then awaits its listing.
pub open spec fn after_activate(s: NavView, index: int) -> NavView {
    match activation_target(s, index) {
        Ok(t) => awaiting(s, t),
        Err(_) => s,
    }
}

/// Where going back leads: one segment up, except at the root or at home.
pub open spec fn back_target(s: NavView) -> Option<Seq<Seq<char>>> {
    if at_back_stop(s.cursor) {
        None
    } else {
        Some(s.cursor.path.drop_last())
    }
}

/// The state after going back: unchanged at a stop, else the parent awaits
/// its listing.
pub open spec fn after_back(s: NavView) -> NavView {
    match back_target(s) {
        Some(t) => awaiting(s, t),
        None => s,
    }
}

/// The state after asking for home: unchanged at home, else home awaits its
/// listing.
pub open spec fn after_home(s: NavView) -> NavView {
    if s.cursor.path == s.cursor.home {
        s
    } else {
        awaiting(s, s.cursor.home)
    }
}

/// The outcome of a listing, with the listed children as a sequence.
pub open spec fn outcome_view(listing: Result<Vec<(String, EntryKind)>, EnumerationError>) -> Result<
    Seq<(String, EntryKind)>,
    EnumerationError,
> {
    match listing {
        Ok(l) => Ok(l@),
        Err(e) => Err(e),
    }
}

/// The state after the awaited listing came back: on success the cursor is
/// at the awaited path, the catalog lists it and nothing is selected; on
/// failure only the wait ends.
pub open spec fn after_listing(s: NavView, listing: Result<Seq<(String, EntryKind)>, EnumerationError>) -> NavView
    recommends
        s.pending is Some,
{
    let target = s.pending->0;
    match listing {
        Ok(l) => NavView {
            cursor: CursorView { path: target, home: s.cursor.home },
            catalog: catalog_of(target, l),
            selection: None,
            pending: None,
        },
        Err(_) => NavView { cursor: s.cursor, catalog: s.catalog, selection: s.selection, pending: None },
    }
}

/// The state after selecting the entry at `index`: selected if there is
/// one there, else unchanged.
pub open spec fn after_select(s: NavView, index: int) -> NavView {
    if 0 <= index < s.catalog.entries.len() {
        NavView { cursor: s.cursor, catalog: s.catalog, selection: Some(index), pending: s.pending }
    } else {
        s
    }
}

/// The browser's state: the open directory, its catalog, the selection, and
/// the target of a transition whose listing is awaited.
pub struct NavigationController {
    cursor: PathCursor,
    catalog: EntryCatalog,
    selection: Option<usize>,
    pending: Option<PathCursor>,
}

impl View for NavigationController {
    type V = NavView;

    closed spec fn view(&self) -> NavView {
        NavView {
            cursor: self.cursor@,
            catalog: self.catalog@,
            selection: match self.selection {
                Some(i) => Some(i as int),
                None => None,
            },
            pending: match self.pending {
                Some(c) => Some(c@.path),
                None => None,
            },
        }
    }
}

impl NavigationController {
    /// The catalog is consistent with the cursor, and an awaited target
    /// keeps the home path.
    pub closed spec fn wf(&self) -> bool {
        &&& consistent(self@)
        &&& self.catalog.wf()
        &&& self.pending matches Some(c) ==> c@.home == self.cursor@.home
    }

    /// Opens the browser at `path` from the outcome of listing it, with
    /// `home` as the path that going back stops at.
    pub fn open(home: DirPath, path: DirPath, listing: Result<Vec<(String, EntryKind)>, EnumerationError>) -> (r:
        Result<NavigationController, EnumerationError>)
        ensures
            match listing {
                Ok(l) => r matches Ok(c) && c.wf() && c@ == (NavView {
                    cursor: CursorView { path: path@, home: home@ },
                    catalog: catalog_of(path@, l@),
                    selection: None,
                    pending: None,
                }),
                Err(e) => r == Err::<NavigationController, EnumerationError>(e),
            },
    {
        let catalog = EntryCatalog::enumerate(path.copy(), listing)?;
        let cursor = PathCursor::at(path, home);
        Ok(NavigationController { cursor, catalog, selection: None, pending: None })
    }

    /// Activates the entry at `index`. A directory there becomes the
    /// awaited target and its path is handed back to be listed; otherwise
    /// nothing changes and the error says why.
    pub fn activate_entry(&mut self, index: usize) -> (r: Result<DirPath, NavigationError>)
        requires
            old(self).wf(),
        ensures
            final(self).wf(),
            final(self)@ == after_activate(old(self)@, index as int),
            match activation_target(old(self)@, index as int) {
                Ok(t) => r matches Ok(p) && p@ == t,
                Err(e) => r == Err::<DirPath, NavigationError>(e),
            },
    {
        let entry = match self.catalog.entry(index) {
            Some(entry) => entry,
            None => return Err(NavigationError::InvalidSelection),
        };
        let mut next = self.cursor.copy();
        next.advance_into(entry)?;
        let target = next.canonical_path().copy();
        self.pending = Some(next);
        Ok(target)
    }

    /// Goes back one level. Except at the root or at home, the parent
    /// becomes the awaited target and its path is handed back to be listed;
    /// there nothing changes.
    pub fn go_back(&mut self) -> (r: Option<DirPath>)
        requires
            old(self).wf(),
        ensures
            final(self).wf(),
            final(self)@ == after_back(old(self)@),
            match back_target(old(self)@) {
                Some(t) => r matches Some(p) && p@ == t,
                None => r is None,
            },
    {
        let mut next = self.cursor.copy();
        if !next.go_back() {
            return None;
        }
        let target = next.canonical_path().copy();
        self.pending = Some(next);
        Some(target)
    }

    /// Goes back to the home path: unless already there, home becomes the
    /// awaited target and its path is handed back to be listed.
    pub fn go_home(&mut self) -> (r: Option<DirPath>)
        requires
            old(self).wf(),
        ensures
            final(self).wf(),
            final(self)@ == after_home(old(self)@),
            old(self)@.cursor.path == old(self)@.cursor.home ==> r is None,
            old(self)@.cursor.path != old(self)@.cursor.home ==> (r matches Some(p) && p@
                == old(self)@.cursor.home),
    {
        if self.cursor.canonical_path().same_as(self.cursor.home_path()) {
            return None;
        }
        let mut next = self.cursor.copy();
        next.reset_to_home();
        let target = next.canonical_path().copy();
        self.pending = Some(next);
        Some(target)
    }

    /// Takes the outcome of listing the awaited target. On success the
    /// cursor moves there, the catalog is replaced by the listing and the
    /// selection is cleared; on failure the error is handed back and the
    /// cursor, catalog and selection stay as they were.
    pub fn complete(&mut self, listing: Result<Vec<(String, EntryKind)>, EnumerationError>) -> (r: Result<
        (),
        EnumerationError,
    >)
        requires
            old(self).wf(),
            old(self)@.pending is Some,
        ensures
            final(self).wf(),
            final(self)@ == after_listing(old(self)@, outcome_view(listing)),
            r == match listing {
                Ok(_) => Ok(()),
                Err(e) => Err::<(), EnumerationError>(e),
            },
    {
        let next = self.pending.take().unwrap();
        let catalog = EntryCatalog::enumerate(next.canonical_path().copy(), listing)?;
        self.catalog = catalog;
        self.cursor = next;
        self.selection = None;
        Ok(())
    }

    /// Selects the entry at `index` and hands back its name, to be shown;
    /// a position with no entry changes nothing.
    pub fn select_index(&mut self, index: usize) -> (r: Option<String>)
        requires
            old(self).wf(),
        ensures
            final(self).wf(),
            final(self)@ == after_select(old(self)@, index as int),
            index < old(self)@.catalog.entries.len() ==> (r matches Some(n) && n@
                == old(self)@.catalog.entries[index as int].0),
            index >= old(self)@.catalog.entries.len() ==> r is None,
    {
        match self.catalog.entry(index) {
            Some(entry) => {
                let name = entry.name.clone();
                self.selection = Some(index);
                Some(name)
            },
            None => None,
        }
    }

    /// The open directory.
    pub fn current_path(&self) -> (r: &DirPath)
        ensures
            r@ == self@.cursor.path,
    {
        self.cursor.canonical_path()
    }

    /// The home path.
    pub fn home_path(&self) -> (r: &DirPath)
        ensures
            r@ == self@.cursor.home,
    {
        self.cursor.home_path()
    }

    /// The catalog of the open directory.
    pub fn catalog(&self) -> (r: &EntryCatalog)
        requires
            self.wf(),
        ensures
            r@ == self@.catalog,
            r.wf(),
    {
        &self.catalog
    }

    /// The selected position, if any.
    pub fn selection(&self) -> (r: Option<usize>)
        ensures
            r matches Some(i) ==> self@.selection == Some(i as int),
            r is None ==> self@.selection is None,
    {
        self.selection
    }

    /// The path whose listing is awaited, if any.
    pub fn awaited(&self) -> (r: Option<&DirPath>)
        ensures
            r matches Some(p) ==> self@.pending == Some(p@),
            r is None ==> self@.pending is None,
    {
        match &self.pending {
            Some(c) => Some(c.canonical_path()),
            None => None,
        }
    }

    /// The directory that an indexing command issued now would index: the
    /// open one, as it is at this moment.
    pub fn index_target(&self) -> (r: DirPath)
        ensures
            r@ == self@.cursor.path,
    {
        self.cursor.canonical_path().copy()
    }
}

/// Activating a directory entry, listing it, going back and listing the
/// first directory as before: the cursor is back where it was, the catalog
/// is the one the first listing gave, and nothing is selected. (When the
/// child is the home path itself, going back stops there.)
pub proof fn lemma_into_and_back(
    s: NavView,
    listing: Seq<(String, EntryKind)>,
    index: int,
    child_listing: Seq<(String, EntryKind)>,
)
    requires
        consistent(s),
        s.catalog == catalog_of(s.cursor.path, listing),
        activation_target(s, index) is Ok,
        activation_target(s, index)->Ok_0 != s.cursor.home,
    ensures
        ({
            let inside = after_listing(after_activate(s, index), Ok(child_listing));
            let back = after_listing(after_back(inside), Ok(listing));
            &&& inside.cursor.path == s.cursor.path.push(s.catalog.entries[index].0)
            &&& back_target(inside) == Some(s.cursor.path)
            &&& back.cursor == s.cursor
            &&& back.catalog == catalog_of(s.cursor.path, listing)
            &&& back.selection is None
        }),
{
    let inside = after_listing(after_activate(s, index), Ok(child_listing));
    assert(inside.cursor.path.drop_last() == s.cursor.path);
}

/// At the root or at home, going back changes nothing, and going back
/// twice is the same as going back once.
pub proof fn lemma_back_at_stop(s: NavView)
    requires
        s.cursor.path.len() == 0 || s.cursor.path == s.cursor.home,
    ensures
        back_target(s) is None,
        after_back(s) == s,
        after_back(after_back(s)) == after_back(s),
{
}

/// Every transition keeps the catalog listing the open directory, and a
/// successful listing leaves the catalog exactly what the listing of the
/// new open directory gave.
pub proof fn lemma_transitions_stay_consistent(
    s: NavView,
    index: int,
    listing: Result<Seq<(String, EntryKind)>, EnumerationError>,
)
    requires
        consistent(s),
    ensures
        consistent(after_activate(s, index)),
        consistent(after_back(s)),
        consistent(after_home(s)),
        consistent(after_select(s, index)),
        s.pending is Some ==> consistent(after_listing(s, listing)),
        s.pending is Some && listing is Ok ==> after_listing(s, listing).catalog == catalog_of(
            after_listing(s, listing).cursor.path,
            listing->Ok_0,
        ),
{
}

/// Activating a file changes nothing: the cursor, the catalog, the
/// selection and any awaited target stay as they were.
pub proof fn lemma_activate_file_is_no_op(s: NavView, index: int)
    requires
        0 <= index < s.catalog.entries.len(),
        s.catalog.entries[index].1 == EntryKind::File,
    ensures
        activation_target(s, index) == Err::<Seq<Seq<char>>, NavigationError>(
            NavigationError::TargetNotDirectory,
        ),
        after_activate(s, index) == s,
{
}

} // verus!
