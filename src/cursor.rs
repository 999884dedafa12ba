//! The cursor over the directory tree: the path that is open, and the home
//! path that going back stops at.

use crate::catalog::{DirectoryEntry, EntryKind};
use crate::path::DirPath;
use vstd::prelude::*;

verus! {

/// Why a selection could not be followed.
#[derive(Clone, Copy, Debug, PartialEq, Eq, Structural)]
pub enum NavigationError {
    InvalidSelection,
    TargetNotDirectory,
}

/// What a cursor holds: the open path and the home path.
pub struct CursorView {
    pub path: Seq<Seq<char>>,
    pub home: Seq<Seq<char>>,
}

/// Going back does nothing at the root, which has no segment to remove,
/// and at home.
pub open spec fn at_back_stop(c: CursorView) -> bool {
    c.path.len() == 0 || c.path == c.home
}

/// The cursor after going back: one segment fewer, unless at a stop.
pub open spec fn back_of(c: CursorView) -> CursorView {
    if at_back_stop(c) {
        c
    } else {
        CursorView { path: c.path.drop_last(), home: c.home }
    }
}

/// The open path of the browser and the home path it started from.
pub struct PathCursor {
    canonical: DirPath,
    home: DirPath,
}

impl View for PathCursor {
    type V = CursorView;

    closed spec fn view(&self) -> CursorView {
        CursorView { path: self.canonical@, home: self.home@ }
    }
}

impl PathCursor {
    /// A cursor open at `home`.
    pub fn new(home: DirPath) -> (r: PathCursor)
        ensures
            r@.path == home@,
            r@.home == home@,
    {
        let canonical = home.copy();
        PathCursor { canonical, home }
    }

    /// A cursor open at `path`, with `home` to go back to.
    pub fn at(path: DirPath, home: DirPath) -> (r: PathCursor)
        ensures
            r@ == (CursorView { path: path@, home: home@ }),
    {
        PathCursor { canonical: path, home }
    }

    /// A cursor equal to this one.
    pub fn copy(&self) -> (r: PathCursor)
        ensures
            r@ == self@,
    {
        PathCursor { canonical: self.canonical.copy(), home: self.home.copy() }
    }

    /// The open path.
    pub fn canonical_path(&self) -> (r: &DirPath)
        ensures
            r@ == self@.path,
    {
        &self.canonical
    }

    /// The home path.
    pub fn home_path(&self) -> (r: &DirPath)
        ensures
            r@ == self@.home,
    {
        &self.home
    }

    /// Opens the child directory `entry`; an entry that is not a directory
    /// leaves the cursor as it is.
    pub fn advance_into(&mut self, entry: &DirectoryEntry) -> (r: Result<(), NavigationError>)
        ensures
            entry.kind == EntryKind::Directory ==> r is Ok && final(self)@ == (CursorView {
                path: old(self)@.path.push(entry.name@),
                home: old(self)@.home,
            }),
            entry.kind == EntryKind::File ==> r == Err::<(), NavigationError>(
                NavigationError::TargetNotDirectory,
            ) && final(self)@ == old(self)@,
    {
        match entry.kind {
            EntryKind::Directory => {
                self.canonical = self.canonical.child(&entry.name);
                Ok(())
            },
            EntryKind::File => Err(NavigationError::TargetNotDirectory),
        }
    }

    /// Whether going back would do nothing here.
    pub fn at_back_stop(&self) -> (r: bool)
        ensures
            r == at_back_stop(self@),
    {
        self.canonical.is_root() || self.canonical.same_as(&self.home)
    }

    /// Removes the last segment of the open path, except at the root or at
    /// home. Returns whether the cursor moved.
    pub fn go_back(&mut self) -> (moved: bool)
        ensures
            final(self)@ == back_of(old(self)@),
            moved == !at_back_stop(old(self)@),
    {
        if self.at_back_stop() {
            false
        } else {
            self.canonical = self.canonical.parent();
            true
        }
    }

    /// Opens the home path again.
    pub fn reset_to_home(&mut self)
        ensures
            final(self)@ == (CursorView { path: old(self)@.home, home: old(self)@.home }),
    {
        self.canonical = self.home.copy();
    }
}

} // verus!
