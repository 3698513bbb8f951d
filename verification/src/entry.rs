//! Filesystem entries: a path together with whether it names a file or a
//! directory, and the raw listing entries a directory read hands back.

use vstd::prelude::*;

use crate::paths::EntryPath;

verus! {

/// Whether an entry is a plain file or a directory.
#[derive(Clone, Copy, Debug, PartialEq, Eq, Structural)]
pub enum EntryKind {
    File,
    Directory,
}

/// An entry of the filesystem: an absolute path and its kind.
#[derive(Debug, PartialEq, Eq)]
pub struct FileSystemEntry {
    pub path: EntryPath,
    pub kind: EntryKind,
}

/// Mathematical image of a [`FileSystemEntry`].
#[verifier::ext_equal]
pub struct EntryView {
    pub path: Seq<Seq<char>>,
    pub kind: EntryKind,
}

impl View for FileSystemEntry {
    type V = EntryView;

    open spec fn view(&self) -> EntryView {
        EntryView { path: self.path@, kind: self.kind }
    }
}

impl DeepView for FileSystemEntry {
    type V = EntryView;

    open spec fn deep_view(&self) -> EntryView {
        self.view()
    }
}

impl FileSystemEntry {
    /// An identical copy of this entry.
    pub fn clone_entry(&self) -> (r: Self)
        ensures
            r@ == self@,
    {
        FileSystemEntry { path: self.path.clone_path(), kind: self.kind }
    }
}

/// One raw entry of a directory read: the display name and the kind,
/// before the listing is ordered and anchored to the directory's path.
#[derive(Debug, PartialEq, Eq)]
pub struct ListingEntry {
    pub name: String,
    pub kind: EntryKind,
}

/// Mathematical image of a [`ListingEntry`].
#[verifier::ext_equal]
pub struct ListingView {
    pub name: Seq<char>,
    pub kind: EntryKind,
}

impl View for ListingEntry {
    type V = ListingView;

    open spec fn view(&self) -> ListingView {
        ListingView { name: self.name@, kind: self.kind }
    }
}

impl DeepView for ListingEntry {
    type V = ListingView;

    open spec fn deep_view(&self) -> ListingView {
        self.view()
    }
}

} // verus!
