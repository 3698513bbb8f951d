//! The input events the host delivers and the effect protocol through
//! which the state machine asks the host for filesystem work.
//!
//! A transition returns at most one [`Effect`]; the host performs it and
//! hands the [`Outcome`] back, which may yield one follow-up effect. No
//! transition needs more than that chain.

use vstd::prelude::*;

use crate::entry::{EntryView, FileSystemEntry, ListingEntry, ListingView};
use crate::paths::EntryPath;
use crate::state::DialogTitle;

verus! {

/// One input event from the host.
#[derive(Debug)]
pub enum Message {
    /// Close the viewer if open, else go to the parent directory.
    GoBack,
    /// A row was activated: enter a directory or open a file.
    SelectEntry(FileSystemEntry),
    /// Ask for confirmation before deleting the selection.
    DeleteSelected,
    /// Open the create-folder dialog.
    CreateFolder,
    /// Open the rename dialog for the selection.
    RenameSelected,
    /// Stage the selection on the clipboard.
    CopySelected,
    /// Paste the clipboard entry into the current directory.
    Paste,
    /// Open or close the per-file options menu.
    OpenModal(bool),
    /// Open or close the per-folder options menu.
    OpenFolderModal(bool),
    /// Open or close the action dialog with the given title.
    OpenActionModal(bool, DialogTitle),
    /// Open or close the delete confirmation for the given name.
    OpenDeleteModal(bool, String),
    /// Confirm the open action dialog.
    ConfirmAction,
    /// Confirm the open delete confirmation.
    ConfirmDelete,
    /// Replace the action dialog's input buffer.
    UpdateFolderName(String),
}

/// Mathematical image of a [`Message`].
#[verifier::ext_equal]
pub enum MessageView {
    GoBack,
    SelectEntry(EntryView),
    DeleteSelected,
    CreateFolder,
    RenameSelected,
    CopySelected,
    Paste,
    OpenModal(bool),
    OpenFolderModal(bool),
    OpenActionModal(bool, DialogTitle),
    OpenDeleteModal(bool, Seq<char>),
    ConfirmAction,
    ConfirmDelete,
    UpdateFolderName(Seq<char>),
}

impl View for Message {
    type V = MessageView;

    open spec fn view(&self) -> MessageView {
        match self {
            Message::GoBack => MessageView::GoBack,
            Message::SelectEntry(e) => MessageView::SelectEntry(e@),
            Message::DeleteSelected => MessageView::DeleteSelected,
            Message::CreateFolder => MessageView::CreateFolder,
            Message::RenameSelected => MessageView::RenameSelected,
            Message::CopySelected => MessageView::CopySelected,
            Message::Paste => MessageView::Paste,
            Message::OpenModal(b) => MessageView::OpenModal(*b),
            Message::OpenFolderModal(b) => MessageView::OpenFolderModal(*b),
            Message::OpenActionModal(b, t) => MessageView::OpenActionModal(*b, *t),
            Message::OpenDeleteModal(b, n) => MessageView::OpenDeleteModal(*b, n@),
            Message::ConfirmAction => MessageView::ConfirmAction,
            Message::ConfirmDelete => MessageView::ConfirmDelete,
            Message::UpdateFolderName(n) => MessageView::UpdateFolderName(n@),
        }
    }
}

/// One filesystem request for the host. Reading a directory or a file is
/// a query; the remaining effects mutate the filesystem.
#[derive(Debug, PartialEq, Eq)]
pub enum Effect {
    /// List the direct children of this directory.
    ReadDir(EntryPath),
    /// Read this file as text.
    ReadTextFile(EntryPath),
    /// Create a directory at this path.
    CreateDir(EntryPath),
    /// Report whether `to` already exists, before a rename from `from`.
    RenameCheck { from: EntryPath, to: EntryPath },
    /// Rename `from` to `to`.
    RenameMove { from: EntryPath, to: EntryPath },
    /// Remove this file.
    RemoveFile(EntryPath),
    /// Remove this directory and all of its contents.
    RemoveDirAll(EntryPath),
    /// Copy the file `from` to `to`.
    CopyFile { from: EntryPath, to: EntryPath },
    /// Copy the directory `from` and its contents to `to`.
    CopyDirAll { from: EntryPath, to: EntryPath },
}

/// Mathematical image of an [`Effect`].
#[verifier::ext_equal]
pub enum EffectView {
    ReadDir(Seq<Seq<char>>),
    ReadTextFile(Seq<Seq<char>>),
    CreateDir(Seq<Seq<char>>),
    RenameCheck { from: Seq<Seq<char>>, to: Seq<Seq<char>> },
    RenameMove { from: Seq<Seq<char>>, to: Seq<Seq<char>> },
    RemoveFile(Seq<Seq<char>>),
    RemoveDirAll(Seq<Seq<char>>),
    CopyFile { from: Seq<Seq<char>>, to: Seq<Seq<char>> },
    CopyDirAll { from: Seq<Seq<char>>, to: Seq<Seq<char>> },
}

impl View for Effect {
    type V = EffectView;

    open spec fn view(&self) -> EffectView {
        match self {
            Effect::ReadDir(p) => EffectView::ReadDir(p@),
            Effect::ReadTextFile(p) => EffectView::ReadTextFile(p@),
            Effect::CreateDir(p) => EffectView::CreateDir(p@),
            Effect::RenameCheck { from, to } => EffectView::RenameCheck { from: from@, to: to@ },
            Effect::RenameMove { from, to } => EffectView::RenameMove { from: from@, to: to@ },
            Effect::RemoveFile(p) => EffectView::RemoveFile(p@),
            Effect::RemoveDirAll(p) => EffectView::RemoveDirAll(p@),
            Effect::CopyFile { from, to } => EffectView::CopyFile { from: from@, to: to@ },
            Effect::CopyDirAll { from, to } => EffectView::CopyDirAll { from: from@, to: to@ },
        }
    }
}

impl DeepView for Effect {
    type V = EffectView;

    open spec fn deep_view(&self) -> EffectView {
        self.view()
    }
}

/// What the host observed while performing an effect.
#[derive(Debug)]
pub enum Outcome {
    /// The children found by a directory read; a failed read degrades to
    /// an empty listing.
    DirListing(Vec<ListingEntry>),
    /// The text read produced these contents.
    TextLoaded(String),
    /// The text read failed (binary contents, permissions, I/O).
    TextUnavailable,
    /// Whether the queried path exists.
    Found(bool),
    /// The mutation succeeded.
    Done,
    /// The mutation failed; the text is the host's error.
    Failed(String),
}

/// Mathematical image of an [`Outcome`].
#[verifier::ext_equal]
pub enum OutcomeView {
    DirListing(Seq<ListingView>),
    TextLoaded(Seq<char>),
    TextUnavailable,
    Found(bool),
    Done,
    Failed(Seq<char>),
}

impl View for Outcome {
    type V = OutcomeView;

    open spec fn view(&self) -> OutcomeView {
        match self {
            Outcome::DirListing(v) => OutcomeView::DirListing(v.deep_view()),
            Outcome::TextLoaded(c) => OutcomeView::TextLoaded(c@),
            Outcome::TextUnavailable => OutcomeView::TextUnavailable,
            Outcome::Found(b) => OutcomeView::Found(*b),
            Outcome::Done => OutcomeView::Done,
            Outcome::Failed(e) => OutcomeView::Failed(e@),
        }
    }
}

} // verus!
