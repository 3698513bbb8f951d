//! The aggregate state of the file manager: the browsed directory and its
//! listing, selection and clipboard, the modal dialog coordinator, the
//! file viewer, and the last status outcome.

use vstd::prelude::*;

use crate::entry::{EntryView, FileSystemEntry};
use crate::paths::EntryPath;

verus! {

/// Which action an open action dialog performs on confirmation.
#[derive(Clone, Copy, Debug, PartialEq, Eq, Structural)]
pub enum DialogTitle {
    CreateFolder,
    Rename,
}

/// The modal coordinator: at most one dialog is active at any time, by
/// construction of this type; opening any dialog replaces any other.
#[derive(Debug, PartialEq, Eq)]
pub enum ModalState {
    /// No dialog is open; background interaction is enabled.
    Inactive,
    /// The per-file options menu.
    FileOptionsMenu,
    /// The per-folder options menu.
    FolderOptionsMenu,
    /// The create-folder or rename dialog, with its input buffer.
    ActionDialog { title: DialogTitle, input: String },
    /// The delete confirmation, showing the name about to be deleted.
    DeleteConfirm { target_name: String },
}

/// Mathematical image of a [`ModalState`].
#[verifier::ext_equal]
pub enum ModalView {
    Inactive,
    FileOptionsMenu,
    FolderOptionsMenu,
    ActionDialog { title: DialogTitle, input: Seq<char> },
    DeleteConfirm { target_name: Seq<char> },
}

impl View for ModalState {
    type V = ModalView;

    open spec fn view(&self) -> ModalView {
        match self {
            ModalState::Inactive => ModalView::Inactive,
            ModalState::FileOptionsMenu => ModalView::FileOptionsMenu,
            ModalState::FolderOptionsMenu => ModalView::FolderOptionsMenu,
            ModalState::ActionDialog { title, input } => ModalView::ActionDialog {
                title: *title,
                input: input@,
            },
            ModalState::DeleteConfirm { target_name } => ModalView::DeleteConfirm {
                target_name: target_name@,
            },
        }
    }
}

/// How the viewer presents the opened file.
#[derive(Debug, PartialEq, Eq)]
pub enum PreviewState {
    /// Nothing has been loaded yet.
    Empty,
    /// Rendered as an image.
    Image(EntryPath),
    /// Rendered as a document.
    Pdf(EntryPath),
    /// Shown as text, with the file's full contents.
    Text(String),
    /// No preview is available for this file.
    Unsupported,
}

/// Mathematical image of a [`PreviewState`].
#[verifier::ext_equal]
pub enum PreviewView {
    Empty,
    Image(Seq<Seq<char>>),
    Pdf(Seq<Seq<char>>),
    Text(Seq<char>),
    Unsupported,
}

impl View for PreviewState {
    type V = PreviewView;

    open spec fn view(&self) -> PreviewView {
        match self {
            PreviewState::Empty => PreviewView::Empty,
            PreviewState::Image(p) => PreviewView::Image(p@),
            PreviewState::Pdf(p) => PreviewView::Pdf(p@),
            PreviewState::Text(c) => PreviewView::Text(c@),
            PreviewState::Unsupported => PreviewView::Unsupported,
        }
    }
}

/// The file viewer: whether it is open, on which file, and its preview.
#[derive(Debug, PartialEq, Eq)]
pub struct ViewerState {
    pub open: bool,
    pub file: Option<EntryPath>,
    pub preview: PreviewState,
}

/// Mathematical image of a [`ViewerState`].
#[verifier::ext_equal]
pub struct ViewerView {
    pub open: bool,
    pub file: Option<Seq<Seq<char>>>,
    pub preview: PreviewView,
}

impl View for ViewerState {
    type V = ViewerView;

    open spec fn view(&self) -> ViewerView {
        ViewerView { open: self.open, file: self.file.deep_view(), preview: self.preview@ }
    }
}

/// A closed viewer with nothing loaded.
pub open spec fn viewer_closed() -> ViewerView {
    ViewerView { open: false, file: Option::None, preview: PreviewView::Empty }
}

/// The outcome of the last handled event, for display by the host.
#[derive(Debug, PartialEq, Eq)]
pub enum StatusMessage {
    /// Nothing has happened yet.
    Ready,
    /// Navigation went to the parent directory.
    WentBack,
    /// Navigation at the root found no parent directory.
    NoParentDirectory,
    /// A directory entry was entered.
    EnteredDirectory,
    /// An operation needed a selection and none existed.
    NoSelection,
    /// The selected entry was staged for pasting.
    CopiedToClipboard,
    /// Paste was requested with an empty clipboard.
    NoClipboard,
    /// The clipboard entry was pasted into the current directory.
    PastedOk,
    /// The paste failed; the text is the host's error.
    PasteFailed(String),
    /// Creating a folder was confirmed with a blank name.
    EmptyFolderName,
    /// Renaming was confirmed with a blank name.
    EmptyNewName,
    /// The folder at this path was created.
    CreatedFolder(EntryPath),
    /// Creating the folder failed; the text is the host's error.
    CreateFolderFailed(String),
    /// Renaming would collide with an entry of this name.
    NameCollision(String),
    /// The selection was renamed to this path.
    Renamed(EntryPath),
    /// Renaming failed; the text is the host's error.
    RenameFailed(String),
    /// The entry of this name was deleted.
    Deleted(String),
    /// Deleting failed; the text is the host's error.
    DeleteFailed(String),
}

/// Mathematical image of a [`StatusMessage`].
#[verifier::ext_equal]
pub enum StatusView {
    Ready,
    WentBack,
    NoParentDirectory,
    EnteredDirectory,
    NoSelection,
    CopiedToClipboard,
    NoClipboard,
    PastedOk,
    PasteFailed(Seq<char>),
    EmptyFolderName,
    EmptyNewName,
    CreatedFolder(Seq<Seq<char>>),
    CreateFolderFailed(Seq<char>),
    NameCollision(Seq<char>),
    Renamed(Seq<Seq<char>>),
    RenameFailed(Seq<char>),
    Deleted(Seq<char>),
    DeleteFailed(Seq<char>),
}

impl View for StatusMessage {
    type V = StatusView;

    open spec fn view(&self) -> StatusView {
        match self {
            StatusMessage::Ready => StatusView::Ready,
            StatusMessage::WentBack => StatusView::WentBack,
            StatusMessage::NoParentDirectory => StatusView::NoParentDirectory,
            StatusMessage::EnteredDirectory => StatusView::EnteredDirectory,
            StatusMessage::NoSelection => StatusView::NoSelection,
            StatusMessage::CopiedToClipboard => StatusView::CopiedToClipboard,
            StatusMessage::NoClipboard => StatusView::NoClipboard,
            StatusMessage::PastedOk => StatusView::PastedOk,
            StatusMessage::PasteFailed(e) => StatusView::PasteFailed(e@),
            StatusMessage::EmptyFolderName => StatusView::EmptyFolderName,
            StatusMessage::EmptyNewName => StatusView::EmptyNewName,
            StatusMessage::CreatedFolder(p) => StatusView::CreatedFolder(p@),
            StatusMessage::CreateFolderFailed(e) => StatusView::CreateFolderFailed(e@),
            StatusMessage::NameCollision(n) => StatusView::NameCollision(n@),
            StatusMessage::Renamed(p) => StatusView::Renamed(p@),
            StatusMessage::RenameFailed(e) => StatusView::RenameFailed(e@),
            StatusMessage::Deleted(n) => StatusView::Deleted(n@),
            StatusMessage::DeleteFailed(e) => StatusView::DeleteFailed(e@),
        }
    }
}

/// The aggregate state owned by the state machine.
#[derive(Debug)]
pub struct FileManagerState {
    /// The directory being browsed.
    pub current_path: EntryPath,
    /// The ordered listing of `current_path` from its last read.
    pub entries: Vec<FileSystemEntry>,
    /// The selected entry, if any.
    pub selected: Option<FileSystemEntry>,
    /// The entry staged for pasting, if any.
    pub copied: Option<FileSystemEntry>,
    /// The modal dialog coordinator.
    pub modal: ModalState,
    /// The file viewer.
    pub viewer: ViewerState,
    /// The outcome of the last handled event.
    pub status: StatusMessage,
}

/// Mathematical image of a [`FileManagerState`].
#[verifier::ext_equal]
pub struct StateView {
    pub current_path: Seq<Seq<char>>,
    pub entries: Seq<EntryView>,
    pub selected: Option<EntryView>,
    pub copied: Option<EntryView>,
    pub modal: ModalView,
    pub viewer: ViewerView,
    pub status: StatusView,
}

impl View for FileManagerState {
    type V = StateView;

    open spec fn view(&self) -> StateView {
        StateView {
            current_path: self.current_path@,
            entries: self.entries.deep_view(),
            selected: self.selected.deep_view(),
            copied: self.copied.deep_view(),
            modal: self.modal@,
            viewer: self.viewer@,
            status: self.status@,
        }
    }
}

/// Background interaction is enabled exactly while no dialog is open;
/// while it is disabled, row selection and back navigation are ignored.
pub open spec fn background_interaction_enabled(s: StateView) -> bool {
    s.modal is Inactive
}

} // verus!
