//! The mathematical model of the state machine: one spec function per
//! input event and per effect outcome. The executable machine is proved
//! to match these functions exactly.

use vstd::prelude::*;

use crate::entry::EntryKind;
use crate::listing::{entries_from_listing, sort_entries_spec};
use crate::paths::{path_name, path_with_name};
use crate::protocol::{EffectView, MessageView, OutcomeView};
use crate::state::{
    background_interaction_enabled, viewer_closed, DialogTitle, ModalView, PreviewView,
    StateView, StatusView, ViewerView,
};
use crate::text::{decision_of_name, trim_chars, PreviewDecision};

verus! {

/// A state paired with at most one filesystem request.
pub type Step = (StateView, Option<EffectView>);

/// The state at startup: browsing `current_path` with an empty listing,
/// nothing selected or copied, no dialog, the viewer closed. The paired
/// initial effect fills the listing.
pub open spec fn initial_state(current_path: Seq<Seq<char>>) -> StateView {
    StateView {
        current_path: current_path,
        entries: Seq::empty(),
        selected: Option::None,
        copied: Option::None,
        modal: ModalView::Inactive,
        viewer: viewer_closed(),
        status: StatusView::Ready,
    }
}

/// The request that fills the initial listing.
pub open spec fn initial_effect(current_path: Seq<Seq<char>>) -> EffectView {
    EffectView::ReadDir(current_path)
}

/// Closing the viewer takes precedence; otherwise navigation goes to the
/// parent directory and re-reads it, and at the root it only reports that
/// no parent exists.
pub open spec fn step_go_back(s: StateView) -> Step {
    if !background_interaction_enabled(s) {
        (s, Option::None)
    } else if s.viewer.open {
        (StateView { viewer: viewer_closed(), ..s }, Option::None)
    } else if s.current_path.len() > 0 {
        let parent = s.current_path.drop_last();
        (
            StateView { current_path: parent, status: StatusView::WentBack, ..s },
            Option::Some(EffectView::ReadDir(parent)),
        )
    } else {
        (StateView { status: StatusView::NoParentDirectory, ..s }, Option::None)
    }
}

/// Selecting a directory enters it and re-reads the listing; selecting a
/// file opens the viewer and classifies the preview by the display name,
/// asking for a text read when no extension decides.
pub open spec fn step_select_entry(s: StateView, e: crate::entry::EntryView) -> Step {
    if !background_interaction_enabled(s) {
        (s, Option::None)
    } else if e.kind is Directory {
        (
            StateView {
                selected: Option::Some(e),
                current_path: e.path,
                viewer: viewer_closed(),
                status: StatusView::EnteredDirectory,
                ..s
            },
            Option::Some(EffectView::ReadDir(e.path)),
        )
    } else {
        let opened = match decision_of_name(path_name(e.path)) {
            PreviewDecision::ShowImage => (
                ViewerView {
                    open: true,
                    file: Option::Some(e.path),
                    preview: PreviewView::Image(e.path),
                },
                Option::<EffectView>::None,
            ),
            PreviewDecision::ShowPdf => (
                ViewerView {
                    open: true,
                    file: Option::Some(e.path),
                    preview: PreviewView::Pdf(e.path),
                },
                Option::<EffectView>::None,
            ),
            PreviewDecision::NeedsTextRead => (
                ViewerView { open: true, file: Option::Some(e.path), preview: PreviewView::Empty },
                Option::Some(EffectView::ReadTextFile(e.path)),
            ),
        };
        (StateView { selected: Option::Some(e), viewer: opened.0, ..s }, opened.1)
    }
}

/// Asking to delete opens the confirmation for the selected name, and
/// without a selection only reports that nothing is selected.
pub open spec fn step_delete_selected(s: StateView) -> Step {
    match s.selected {
        Option::Some(sel) => (
            StateView {
                modal: ModalView::DeleteConfirm { target_name: path_name(sel.path) },
                ..s
            },
            Option::None,
        ),
        Option::None => (StateView { status: StatusView::NoSelection, ..s }, Option::None),
    }
}

/// Opens the create-folder dialog with an empty input buffer.
pub open spec fn step_create_folder(s: StateView) -> Step {
    (
        StateView {
            modal: ModalView::ActionDialog {
                title: DialogTitle::CreateFolder,
                input: Seq::empty(),
            },
            ..s
        },
        Option::None,
    )
}

/// Opens the rename dialog when something is selected; does nothing
/// otherwise.
pub open spec fn step_rename_selected(s: StateView) -> Step {
    if s.selected is Some {
        (
            StateView {
                modal: ModalView::ActionDialog { title: DialogTitle::Rename, input: Seq::empty() },
                ..s
            },
            Option::None,
        )
    } else {
        (s, Option::None)
    }
}

/// Stages the selection on the clipboard; without a selection only
/// reports that nothing is selected.
pub open spec fn step_copy_selected(s: StateView) -> Step {
    match s.selected {
        Option::Some(sel) => (
            StateView {
                copied: Option::Some(sel),
                status: StatusView::CopiedToClipboard,
                ..s
            },
            Option::None,
        ),
        Option::None => (StateView { status: StatusView::NoSelection, ..s }, Option::None),
    }
}

/// Pasting copies the clipboard entry under its own name into the current
/// directory; with an empty clipboard it reports so and still re-reads
/// the listing.
pub open spec fn step_paste(s: StateView) -> Step {
    match s.copied {
        Option::Some(c) => {
            let dest = s.current_path.push(path_name(c.path));
            let eff = if c.kind is Directory {
                EffectView::CopyDirAll { from: c.path, to: dest }
            } else {
                EffectView::CopyFile { from: c.path, to: dest }
            };
            (s, Option::Some(eff))
        },
        Option::None => (
            StateView { status: StatusView::NoClipboard, ..s },
            Option::Some(EffectView::ReadDir(s.current_path)),
        ),
    }
}

/// Opening any dialog replaces whatever dialog was open; closing one
/// leaves no dialog at all.
pub open spec fn step_open_file_menu(s: StateView, open: bool) -> Step {
    let modal = if open {
        ModalView::FileOptionsMenu
    } else {
        ModalView::Inactive
    };
    (StateView { modal, ..s }, Option::None)
}

/// See [`step_open_file_menu`].
pub open spec fn step_open_folder_menu(s: StateView, open: bool) -> Step {
    let modal = if open {
        ModalView::FolderOptionsMenu
    } else {
        ModalView::Inactive
    };
    (StateView { modal, ..s }, Option::None)
}

/// See [`step_open_file_menu`]; the dialog starts with an empty input.
pub open spec fn step_open_action_dialog(s: StateView, open: bool, title: DialogTitle) -> Step {
    let modal = if open {
        ModalView::ActionDialog { title, input: Seq::empty() }
    } else {
        ModalView::Inactive
    };
    (StateView { modal, ..s }, Option::None)
}

/// See [`step_open_file_menu`].
pub open spec fn step_open_delete_confirm(s: StateView, open: bool, target_name: Seq<char>) -> Step {
    let modal = if open {
        ModalView::DeleteConfirm { target_name }
    } else {
        ModalView::Inactive
    };
    (StateView { modal, ..s }, Option::None)
}

/// Replaces the input buffer of an open action dialog; ignored while no
/// action dialog is open.
pub open spec fn step_update_folder_name(s: StateView, text: Seq<char>) -> Step {
    match s.modal {
        ModalView::ActionDialog { title, input } => (
            StateView { modal: ModalView::ActionDialog { title, input: text }, ..s },
            Option::None,
        ),
        _ => (s, Option::None),
    }
}

/// Confirming the action dialog dispatches on its title. The dialog
/// closes whatever happens. A name blank after trimming fails without
/// touching the filesystem; renaming without a selection closes the
/// dialog silently; otherwise the matching filesystem request is issued.
pub open spec fn step_confirm_action(s: StateView) -> Step {
    match s.modal {
        ModalView::ActionDialog { title, input } => {
            let trimmed = trim_chars(input);
            let closed = StateView { modal: ModalView::Inactive, ..s };
            match title {
                DialogTitle::CreateFolder => {
                    if trimmed.len() == 0 {
                        (
                            StateView { status: StatusView::EmptyFolderName, ..closed },
                            Option::None,
                        )
                    } else {
                        (
                            closed,
                            Option::Some(
                                EffectView::CreateDir(s.current_path.push(trimmed)),
                            ),
                        )
                    }
                },
                DialogTitle::Rename => {
                    if trimmed.len() == 0 {
                        (StateView { status: StatusView::EmptyNewName, ..closed }, Option::None)
                    } else {
                        match s.selected {
                            Option::Some(sel) => (
                                closed,
                                Option::Some(
                                    EffectView::RenameCheck {
                                        from: sel.path,
                                        to: path_with_name(sel.path, trimmed),
                                    },
                                ),
                            ),
                            Option::None => (closed, Option::None),
                        }
                    }
                },
            }
        },
        _ => (s, Option::None),
    }
}

/// Confirming the delete dialog removes the selected entry, a directory
/// recursively and a file singly. The dialog closes whatever happens;
/// without a selection the listing is still re-read.
pub open spec fn step_confirm_delete(s: StateView) -> Step {
    match s.modal {
        ModalView::DeleteConfirm { target_name } => {
            let closed = StateView { modal: ModalView::Inactive, ..s };
            match s.selected {
                Option::Some(sel) => {
                    let eff = if sel.kind is Directory {
                        EffectView::RemoveDirAll(sel.path)
                    } else {
                        EffectView::RemoveFile(sel.path)
                    };
                    (closed, Option::Some(eff))
                },
                Option::None => (closed, Option::Some(EffectView::ReadDir(s.current_path))),
            }
        },
        _ => (s, Option::None),
    }
}

/// The transition for one input event: the next state and at most one
/// filesystem request.
pub open spec fn step_model(s: StateView, m: MessageView) -> Step {
    match m {
        MessageView::GoBack => step_go_back(s),
        MessageView::SelectEntry(e) => step_select_entry(s, e),
        MessageView::DeleteSelected => step_delete_selected(s),
        MessageView::CreateFolder => step_create_folder(s),
        MessageView::RenameSelected => step_rename_selected(s),
        MessageView::CopySelected => step_copy_selected(s),
        MessageView::Paste => step_paste(s),
        MessageView::OpenModal(b) => step_open_file_menu(s, b),
        MessageView::OpenFolderModal(b) => step_open_folder_menu(s, b),
        MessageView::OpenActionModal(b, t) => step_open_action_dialog(s, b, t),
        MessageView::OpenDeleteModal(b, n) => step_open_delete_confirm(s, b, n),
        MessageView::ConfirmAction => step_confirm_action(s),
        MessageView::ConfirmDelete => step_confirm_delete(s),
        MessageView::UpdateFolderName(n) => step_update_folder_name(s, n),
    }
}

/// Every mutation concludes with a re-read of the current directory.
pub open spec fn reread(s: StateView) -> Option<EffectView> {
    Option::Some(EffectView::ReadDir(s.current_path))
}

/// The transition for one observed outcome. A directory read installs
/// the ordered listing; a text read fills the preview; the existence
/// check either reports the collision or issues the actual rename; every
/// mutation records its status — deletion also clears the selection —
/// and concludes with a re-read. An outcome that does not answer the
/// effect is ignored.
pub open spec fn resolve_model(s: StateView, e: EffectView, o: OutcomeView) -> Step {
    match (e, o) {
        (EffectView::ReadDir(dir), OutcomeView::DirListing(raw)) => (
            StateView { entries: sort_entries_spec(entries_from_listing(dir, raw)), ..s },
            Option::None,
        ),
        (EffectView::ReadTextFile(p), OutcomeView::TextLoaded(c)) => (
            StateView {
                viewer: ViewerView { preview: PreviewView::Text(c), ..s.viewer },
                ..s
            },
            Option::None,
        ),
        (EffectView::ReadTextFile(p), OutcomeView::TextUnavailable) => (
            StateView {
                viewer: ViewerView { preview: PreviewView::Unsupported, ..s.viewer },
                ..s
            },
            Option::None,
        ),
        (EffectView::CreateDir(p), OutcomeView::Done) => (
            StateView { status: StatusView::CreatedFolder(p), ..s },
            reread(s),
        ),
        (EffectView::CreateDir(p), OutcomeView::Failed(err)) => (
            StateView { status: StatusView::CreateFolderFailed(err), ..s },
            reread(s),
        ),
        (EffectView::RenameCheck { from, to }, OutcomeView::Found(exists)) => {
            if exists {
                (
                    StateView { status: StatusView::NameCollision(path_name(to)), ..s },
                    Option::None,
                )
            } else {
                (s, Option::Some(EffectView::RenameMove { from, to }))
            }
        },
        (EffectView::RenameMove { from, to }, OutcomeView::Done) => (
            StateView { status: StatusView::Renamed(to), ..s },
            reread(s),
        ),
        (EffectView::RenameMove { from, to }, OutcomeView::Failed(err)) => (
            StateView { status: StatusView::RenameFailed(err), ..s },
            reread(s),
        ),
        (EffectView::RemoveFile(p), OutcomeView::Done) => (
            StateView {
                status: StatusView::Deleted(path_name(p)),
                selected: Option::None,
                ..s
            },
            reread(s),
        ),
        (EffectView::RemoveFile(p), OutcomeView::Failed(err)) => (
            StateView { status: StatusView::DeleteFailed(err), selected: Option::None, ..s },
            reread(s),
        ),
        (EffectView::RemoveDirAll(p), OutcomeView::Done) => (
            StateView {
                status: StatusView::Deleted(path_name(p)),
                selected: Option::None,
                ..s
            },
            reread(s),
        ),
        (EffectView::RemoveDirAll(p), OutcomeView::Failed(err)) => (
            StateView { status: StatusView::DeleteFailed(err), selected: Option::None, ..s },
            reread(s),
        ),
        (EffectView::CopyFile { from, to }, OutcomeView::Done) => (
            StateView { status: StatusView::PastedOk, ..s },
            reread(s),
        ),
        (EffectView::CopyFile { from, to }, OutcomeView::Failed(err)) => (
            StateView { status: StatusView::PasteFailed(err), ..s },
            reread(s),
        ),
        (EffectView::CopyDirAll { from, to }, OutcomeView::Done) => (
            StateView { status: StatusView::PastedOk, ..s },
            reread(s),
        ),
        (EffectView::CopyDirAll { from, to }, OutcomeView::Failed(err)) => (
            StateView { status: StatusView::PasteFailed(err), ..s },
            reread(s),
        ),
        _ => (s, Option::None),
    }
}

} // verus!
