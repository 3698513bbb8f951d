//! The executable state machine, proved to match the model transition
//! functions exactly: every event handler and every outcome handler
//! returns precisely the state and effect the model prescribes.

use vstd::prelude::*;

use crate::entry::{EntryKind, FileSystemEntry};
use crate::listing::{entries_from_listing, sort_entries};
use crate::model::{
    initial_effect, initial_state, resolve_model, step_confirm_action, step_confirm_delete,
    step_copy_selected, step_create_folder, step_delete_selected, step_go_back,
    step_open_action_dialog, step_open_delete_confirm, step_open_file_menu,
    step_open_folder_menu, step_paste, step_rename_selected, step_select_entry, step_model,
    step_update_folder_name,
};
use crate::paths::EntryPath;
use crate::protocol::{Effect, Message, Outcome};
use crate::state::{
    DialogTitle, FileManagerState, ModalState, PreviewState, StateView, StatusMessage,
    ViewerState,
};
use crate::text::{classify_name, trim_string, PreviewDecision};

verus! {

/// The file manager: the aggregate state, stepped by input events and by
/// the outcomes of the filesystem requests it issues.
#[derive(Debug)]
pub struct FileManager {
    pub state: FileManagerState,
}

impl View for FileManager {
    type V = StateView;

    open spec fn view(&self) -> StateView {
        self.state@
    }
}

/// One stepped state paired with at most one filesystem request.
type StatePair = (FileManagerState, Option<Effect>);

fn closed_viewer() -> (v: ViewerState)
    ensures
        v@ == crate::state::viewer_closed(),
{
    let v = ViewerState { open: false, file: Option::None, preview: PreviewState::Empty };
    proof {
        assert(v@ =~~= crate::state::viewer_closed());
    }
    v
}

fn modal_is_inactive(st: &FileManagerState) -> (b: bool)
    ensures
        b == crate::state::background_interaction_enabled(st@),
{
    matches!(st.modal, ModalState::Inactive)
}

fn go_back(st: FileManagerState) -> (r: StatePair)
    ensures
        r.0@ == step_go_back(st@).0,
        r.1.deep_view() == step_go_back(st@).1,
{
    let ghost s0 = st@;
    let mut st = st;
    if !modal_is_inactive(&st) {
        (st, Option::None)
    } else if st.viewer.open {
        st.viewer = closed_viewer();
        proof {
            assert(st@ =~~= step_go_back(s0).0);
        }
        (st, Option::None)
    } else if st.current_path.parts.len() > 0 {
        st.current_path.parts.pop();
        st.status = StatusMessage::WentBack;
        let eff = Effect::ReadDir(st.current_path.clone_path());
        proof {
            assert(st.current_path@ =~~= s0.current_path.drop_last());
            assert(st@ =~~= step_go_back(s0).0);
            assert(Option::Some(eff).deep_view() =~~= step_go_back(s0).1);
        }
        (st, Option::Some(eff))
    } else {
        st.status = StatusMessage::NoParentDirectory;
        proof {
            assert(st@ =~~= step_go_back(s0).0);
        }
        (st, Option::None)
    }
}

fn select_entry(st: FileManagerState, e: FileSystemEntry) -> (r: StatePair)
    ensures
        r.0@ == step_select_entry(st@, e@).0,
        r.1.deep_view() == step_select_entry(st@, e@).1,
{
    let ghost s0 = st@;
    let ghost e0 = e@;
    let mut st = st;
    if !modal_is_inactive(&st) {
        (st, Option::None)
    } else if matches!(e.kind, EntryKind::Directory) {
        st.current_path = e.path.clone_path();
        st.viewer = closed_viewer();
        st.status = StatusMessage::EnteredDirectory;
        st.selected = Option::Some(e);
        let eff = Effect::ReadDir(st.current_path.clone_path());
        proof {
            assert(st@ =~~= step_select_entry(s0, e0).0);
            assert(Option::Some(eff).deep_view() =~~= step_select_entry(s0, e0).1);
        }
        (st, Option::Some(eff))
    } else {
        let name = e.path.name_string();
        let decision = classify_name(name.as_str());
        let eff: Option<Effect> = match decision {
            PreviewDecision::ShowImage => {
                st.viewer = ViewerState {
                    open: true,
                    file: Option::Some(e.path.clone_path()),
                    preview: PreviewState::Image(e.path.clone_path()),
                };
                Option::None
            },
            PreviewDecision::ShowPdf => {
                st.viewer = ViewerState {
                    open: true,
                    file: Option::Some(e.path.clone_path()),
                    preview: PreviewState::Pdf(e.path.clone_path()),
                };
                Option::None
            },
            PreviewDecision::NeedsTextRead => {
                st.viewer = ViewerState {
                    open: true,
                    file: Option::Some(e.path.clone_path()),
                    preview: PreviewState::Empty,
                };
                Option::Some(Effect::ReadTextFile(e.path.clone_path()))
            },
        };
        st.selected = Option::Some(e);
        proof {
            assert(st@ =~~= step_select_entry(s0, e0).0);
            assert(eff.deep_view() =~~= step_select_entry(s0, e0).1);
        }
        (st, eff)
    }
}

fn delete_selected(st: FileManagerState) -> (r: StatePair)
    ensures
        r.0@ == step_delete_selected(st@).0,
        r.1.deep_view() == step_delete_selected(st@).1,
{
    let ghost s0 = st@;
    let mut st = st;
    match &st.selected {
        Option::Some(sel) => {
            let target_name = sel.path.name_string();
            st.modal = ModalState::DeleteConfirm { target_name };
        },
        Option::None => {
            st.status = StatusMessage::NoSelection;
        },
    }
    proof {
        assert(st@ =~~= step_delete_selected(s0).0);
    }
    (st, Option::None)
}

fn create_folder_dialog(st: FileManagerState) -> (r: StatePair)
    ensures
        r.0@ == step_create_folder(st@).0,
        r.1.deep_view() == step_create_folder(st@).1,
{
    let ghost s0 = st@;
    let mut st = st;
    st.modal = ModalState::ActionDialog { title: DialogTitle::CreateFolder, input: String::new() };
    proof {
        assert(st@ =~~= step_create_folder(s0).0);
    }
    (st, Option::None)
}

fn rename_selected_dialog(st: FileManagerState) -> (r: StatePair)
    ensures
        r.0@ == step_rename_selected(st@).0,
        r.1.deep_view() == step_rename_selected(st@).1,
{
    let ghost s0 = st@;
    let mut st = st;
    if st.selected.is_some() {
        st.modal = ModalState::ActionDialog { title: DialogTitle::Rename, input: String::new() };
        proof {
            assert(st@ =~~= step_rename_selected(s0).0);
        }
    }
    (st, Option::None)
}

fn copy_selected(st: FileManagerState) -> (r: StatePair)
    ensures
        r.0@ == step_copy_selected(st@).0,
        r.1.deep_view() == step_copy_selected(st@).1,
{
    let ghost s0 = st@;
    let mut st = st;
    match &st.selected {
        Option::Some(sel) => {
            let staged = sel.clone_entry();
            st.copied = Option::Some(staged);
            st.status = StatusMessage::CopiedToClipboard;
        },
        Option::None => {
            st.status = StatusMessage::NoSelection;
        },
    }
    proof {
        assert(st@ =~~= step_copy_selected(s0).0);
    }
    (st, Option::None)
}

fn paste(st: FileManagerState) -> (r: StatePair)
    ensures
        r.0@ == step_paste(st@).0,
        r.1.deep_view() == step_paste(st@).1,
{
    let ghost s0 = st@;
    let mut st = st;
    match &st.copied {
        Option::Some(c) => {
            let name = c.path.name_string();
            let dest = st.current_path.child(&name);
            let eff = if matches!(c.kind, EntryKind::Directory) {
                Effect::CopyDirAll { from: c.path.clone_path(), to: dest }
            } else {
                Effect::CopyFile { from: c.path.clone_path(), to: dest }
            };
            proof {
                assert(Option::Some(eff).deep_view() =~~= step_paste(s0).1);
            }
            (st, Option::Some(eff))
        },
        Option::None => {
            st.status = StatusMessage::NoClipboard;
            let eff = Effect::ReadDir(st.current_path.clone_path());
            proof {
                assert(st@ =~~= step_paste(s0).0);
                assert(Option::Some(eff).deep_view() =~~= step_paste(s0).1);
            }
            (st, Option::Some(eff))
        },
    }
}

fn open_file_menu(st: FileManagerState, open: bool) -> (r: StatePair)
    ensures
        r.0@ == step_open_file_menu(st@, open).0,
        r.1.deep_view() == step_open_file_menu(st@, open).1,
{
    let ghost s0 = st@;
    let mut st = st;
    st.modal = if open {
        ModalState::FileOptionsMenu
    } else {
        ModalState::Inactive
    };
    proof {
        assert(st@ =~~= step_open_file_menu(s0, open).0);
    }
    (st, Option::None)
}

fn open_folder_menu(st: FileManagerState, open: bool) -> (r: StatePair)
    ensures
        r.0@ == step_open_folder_menu(st@, open).0,
        r.1.deep_view() == step_open_folder_menu(st@, open).1,
{
    let ghost s0 = st@;
    let mut st = st;
    st.modal = if open {
        ModalState::FolderOptionsMenu
    } else {
        ModalState::Inactive
    };
    proof {
        assert(st@ =~~= step_open_folder_menu(s0, open).0);
    }
    (st, Option::None)
}

fn open_action_dialog(st: FileManagerState, open: bool, title: DialogTitle) -> (r: StatePair)
    ensures
        r.0@ == step_open_action_dialog(st@, open, title).0,
        r.1.deep_view() == step_open_action_dialog(st@, open, title).1,
{
    let ghost s0 = st@;
    let mut st = st;
    st.modal = if open {
        ModalState::ActionDialog { title, input: String::new() }
    } else {
        ModalState::Inactive
    };
    proof {
        assert(st@ =~~= step_open_action_dialog(s0, open, title).0);
    }
    (st, Option::None)
}

fn open_delete_confirm(st: FileManagerState, open: bool, target_name: String) -> (r: StatePair)
    ensures
        r.0@ == step_open_delete_confirm(st@, open, target_name@).0,
        r.1.deep_view() == step_open_delete_confirm(st@, open, target_name@).1,
{
    let ghost s0 = st@;
    let ghost n0 = target_name@;
    let mut st = st;
    st.modal = if open {
        ModalState::DeleteConfirm { target_name }
    } else {
        ModalState::Inactive
    };
    proof {
        assert(st@ =~~= step_open_delete_confirm(s0, open, n0).0);
    }
    (st, Option::None)
}

fn update_folder_name(st: FileManagerState, text: String) -> (r: StatePair)
    ensures
        r.0@ == step_update_folder_name(st@, text@).0,
        r.1.deep_view() == step_update_folder_name(st@, text@).1,
{
    let ghost s0 = st@;
    let ghost t0 = text@;
    let mut st = st;
    let title_opt: Option<DialogTitle> = match &st.modal {
        ModalState::ActionDialog { title, .. } => Option::Some(*title),
        _ => Option::None,
    };
    match title_opt {
        Option::Some(title) => {
            st.modal = ModalState::ActionDialog { title, input: text };
            proof {
                assert(st@ =~~= step_update_folder_name(s0, t0).0);
            }
        },
        Option::None => {},
    }
    (st, Option::None)
}

fn confirm_action(st: FileManagerState) -> (r: StatePair)
    ensures
        r.0@ == step_confirm_action(st@).0,
        r.1.deep_view() == step_confirm_action(st@).1,
{
    let ghost s0 = st@;
    let mut st = st;
    let dialog: Option<(DialogTitle, String)> = match &st.modal {
        ModalState::ActionDialog { title, input } => Option::Some((*title, input.clone())),
        _ => Option::None,
    };
    match dialog {
        Option::Some((title, input)) => {
            st.modal = ModalState::Inactive;
            let trimmed = trim_string(input.as_str());
            match title {
                DialogTitle::CreateFolder => {
                    if trimmed.as_str().is_empty() {
                        st.status = StatusMessage::EmptyFolderName;
                        proof {
                            assert(st@ =~~= step_confirm_action(s0).0);
                        }
                        (st, Option::None)
                    } else {
                        let target = st.current_path.child(&trimmed);
                        let eff = Effect::CreateDir(target);
                        proof {
                            assert(st@ =~~= step_confirm_action(s0).0);
                            assert(Option::Some(eff).deep_view() =~~= step_confirm_action(s0).1);
                        }
                        (st, Option::Some(eff))
                    }
                },
                DialogTitle::Rename => {
                    if trimmed.as_str().is_empty() {
                        st.status = StatusMessage::EmptyNewName;
                        proof {
                            assert(st@ =~~= step_confirm_action(s0).0);
                        }
                        (st, Option::None)
                    } else {
                        let eff: Option<Effect> = match &st.selected {
                            Option::Some(sel) => Option::Some(
                                Effect::RenameCheck {
                                    from: sel.path.clone_path(),
                                    to: sel.path.with_name(&trimmed),
                                },
                            ),
                            Option::None => Option::None,
                        };
                        proof {
                            assert(st@ =~~= step_confirm_action(s0).0);
                            assert(eff.deep_view() =~~= step_confirm_action(s0).1);
                        }
                        (st, eff)
                    }
                },
            }
        },
        Option::None => (st, Option::None),
    }
}

fn confirm_delete(st: FileManagerState) -> (r: StatePair)
    ensures
        r.0@ == step_confirm_delete(st@).0,
        r.1.deep_view() == step_confirm_delete(st@).1,
{
    let ghost s0 = st@;
    let mut st = st;
    if matches!(st.modal, ModalState::DeleteConfirm { .. }) {
        st.modal = ModalState::Inactive;
        let eff: Effect = match &st.selected {
            Option::Some(sel) => {
                if matches!(sel.kind, EntryKind::Directory) {
                    Effect::RemoveDirAll(sel.path.clone_path())
                } else {
                    Effect::RemoveFile(sel.path.clone_path())
                }
            },
            Option::None => Effect::ReadDir(st.current_path.clone_path()),
        };
        proof {
            assert(st@ =~~= step_confirm_delete(s0).0);
            assert(Option::Some(eff).deep_view() =~~= step_confirm_delete(s0).1);
        }
        (st, Option::Some(eff))
    } else {
        (st, Option::None)
    }
}

impl FileManager {
    /// The machine at startup, browsing `current_path`, paired with the
    /// request that fills the initial listing.
    pub fn init(current_path: EntryPath) -> (r: (FileManager, Effect))
        ensures
            r.0@ == initial_state(current_path@),
            r.1@ == initial_effect(current_path@),
    {
        let eff = Effect::ReadDir(current_path.clone_path());
        let fm = FileManager {
            state: FileManagerState {
                current_path,
                entries: Vec::new(),
                selected: Option::None,
                copied: Option::None,
                modal: ModalState::Inactive,
                viewer: closed_viewer(),
                status: StatusMessage::Ready,
            },
        };
        proof {
            assert(fm@ =~~= initial_state(fm.state.current_path@));
        }
        (fm, eff)
    }

    /// Handles one input event; returns the stepped machine and at most
    /// one filesystem request for the host.
    pub fn update(self, msg: Message) -> (r: (FileManager, Option<Effect>))
        ensures
            r.0@ == step_model(self@, msg@).0,
            r.1.deep_view() == step_model(self@, msg@).1,
    {
        let FileManager { state } = self;
        let stepped: StatePair = match msg {
            Message::GoBack => go_back(state),
            Message::SelectEntry(e) => select_entry(state, e),
            Message::DeleteSelected => delete_selected(state),
            Message::CreateFolder => create_folder_dialog(state),
            Message::RenameSelected => rename_selected_dialog(state),
            Message::CopySelected => copy_selected(state),
            Message::Paste => paste(state),
            Message::OpenModal(b) => open_file_menu(state, b),
            Message::OpenFolderModal(b) => open_folder_menu(state, b),
            Message::OpenActionModal(b, t) => open_action_dialog(state, b, t),
            Message::OpenDeleteModal(b, n) => open_delete_confirm(state, b, n),
            Message::ConfirmAction => confirm_action(state),
            Message::ConfirmDelete => confirm_delete(state),
            Message::UpdateFolderName(n) => update_folder_name(state, n),
        };
        let (st, eff) = stepped;
        (FileManager { state: st }, eff)
    }

    /// Absorbs the outcome of a filesystem request; returns the stepped
    /// machine and at most one follow-up request.
    pub fn resolve(self, eff: &Effect, outcome: Outcome) -> (r: (FileManager, Option<Effect>))
        ensures
            r.0@ == resolve_model(self@, eff@, outcome@).0,
            r.1.deep_view() == resolve_model(self@, eff@, outcome@).1,
    {
        let FileManager { state } = self;
        let (st, next) = resolve_state(state, eff, outcome);
        (FileManager { state: st }, next)
    }
}

fn build_entries(dir: &EntryPath, raw: &Vec<crate::entry::ListingEntry>) -> (r: Vec<
    FileSystemEntry,
>)
    ensures
        r.deep_view() == entries_from_listing(dir@, raw.deep_view()),
{
    let mut built: Vec<FileSystemEntry> = Vec::new();
    let mut i: usize = 0;
    proof {
        assert(built.deep_view() =~= entries_from_listing(dir@, raw.deep_view()).subrange(0, 0));
    }
    while i < raw.len()
        invariant
            0 <= i <= raw.len(),
            raw.deep_view().len() == raw.len(),
            built.deep_view() == entries_from_listing(dir@, raw.deep_view()).subrange(
                0,
                i as int,
            ),
        decreases raw.len() - i,
    {
        let name = raw[i].name.clone();
        let kind = raw[i].kind;
        let made = FileSystemEntry { path: dir.child(&name), kind };
        let ghost prev = built.deep_view();
        let ghost prevv = built@;
        built.push(made);
        i = i + 1;
        proof {
            let ghost listing = entries_from_listing(dir@, raw.deep_view());
            assert(name@ == raw@[i - 1].name@);
            assert(made@ == listing[i - 1]);
            assert(built@ == prevv.push(made));
            assert(built.deep_view() =~= prev.push(made@));
            assert(prev.push(made@) =~= listing.subrange(0, i as int));
        }
    }
    proof {
        assert(entries_from_listing(dir@, raw.deep_view()).subrange(
            0,
            raw.deep_view().len() as int,
        ) =~= entries_from_listing(dir@, raw.deep_view()));
    }
    built
}

fn reread_effect(st: &FileManagerState) -> (r: Effect)
    ensures
        Option::Some(r).deep_view() == crate::model::reread(st@),
{
    Effect::ReadDir(st.current_path.clone_path())
}

fn resolve_state(st: FileManagerState, eff: &Effect, outcome: Outcome) -> (r: StatePair)
    ensures
        r.0@ == resolve_model(st@, eff@, outcome@).0,
        r.1.deep_view() == resolve_model(st@, eff@, outcome@).1,
{
    let ghost s0 = st@;
    let ghost e0 = eff@;
    let ghost o0 = outcome@;
    let mut st = st;
    match (eff, outcome) {
        (Effect::ReadDir(dir), Outcome::DirListing(raw)) => {
            st.entries = sort_entries(build_entries(dir, &raw));
            proof {
                assert(st@ =~~= resolve_model(s0, e0, o0).0);
            }
            (st, Option::None)
        },
        (Effect::ReadTextFile(_), Outcome::TextLoaded(contents)) => {
            st.viewer.preview = PreviewState::Text(contents);
            proof {
                assert(st@ =~~= resolve_model(s0, e0, o0).0);
            }
            (st, Option::None)
        },
        (Effect::ReadTextFile(_), Outcome::TextUnavailable) => {
            st.viewer.preview = PreviewState::Unsupported;
            proof {
                assert(st@ =~~= resolve_model(s0, e0, o0).0);
            }
            (st, Option::None)
        },
        (Effect::CreateDir(p), Outcome::Done) => {
            st.status = StatusMessage::CreatedFolder(p.clone_path());
            let next = reread_effect(&st);
            proof {
                assert(st@ =~~= resolve_model(s0, e0, o0).0);
            }
            (st, Option::Some(next))
        },
        (Effect::CreateDir(_), Outcome::Failed(err)) => {
            st.status = StatusMessage::CreateFolderFailed(err);
            let next = reread_effect(&st);
            proof {
                assert(st@ =~~= resolve_model(s0, e0, o0).0);
            }
            (st, Option::Some(next))
        },
        (Effect::RenameCheck { from, to }, Outcome::Found(exists)) => {
            if exists {
                st.status = StatusMessage::NameCollision(to.name_string());
                proof {
                    assert(st@ =~~= resolve_model(s0, e0, o0).0);
                }
                (st, Option::None)
            } else {
                let next = Effect::RenameMove { from: from.clone_path(), to: to.clone_path() };
                proof {
                    assert(Option::Some(next).deep_view() =~~= resolve_model(s0, e0, o0).1);
                }
                (st, Option::Some(next))
            }
        },
        (Effect::RenameMove { from: _, to }, Outcome::Done) => {
            st.status = StatusMessage::Renamed(to.clone_path());
            let next = reread_effect(&st);
            proof {
                assert(st@ =~~= resolve_model(s0, e0, o0).0);
            }
            (st, Option::Some(next))
        },
        (Effect::RenameMove { .. }, Outcome::Failed(err)) => {
            st.status = StatusMessage::RenameFailed(err);
            let next = reread_effect(&st);
            proof {
                assert(st@ =~~= resolve_model(s0, e0, o0).0);
            }
            (st, Option::Some(next))
        },
        (Effect::RemoveFile(p), Outcome::Done) => {
            st.status = StatusMessage::Deleted(p.name_string());
            st.selected = Option::None;
            let next = reread_effect(&st);
            proof {
                assert(st@ =~~= resolve_model(s0, e0, o0).0);
            }
            (st, Option::Some(next))
        },
        (Effect::RemoveFile(_), Outcome::Failed(err)) => {
            st.status = StatusMessage::DeleteFailed(err);
            st.selected = Option::None;
            let next = reread_effect(&st);
            proof {
                assert(st@ =~~= resolve_model(s0, e0, o0).0);
            }
            (st, Option::Some(next))
        },
        (Effect::RemoveDirAll(p), Outcome::Done) => {
            st.status = StatusMessage::Deleted(p.name_string());
            st.selected = Option::None;
            let next = reread_effect(&st);
            proof {
                assert(st@ =~~= resolve_model(s0, e0, o0).0);
            }
            (st, Option::Some(next))
        },
        (Effect::RemoveDirAll(_), Outcome::Failed(err)) => {
            st.status = StatusMessage::DeleteFailed(err);
            st.selected = Option::None;
            let next = reread_effect(&st);
            proof {
                assert(st@ =~~= resolve_model(s0, e0, o0).0);
            }
            (st, Option::Some(next))
        },
        (Effect::CopyFile { .. }, Outcome::Done) => {
            st.status = StatusMessage::PastedOk;
            let next = reread_effect(&st);
            proof {
                assert(st@ =~~= resolve_model(s0, e0, o0).0);
            }
            (st, Option::Some(next))
        },
        (Effect::CopyFile { .. }, Outcome::Failed(err)) => {
            st.status = StatusMessage::PasteFailed(err);
            let next = reread_effect(&st);
            proof {
                assert(st@ =~~= resolve_model(s0, e0, o0).0);
            }
            (st, Option::Some(next))
        },
        (Effect::CopyDirAll { .. }, Outcome::Done) => {
            st.status = StatusMessage::PastedOk;
            let next = reread_effect(&st);
            proof {
                assert(st@ =~~= resolve_model(s0, e0, o0).0);
            }
            (st, Option::Some(next))
        },
        (Effect::CopyDirAll { .. }, Outcome::Failed(err)) => {
            st.status = StatusMessage::PasteFailed(err);
            let next = reread_effect(&st);
            proof {
                assert(st@ =~~= resolve_model(s0, e0, o0).0);
            }
            (st, Option::Some(next))
        },
        _ => (st, Option::None),
    }
}

} // verus!
