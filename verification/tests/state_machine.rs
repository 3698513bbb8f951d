use file_manager::entry::{EntryKind, FileSystemEntry, ListingEntry};
use file_manager::machine::FileManager;
use file_manager::paths::EntryPath;
use file_manager::protocol::{Effect, Message, Outcome};
use file_manager::state::{DialogTitle, ModalState, PreviewState, StatusMessage};

fn path_of(parts: &[&str]) -> EntryPath {
    EntryPath { parts: parts.iter().map(|s| s.to_string()).collect() }
}

fn entry_of(parts: &[&str], kind: EntryKind) -> FileSystemEntry {
    FileSystemEntry { path: path_of(parts), kind }
}

/// A toy filesystem standing in for the host: a flat list of absolute
/// paths with their kinds and, for files, their text contents.
struct FakeFs {
    items: Vec<(Vec<String>, EntryKind, Option<String>)>,
}

fn seg(parts: &[&str]) -> Vec<String> {
    parts.iter().map(|s| s.to_string()).collect()
}

impl FakeFs {
    fn new() -> FakeFs {
        FakeFs { items: Vec::new() }
    }

    fn add_dir(&mut self, parts: &[&str]) {
        self.items.push((seg(parts), EntryKind::Directory, None));
    }

    fn add_file(&mut self, parts: &[&str], contents: &str) {
        self.items.push((seg(parts), EntryKind::File, Some(contents.to_string())));
    }

    fn has(&self, p: &[String]) -> bool {
        self.items.iter().any(|(q, _, _)| q == p)
    }

    fn children(&self, dir: &[String]) -> Vec<ListingEntry> {
        self.items
            .iter()
            .filter(|(q, _, _)| q.len() == dir.len() + 1 && q.starts_with(dir))
            .map(|(q, k, _)| ListingEntry { name: q.last().unwrap().clone(), kind: *k })
            .collect()
    }

    fn remove_tree(&mut self, p: &[String]) {
        self.items.retain(|(q, _, _)| !(q.len() >= p.len() && q.starts_with(p)));
    }

    fn rename_tree(&mut self, from: &[String], to: &[String]) {
        for (q, _, _) in self.items.iter_mut() {
            if q.len() >= from.len() && q.starts_with(from) {
                let mut renamed: Vec<String> = to.to_vec();
                renamed.extend_from_slice(&q[from.len()..]);
                *q = renamed;
            }
        }
    }

    fn copy_tree(&mut self, from: &[String], to: &[String]) {
        let copies: Vec<(Vec<String>, EntryKind, Option<String>)> = self
            .items
            .iter()
            .filter(|(q, _, _)| q.len() >= from.len() && q.starts_with(from))
            .map(|(q, k, c)| {
                let mut renamed: Vec<String> = to.to_vec();
                renamed.extend_from_slice(&q[from.len()..]);
                (renamed, *k, c.clone())
            })
            .collect();
        self.items.extend(copies);
    }

    fn contents(&self, p: &[String]) -> Option<String> {
        self.items.iter().find(|(q, _, _)| q == p).and_then(|(_, _, c)| c.clone())
    }
}

fn perform(fs: &mut FakeFs, eff: &Effect) -> Outcome {
    match eff {
        Effect::ReadDir(dir) => Outcome::DirListing(fs.children(&dir.parts)),
        Effect::ReadTextFile(p) => match fs.contents(&p.parts) {
            Some(c) => Outcome::TextLoaded(c),
            None => Outcome::TextUnavailable,
        },
        Effect::CreateDir(p) => {
            if fs.has(&p.parts) {
                Outcome::Failed("already exists".to_string())
            } else {
                fs.items.push((p.parts.clone(), EntryKind::Directory, None));
                Outcome::Done
            }
        }
        Effect::RenameCheck { from: _, to } => Outcome::Found(fs.has(&to.parts)),
        Effect::RenameMove { from, to } => {
            if fs.has(&from.parts) {
                fs.rename_tree(&from.parts, &to.parts);
                Outcome::Done
            } else {
                Outcome::Failed("no such entry".to_string())
            }
        }
        Effect::RemoveFile(p) | Effect::RemoveDirAll(p) => {
            if fs.has(&p.parts) {
                fs.remove_tree(&p.parts);
                Outcome::Done
            } else {
                Outcome::Failed("no such entry".to_string())
            }
        }
        Effect::CopyFile { from, to } | Effect::CopyDirAll { from, to } => {
            if fs.has(&from.parts) {
                fs.copy_tree(&from.parts, &to.parts);
                Outcome::Done
            } else {
                Outcome::Failed("no such entry".to_string())
            }
        }
    }
}

/// Delivers one event and performs every filesystem request it causes.
fn run(fm: FileManager, fs: &mut FakeFs, msg: Message) -> FileManager {
    let (mut fm, mut eff) = fm.update(msg);
    while let Some(e) = eff {
        let out = perform(fs, &e);
        let (next_fm, next_eff) = fm.resolve(&e, out);
        fm = next_fm;
        eff = next_eff;
    }
    fm
}

/// A machine browsing the root of the given toy filesystem, with the
/// initial listing installed.
fn start(fs: &mut FakeFs) -> FileManager {
    let (fm, eff) = FileManager::init(EntryPath { parts: Vec::new() });
    let out = perform(fs, &eff);
    let (fm, next) = fm.resolve(&eff, out);
    assert!(next.is_none());
    fm
}

fn entry_names(fm: &FileManager) -> Vec<String> {
    fm.state
        .entries
        .iter()
        .map(|e| e.path.parts.last().cloned().unwrap_or_default())
        .collect()
}

#[test]
fn initial_listing_is_ordered() {
    let mut fs = FakeFs::new();
    fs.add_file(&["b.txt"], "b");
    fs.add_dir(&["A"]);
    fs.add_file(&["a.txt"], "a");
    fs.add_dir(&["B"]);
    let fm = start(&mut fs);
    assert_eq!(entry_names(&fm), vec!["A", "B", "a.txt", "b.txt"]);
}

#[test]
fn modal_open_events_keep_one_dialog() {
    let mut fs = FakeFs::new();
    let fm = start(&mut fs);
    let fm = run(fm, &mut fs, Message::OpenModal(true));
    assert!(matches!(fm.state.modal, ModalState::FileOptionsMenu));
    let fm = run(fm, &mut fs, Message::OpenActionModal(true, DialogTitle::Rename));
    assert!(matches!(fm.state.modal, ModalState::ActionDialog { .. }));
    let fm = run(fm, &mut fs, Message::OpenDeleteModal(true, "x".to_string()));
    assert!(matches!(fm.state.modal, ModalState::DeleteConfirm { .. }));
    let fm = run(fm, &mut fs, Message::OpenFolderModal(true));
    assert!(matches!(fm.state.modal, ModalState::FolderOptionsMenu));
    let fm = run(fm, &mut fs, Message::OpenFolderModal(false));
    assert!(matches!(fm.state.modal, ModalState::Inactive));
}

#[test]
fn open_action_dialog_clears_file_menu() {
    let mut fs = FakeFs::new();
    let fm = start(&mut fs);
    let fm = run(fm, &mut fs, Message::OpenModal(true));
    let fm = run(fm, &mut fs, Message::OpenActionModal(true, DialogTitle::CreateFolder));
    assert!(matches!(fm.state.modal, ModalState::ActionDialog { .. }));
    let fm = run(fm, &mut fs, Message::OpenModal(true));
    let fm = run(fm, &mut fs, Message::OpenDeleteModal(true, "gone".to_string()));
    assert!(matches!(fm.state.modal, ModalState::DeleteConfirm { .. }));
}

#[test]
fn open_modal_suppresses_selection_and_back() {
    let mut fs = FakeFs::new();
    fs.add_dir(&["sub"]);
    fs.add_file(&["x.txt"], "x");
    let fm = start(&mut fs);
    let fm = run(fm, &mut fs, Message::OpenModal(true));
    let before_path = fm.state.current_path.parts.clone();
    let before_names = entry_names(&fm);
    let fm = run(fm, &mut fs, Message::SelectEntry(entry_of(&["sub"], EntryKind::Directory)));
    assert_eq!(fm.state.current_path.parts, before_path);
    assert_eq!(entry_names(&fm), before_names);
    assert!(fm.state.selected.is_none());
    assert!(!fm.state.viewer.open);
    let fm = run(fm, &mut fs, Message::GoBack);
    assert_eq!(fm.state.current_path.parts, before_path);
    assert_eq!(entry_names(&fm), before_names);
}

#[test]
fn create_folder_with_blank_name_changes_nothing() {
    let mut fs = FakeFs::new();
    fs.add_dir(&["keep"]);
    let fm = start(&mut fs);
    let before: Vec<Vec<String>> = fs.items.iter().map(|(p, _, _)| p.clone()).collect();
    let fm = run(fm, &mut fs, Message::CreateFolder);
    let fm = run(fm, &mut fs, Message::UpdateFolderName("   ".to_string()));
    let fm = run(fm, &mut fs, Message::ConfirmAction);
    let after: Vec<Vec<String>> = fs.items.iter().map(|(p, _, _)| p.clone()).collect();
    assert_eq!(before, after);
    assert_eq!(fm.state.status, StatusMessage::EmptyFolderName);
    assert!(matches!(fm.state.modal, ModalState::Inactive));
}

#[test]
fn create_folder_trims_and_creates() {
    let mut fs = FakeFs::new();
    let fm = start(&mut fs);
    let fm = run(fm, &mut fs, Message::CreateFolder);
    let fm = run(fm, &mut fs, Message::UpdateFolderName("  new folder  ".to_string()));
    let fm = run(fm, &mut fs, Message::ConfirmAction);
    assert!(fs.has(&seg(&["new folder"])));
    assert_eq!(fm.state.status, StatusMessage::CreatedFolder(path_of(&["new folder"])));
    assert_eq!(entry_names(&fm), vec!["new folder"]);
    assert!(matches!(fm.state.modal, ModalState::Inactive));
}

#[test]
fn create_folder_collision_reports_host_error() {
    let mut fs = FakeFs::new();
    fs.add_dir(&["taken"]);
    let fm = start(&mut fs);
    let fm = run(fm, &mut fs, Message::CreateFolder);
    let fm = run(fm, &mut fs, Message::UpdateFolderName("taken".to_string()));
    let fm = run(fm, &mut fs, Message::ConfirmAction);
    assert_eq!(fm.state.status, StatusMessage::CreateFolderFailed("already exists".to_string()));
}

#[test]
fn rename_collision_keeps_both_files() {
    let mut fs = FakeFs::new();
    fs.add_file(&["a.txt"], "a");
    fs.add_file(&["b.txt"], "b");
    let fm = start(&mut fs);
    let fm = run(fm, &mut fs, Message::SelectEntry(entry_of(&["a.txt"], EntryKind::File)));
    let fm = run(fm, &mut fs, Message::GoBack);
    let fm = run(fm, &mut fs, Message::RenameSelected);
    let fm = run(fm, &mut fs, Message::UpdateFolderName("b.txt".to_string()));
    let fm = run(fm, &mut fs, Message::ConfirmAction);
    assert_eq!(fm.state.status, StatusMessage::NameCollision("b.txt".to_string()));
    assert!(fs.has(&seg(&["a.txt"])));
    assert!(fs.has(&seg(&["b.txt"])));
    assert!(matches!(fm.state.modal, ModalState::Inactive));
}

#[test]
fn rename_to_fresh_name_moves_the_file() {
    let mut fs = FakeFs::new();
    fs.add_file(&["a.txt"], "a");
    let fm = start(&mut fs);
    let fm = run(fm, &mut fs, Message::SelectEntry(entry_of(&["a.txt"], EntryKind::File)));
    let fm = run(fm, &mut fs, Message::GoBack);
    let fm = run(fm, &mut fs, Message::RenameSelected);
    let fm = run(fm, &mut fs, Message::UpdateFolderName("c.txt".to_string()));
    let fm = run(fm, &mut fs, Message::ConfirmAction);
    assert_eq!(fm.state.status, StatusMessage::Renamed(path_of(&["c.txt"])));
    assert!(!fs.has(&seg(&["a.txt"])));
    assert!(fs.has(&seg(&["c.txt"])));
    assert_eq!(entry_names(&fm), vec!["c.txt"]);
}

#[test]
fn rename_with_blank_name_reports_empty_name() {
    let mut fs = FakeFs::new();
    fs.add_file(&["a.txt"], "a");
    let fm = start(&mut fs);
    let fm = run(fm, &mut fs, Message::SelectEntry(entry_of(&["a.txt"], EntryKind::File)));
    let fm = run(fm, &mut fs, Message::GoBack);
    let fm = run(fm, &mut fs, Message::RenameSelected);
    let fm = run(fm, &mut fs, Message::UpdateFolderName(" \t ".to_string()));
    let fm = run(fm, &mut fs, Message::ConfirmAction);
    assert_eq!(fm.state.status, StatusMessage::EmptyNewName);
    assert!(fs.has(&seg(&["a.txt"])));
}

#[test]
fn rename_vanished_source_reports_host_error() {
    let mut fs = FakeFs::new();
    fs.add_file(&["a.txt"], "a");
    let fm = start(&mut fs);
    let fm = run(fm, &mut fs, Message::SelectEntry(entry_of(&["a.txt"], EntryKind::File)));
    let fm = run(fm, &mut fs, Message::GoBack);
    fs.remove_tree(&seg(&["a.txt"]));
    let fm = run(fm, &mut fs, Message::RenameSelected);
    let fm = run(fm, &mut fs, Message::UpdateFolderName("c.txt".to_string()));
    let fm = run(fm, &mut fs, Message::ConfirmAction);
    assert_eq!(fm.state.status, StatusMessage::RenameFailed("no such entry".to_string()));
}

#[test]
fn delete_selected_directory_removes_it_everywhere() {
    let mut fs = FakeFs::new();
    fs.add_dir(&["doomed"]);
    fs.add_file(&["doomed", "inner.txt"], "gone too");
    fs.add_file(&["stay.txt"], "stays");
    let fm = start(&mut fs);
    let fm = run(fm, &mut fs, Message::SelectEntry(entry_of(&["doomed"], EntryKind::Directory)));
    let fm = run(fm, &mut fs, Message::GoBack);
    let fm = run(fm, &mut fs, Message::DeleteSelected);
    assert!(matches!(fm.state.modal, ModalState::DeleteConfirm { .. }));
    let fm = run(fm, &mut fs, Message::ConfirmDelete);
    assert!(!fs.has(&seg(&["doomed"])));
    assert!(!fs.has(&seg(&["doomed", "inner.txt"])));
    assert_eq!(entry_names(&fm), vec!["stay.txt"]);
    assert!(fm.state.selected.is_none());
    assert_eq!(fm.state.status, StatusMessage::Deleted("doomed".to_string()));
    assert!(matches!(fm.state.modal, ModalState::Inactive));
}

#[test]
fn delete_vanished_entry_reports_host_error_and_clears_selection() {
    let mut fs = FakeFs::new();
    fs.add_file(&["a.txt"], "a");
    let fm = start(&mut fs);
    let fm = run(fm, &mut fs, Message::SelectEntry(entry_of(&["a.txt"], EntryKind::File)));
    let fm = run(fm, &mut fs, Message::GoBack);
    fs.remove_tree(&seg(&["a.txt"]));
    let fm = run(fm, &mut fs, Message::DeleteSelected);
    let fm = run(fm, &mut fs, Message::ConfirmDelete);
    assert_eq!(fm.state.status, StatusMessage::DeleteFailed("no such entry".to_string()));
    assert!(fm.state.selected.is_none());
}

#[test]
fn delete_without_selection_reports_no_selection() {
    let mut fs = FakeFs::new();
    let fm = start(&mut fs);
    let fm = run(fm, &mut fs, Message::DeleteSelected);
    assert_eq!(fm.state.status, StatusMessage::NoSelection);
    assert!(matches!(fm.state.modal, ModalState::Inactive));
}

#[test]
fn copy_paste_round_trip_into_subdirectory() {
    let mut fs = FakeFs::new();
    fs.add_file(&["x.txt"], "payload");
    fs.add_dir(&["sub"]);
    let fm = start(&mut fs);
    let fm = run(fm, &mut fs, Message::SelectEntry(entry_of(&["x.txt"], EntryKind::File)));
    let fm = run(fm, &mut fs, Message::GoBack);
    let fm = run(fm, &mut fs, Message::CopySelected);
    assert_eq!(fm.state.status, StatusMessage::CopiedToClipboard);
    let fm = run(fm, &mut fs, Message::SelectEntry(entry_of(&["sub"], EntryKind::Directory)));
    assert_eq!(fm.state.status, StatusMessage::EnteredDirectory);
    let fm = run(fm, &mut fs, Message::Paste);
    assert_eq!(fm.state.status, StatusMessage::PastedOk);
    assert!(fs.has(&seg(&["sub", "x.txt"])));
    assert_eq!(fs.contents(&seg(&["sub", "x.txt"])), Some("payload".to_string()));
    assert_eq!(entry_names(&fm), vec!["x.txt"]);
}

#[test]
fn paste_directory_copies_its_contents() {
    let mut fs = FakeFs::new();
    fs.add_dir(&["bundle"]);
    fs.add_file(&["bundle", "part.txt"], "part");
    fs.add_dir(&["target"]);
    let fm = start(&mut fs);
    let fm = run(fm, &mut fs, Message::SelectEntry(entry_of(&["bundle"], EntryKind::Directory)));
    let fm = run(fm, &mut fs, Message::GoBack);
    let fm = run(fm, &mut fs, Message::CopySelected);
    let fm = run(fm, &mut fs, Message::SelectEntry(entry_of(&["target"], EntryKind::Directory)));
    let fm = run(fm, &mut fs, Message::Paste);
    assert_eq!(fm.state.status, StatusMessage::PastedOk);
    assert!(fs.has(&seg(&["target", "bundle"])));
    assert!(fs.has(&seg(&["target", "bundle", "part.txt"])));
    assert_eq!(entry_names(&fm), vec!["bundle"]);
}

#[test]
fn paste_with_empty_clipboard_reports_no_clipboard() {
    let mut fs = FakeFs::new();
    fs.add_file(&["a.txt"], "a");
    let fm = start(&mut fs);
    let fm = run(fm, &mut fs, Message::Paste);
    assert_eq!(fm.state.status, StatusMessage::NoClipboard);
    assert_eq!(entry_names(&fm), vec!["a.txt"]);
}

#[test]
fn paste_vanished_source_reports_host_error() {
    let mut fs = FakeFs::new();
    fs.add_file(&["x.txt"], "x");
    let fm = start(&mut fs);
    let fm = run(fm, &mut fs, Message::SelectEntry(entry_of(&["x.txt"], EntryKind::File)));
    let fm = run(fm, &mut fs, Message::GoBack);
    let fm = run(fm, &mut fs, Message::CopySelected);
    fs.remove_tree(&seg(&["x.txt"]));
    let fm = run(fm, &mut fs, Message::Paste);
    assert_eq!(fm.state.status, StatusMessage::PasteFailed("no such entry".to_string()));
}

#[test]
fn copy_without_selection_reports_no_selection() {
    let mut fs = FakeFs::new();
    let fm = start(&mut fs);
    let fm = run(fm, &mut fs, Message::CopySelected);
    assert_eq!(fm.state.status, StatusMessage::NoSelection);
}

#[test]
fn go_back_at_root_changes_nothing_but_status() {
    let mut fs = FakeFs::new();
    fs.add_file(&["a.txt"], "a");
    let fm = start(&mut fs);
    let fm = run(fm, &mut fs, Message::GoBack);
    assert!(fm.state.current_path.parts.is_empty());
    assert_eq!(fm.state.status, StatusMessage::NoParentDirectory);
    assert_eq!(entry_names(&fm), vec!["a.txt"]);
}

#[test]
fn go_back_from_subdirectory_returns_to_parent() {
    let mut fs = FakeFs::new();
    fs.add_dir(&["sub"]);
    fs.add_file(&["sub", "inner.txt"], "i");
    fs.add_file(&["top.txt"], "t");
    let fm = start(&mut fs);
    let fm = run(fm, &mut fs, Message::SelectEntry(entry_of(&["sub"], EntryKind::Directory)));
    assert_eq!(fm.state.current_path.parts, seg(&["sub"]));
    assert_eq!(entry_names(&fm), vec!["inner.txt"]);
    let fm = run(fm, &mut fs, Message::GoBack);
    assert_eq!(fm.state.status, StatusMessage::WentBack);
    assert!(fm.state.current_path.parts.is_empty());
    assert_eq!(entry_names(&fm), vec!["sub", "top.txt"]);
}

#[test]
fn select_pdf_yields_pdf_preview() {
    let mut fs = FakeFs::new();
    fs.add_file(&["paper.pdf"], "%PDF");
    let fm = start(&mut fs);
    let fm = run(fm, &mut fs, Message::SelectEntry(entry_of(&["paper.pdf"], EntryKind::File)));
    assert!(fm.state.viewer.open);
    assert_eq!(fm.state.viewer.preview, PreviewState::Pdf(path_of(&["paper.pdf"])));
}

#[test]
fn select_png_yields_image_preview() {
    let mut fs = FakeFs::new();
    fs.add_file(&["pic.png"], "");
    let fm = start(&mut fs);
    let fm = run(fm, &mut fs, Message::SelectEntry(entry_of(&["pic.png"], EntryKind::File)));
    assert!(fm.state.viewer.open);
    assert_eq!(fm.state.viewer.preview, PreviewState::Image(path_of(&["pic.png"])));
}

#[test]
fn select_plain_file_yields_exact_text_contents() {
    let mut fs = FakeFs::new();
    fs.add_file(&["notes"], "line one\nline two\n");
    let fm = start(&mut fs);
    let fm = run(fm, &mut fs, Message::SelectEntry(entry_of(&["notes"], EntryKind::File)));
    assert!(fm.state.viewer.open);
    assert_eq!(
        fm.state.viewer.preview,
        PreviewState::Text("line one\nline two\n".to_string())
    );
}

#[test]
fn select_unreadable_file_yields_no_preview() {
    let mut fs = FakeFs::new();
    fs.add_file(&["a.txt"], "a");
    let fm = start(&mut fs);
    let stray = entry_of(&["stray.bin"], EntryKind::File);
    let fm = run(fm, &mut fs, Message::SelectEntry(stray));
    assert!(fm.state.viewer.open);
    assert_eq!(fm.state.viewer.preview, PreviewState::Unsupported);
}

#[test]
fn go_back_closes_viewer_without_changing_directory() {
    let mut fs = FakeFs::new();
    fs.add_dir(&["sub"]);
    fs.add_file(&["sub", "notes"], "text");
    let fm = start(&mut fs);
    let fm = run(fm, &mut fs, Message::SelectEntry(entry_of(&["sub"], EntryKind::Directory)));
    let fm = run(fm, &mut fs, Message::SelectEntry(entry_of(&["sub", "notes"], EntryKind::File)));
    assert!(fm.state.viewer.open);
    let fm = run(fm, &mut fs, Message::GoBack);
    assert!(!fm.state.viewer.open);
    assert!(matches!(fm.state.viewer.preview, PreviewState::Empty));
    assert_eq!(fm.state.current_path.parts, seg(&["sub"]));
}

#[test]
fn rename_without_selection_closes_dialog_silently() {
    let mut fs = FakeFs::new();
    let fm = start(&mut fs);
    let before_status = fm.state.status == StatusMessage::Ready;
    assert!(before_status);
    let fm = run(fm, &mut fs, Message::RenameSelected);
    assert!(matches!(fm.state.modal, ModalState::Inactive));
    let fm = run(fm, &mut fs, Message::OpenActionModal(true, DialogTitle::Rename));
    let fm = run(fm, &mut fs, Message::UpdateFolderName("anything".to_string()));
    let fm = run(fm, &mut fs, Message::ConfirmAction);
    assert!(matches!(fm.state.modal, ModalState::Inactive));
    assert_eq!(fm.state.status, StatusMessage::Ready);
}

#[test]
fn update_folder_name_without_dialog_is_ignored() {
    let mut fs = FakeFs::new();
    let fm = start(&mut fs);
    let fm = run(fm, &mut fs, Message::UpdateFolderName("stray".to_string()));
    assert!(matches!(fm.state.modal, ModalState::Inactive));
    let fm = run(fm, &mut fs, Message::ConfirmAction);
    assert_eq!(fm.state.status, StatusMessage::Ready);
}
