use file_manager::entry::{EntryKind, FileSystemEntry};
use file_manager::listing::sort_entries;
use file_manager::paths::EntryPath;
use file_manager::text::{classify_name, trim_string, PreviewDecision};

fn path_of(parts: &[&str]) -> EntryPath {
    EntryPath { parts: parts.iter().map(|s| s.to_string()).collect() }
}

fn entry_of(parts: &[&str], kind: EntryKind) -> FileSystemEntry {
    FileSystemEntry { path: path_of(parts), kind }
}

fn names(entries: &[FileSystemEntry]) -> Vec<String> {
    entries.iter().map(|e| e.path.parts.last().cloned().unwrap_or_default()).collect()
}

#[test]
fn sort_directories_before_files_then_by_name() {
    let mixed = vec![
        entry_of(&["b.txt"], EntryKind::File),
        entry_of(&["A"], EntryKind::Directory),
        entry_of(&["a.txt"], EntryKind::File),
        entry_of(&["B"], EntryKind::Directory),
    ];
    let sorted = sort_entries(mixed);
    assert_eq!(names(&sorted), vec!["A", "B", "a.txt", "b.txt"]);
    assert!(matches!(sorted[0].kind, EntryKind::Directory));
    assert!(matches!(sorted[1].kind, EntryKind::Directory));
    assert!(matches!(sorted[2].kind, EntryKind::File));
    assert!(matches!(sorted[3].kind, EntryKind::File));
}

#[test]
fn sort_directory_named_late_still_precedes_files() {
    let mixed = vec![
        entry_of(&["a.txt"], EntryKind::File),
        entry_of(&["zzz"], EntryKind::Directory),
    ];
    let sorted = sort_entries(mixed);
    assert_eq!(names(&sorted), vec!["zzz", "a.txt"]);
}

#[test]
fn sort_is_case_sensitive_bytewise() {
    let mixed = vec![
        entry_of(&["banana"], EntryKind::File),
        entry_of(&["Apple"], EntryKind::File),
        entry_of(&["apple"], EntryKind::File),
        entry_of(&["Banana"], EntryKind::File),
    ];
    let sorted = sort_entries(mixed);
    assert_eq!(names(&sorted), vec!["Apple", "Banana", "apple", "banana"]);
}

#[test]
fn sort_empty_listing() {
    let sorted = sort_entries(Vec::new());
    assert!(sorted.is_empty());
}

#[test]
fn classify_image_extensions() {
    assert_eq!(classify_name("photo.png"), PreviewDecision::ShowImage);
    assert_eq!(classify_name("photo.jpg"), PreviewDecision::ShowImage);
    assert_eq!(classify_name("photo.jpeg"), PreviewDecision::ShowImage);
    assert_eq!(classify_name("photo.gif"), PreviewDecision::ShowImage);
    assert_eq!(classify_name("PHOTO.PNG"), PreviewDecision::ShowImage);
    assert_eq!(classify_name("shot.JpEg"), PreviewDecision::ShowImage);
}

#[test]
fn classify_pdf_extension() {
    assert_eq!(classify_name("paper.pdf"), PreviewDecision::ShowPdf);
    assert_eq!(classify_name("PAPER.PDF"), PreviewDecision::ShowPdf);
}

#[test]
fn classify_other_names_need_text_read() {
    assert_eq!(classify_name("notes.txt"), PreviewDecision::NeedsTextRead);
    assert_eq!(classify_name("notes"), PreviewDecision::NeedsTextRead);
    assert_eq!(classify_name(".gitignore"), PreviewDecision::NeedsTextRead);
    assert_eq!(classify_name("archive.tar.gz"), PreviewDecision::NeedsTextRead);
    assert_eq!(classify_name("dot."), PreviewDecision::NeedsTextRead);
    assert_eq!(classify_name(""), PreviewDecision::NeedsTextRead);
    assert_eq!(classify_name("pngfile"), PreviewDecision::NeedsTextRead);
}

#[test]
fn trim_removes_surrounding_whitespace() {
    assert_eq!(trim_string("  new folder \t\n"), "new folder");
    assert_eq!(trim_string("   "), "");
    assert_eq!(trim_string(""), "");
    assert_eq!(trim_string("plain"), "plain");
    assert_eq!(trim_string(" inner  space "), "inner  space");
}
