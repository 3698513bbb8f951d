//! The laws of the state machine, proved once and for all over the model
//! transition functions.

use vstd::prelude::*;

use crate::entry::EntryView;
use crate::listing::{
    entries_from_listing, entries_ordered, lemma_sort_entries_spec_multiset,
    lemma_sort_entries_spec_ordered,
};
use crate::model::{resolve_model, step_model};
use crate::paths::path_name;
use crate::protocol::{EffectView, MessageView, OutcomeView};
use crate::state::{
    background_interaction_enabled, ModalView, PreviewView, StateView, StatusView,
};
use crate::text::{decision_of_name, is_space_char, lemma_trim_all_space, PreviewDecision};

verus! {

/// How many dialog variants are active at once; the modal coordinator is
/// one tagged value, so this can never exceed one.
pub open spec fn modal_count(m: ModalView) -> int {
    (if m is FileOptionsMenu {
        1int
    } else {
        0int
    }) + (if m is FolderOptionsMenu {
        1int
    } else {
        0int
    }) + (if m is ActionDialog {
        1int
    } else {
        0int
    }) + (if m is DeleteConfirm {
        1int
    } else {
        0int
    })
}

/// Modal mutual exclusion: after any event at most one dialog is active,
/// and opening the action dialog or the delete confirmation always
/// replaces — and so closes — the file options menu.
pub proof fn lemma_modal_mutual_exclusion(s: StateView, m: MessageView)
    ensures
        modal_count(step_model(s, m).0.modal) <= 1,
        m matches MessageView::OpenActionModal(true, title) ==> step_model(s, m).0.modal
            == (ModalView::ActionDialog { title, input: Seq::empty() }),
        m matches MessageView::OpenDeleteModal(true, target_name) ==> step_model(s, m).0.modal
            == (ModalView::DeleteConfirm { target_name }),
{
}

/// Suppression: while any dialog is open, selecting an entry and going
/// back are complete no-ops — the state is unchanged and no filesystem
/// request is issued.
pub proof fn lemma_modal_suppression(s: StateView, m: MessageView)
    requires
        !background_interaction_enabled(s),
        m is SelectEntry || m is GoBack,
    ensures
        step_model(s, m) == (s, Option::<EffectView>::None),
{
}

/// Back navigation at the root: with no dialog and no viewer open, going
/// back at the filesystem root leaves the whole state unchanged except
/// for the status, which reports that no parent directory exists; no
/// filesystem request is issued.
pub proof fn lemma_go_back_at_root(s: StateView)
    requires
        background_interaction_enabled(s),
        !s.viewer.open,
        s.current_path.len() == 0,
    ensures
        step_model(s, MessageView::GoBack).0 == (StateView {
            status: StatusView::NoParentDirectory,
            ..s
        }),
        step_model(s, MessageView::GoBack).1 is None,
{
}

/// Creating a folder with a blank name: opening the create-folder
/// dialog, typing only whitespace, and confirming closes the dialog,
/// reports the empty-name error, and issues no filesystem request — so
/// the filesystem is left unchanged.
pub proof fn lemma_create_folder_blank_name(s: StateView, blank: Seq<char>)
    requires
        forall|k: int| 0 <= k < blank.len() ==> is_space_char(blank[k]),
    ensures
        ({
            let s1 = step_model(s, MessageView::CreateFolder).0;
            let s2 = step_model(s1, MessageView::UpdateFolderName(blank)).0;
            let stepped = step_model(s2, MessageView::ConfirmAction);
            stepped.0 == (StateView {
                modal: ModalView::Inactive,
                status: StatusView::EmptyFolderName,
                ..s
            }) && stepped.1 is None
        }),
{
    lemma_trim_all_space(blank);
    let s1 = step_model(s, MessageView::CreateFolder).0;
    let s2 = step_model(s1, MessageView::UpdateFolderName(blank)).0;
    let stepped = step_model(s2, MessageView::ConfirmAction);
    assert(stepped.0 =~~= StateView {
        modal: ModalView::Inactive,
        status: StatusView::EmptyFolderName,
        ..s
    });
}

/// Rename collision: when the existence check before a rename finds the
/// target name taken, the status reports the collision and no rename
/// request follows — both entries stay as they are.
pub proof fn lemma_rename_collision(s: StateView, from: Seq<Seq<char>>, to: Seq<Seq<char>>)
    ensures
        resolve_model(s, EffectView::RenameCheck { from, to }, OutcomeView::Found(true)).0 == (
        StateView { status: StatusView::NameCollision(path_name(to)), ..s }),
        resolve_model(s, EffectView::RenameCheck { from, to }, OutcomeView::Found(true)).1
            is None,
{
}

/// Deletion clears the selection whatever the outcome, and concludes
/// with a re-read of the current directory, from which the deleted
/// entry's absence is reflected in the next listing.
pub proof fn lemma_delete_clears_selection(s: StateView, p: Seq<Seq<char>>, o: OutcomeView)
    requires
        o is Done || o is Failed,
    ensures
        resolve_model(s, EffectView::RemoveFile(p), o).0.selected is None,
        resolve_model(s, EffectView::RemoveDirAll(p), o).0.selected is None,
        resolve_model(s, EffectView::RemoveFile(p), o).1 == Option::Some(
            EffectView::ReadDir(s.current_path),
        ),
        resolve_model(s, EffectView::RemoveDirAll(p), o).1 == Option::Some(
            EffectView::ReadDir(s.current_path),
        ),
{
}

/// Paste goes to the current directory: the copy request issued for a
/// paste targets the current directory extended by the clipboard entry's
/// own display name, wherever the entry was copied from.
pub proof fn lemma_paste_destination(s: StateView)
    ensures
        s.copied matches Option::Some(c) ==> step_model(s, MessageView::Paste).1 == Option::Some(
            if c.kind is Directory {
                EffectView::CopyDirAll {
                    from: c.path,
                    to: s.current_path.push(path_name(c.path)),
                }
            } else {
                EffectView::CopyFile {
                    from: c.path,
                    to: s.current_path.push(path_name(c.path)),
                }
            },
        ),
        s.copied is Some ==> step_model(s, MessageView::Paste).0 == s,
{
}

/// Listing order: the listing installed after a directory read is
/// ordered — directories before files, by display name within the same
/// kind — and holds exactly the entries the read produced, each anchored
/// below the directory that was read.
pub proof fn lemma_listing_installed_ordered(
    s: StateView,
    dir: Seq<Seq<char>>,
    raw: Seq<crate::entry::ListingView>,
)
    ensures
        ({
            let s2 = resolve_model(
                s,
                EffectView::ReadDir(dir),
                OutcomeView::DirListing(raw),
            ).0;
            entries_ordered(s2.entries) && s2.entries.to_multiset() == entries_from_listing(
                dir,
                raw,
            ).to_multiset() && (forall|k: int|
                0 <= k < s2.entries.len() ==> (#[trigger] s2.entries[k]).path == dir.push(
                    path_name(s2.entries[k].path),
                ))
        }),
{
    let listing = entries_from_listing(dir, raw);
    let installed = crate::listing::sort_entries_spec(listing);
    lemma_sort_entries_spec_ordered(listing);
    lemma_sort_entries_spec_multiset(listing);
    listing.to_multiset_ensures();
    installed.to_multiset_ensures();
    assert forall|k: int|
        0 <= k < installed.len() implies (#[trigger] installed[k]).path == dir.push(
        path_name(installed[k].path),
    ) by {
        assert(installed.contains(installed[k]));
        assert(listing.to_multiset().count(installed[k]) > 0);
        assert(listing.contains(installed[k]));
        let j = choose|j: int| 0 <= j < listing.len() && listing[j] == installed[k];
        assert(listing[j].path == dir.push(raw[j].name));
    }
}

/// The clipboard persists across navigation: going back and selecting an
/// entry never change what is staged for pasting.
pub proof fn lemma_clipboard_persists_navigation(s: StateView, m: MessageView)
    requires
        m is GoBack || m is SelectEntry,
    ensures
        step_model(s, m).0.copied == s.copied,
{
}

/// Preview classification: selecting a file opens the viewer on it; an
/// image extension shows an image and a document extension a document,
/// both without touching the filesystem, while any other name asks for a
/// text read of exactly that file.
pub proof fn lemma_select_file_preview(s: StateView, e: EntryView)
    requires
        background_interaction_enabled(s),
        !(e.kind is Directory),
    ensures
        ({
            let stepped = step_model(s, MessageView::SelectEntry(e));
            let decision = decision_of_name(path_name(e.path));
            stepped.0.viewer.open && stepped.0.viewer.file == Option::Some(e.path)
                && stepped.0.selected == Option::Some(e) && (decision
                == PreviewDecision::ShowImage ==> stepped.0.viewer.preview == PreviewView::Image(
                e.path,
            ) && stepped.1 is None) && (decision == PreviewDecision::ShowPdf
                ==> stepped.0.viewer.preview == PreviewView::Pdf(e.path) && stepped.1 is None) && (
            decision == PreviewDecision::NeedsTextRead ==> stepped.0.viewer.preview
                is Empty && stepped.1 == Option::Some(EffectView::ReadTextFile(e.path)))
        }),
{
}

/// Text previews carry the file's exact contents: a successful text read
/// yields a text preview equal to what was read, and a failed one yields
/// no preview.
pub proof fn lemma_text_preview_contents(s: StateView, p: Seq<Seq<char>>, c: Seq<char>)
    ensures
        resolve_model(s, EffectView::ReadTextFile(p), OutcomeView::TextLoaded(c)).0.viewer.preview
            == PreviewView::Text(c),
        resolve_model(
            s,
            EffectView::ReadTextFile(p),
            OutcomeView::TextUnavailable,
        ).0.viewer.preview == PreviewView::Unsupported,
{
}

} // verus!
