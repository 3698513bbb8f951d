//! Ordering of directory listings: directories sort before files, and
//! within the same kind entries sort by their display name.

use vstd::prelude::*;

use crate::entry::{EntryKind, EntryView, FileSystemEntry, ListingView};
use crate::paths::path_name;
use crate::text::{
    chars_le, chars_lt, lemma_chars_lt_asymmetric, lemma_chars_lt_connected,
    lemma_chars_lt_transitive, str_lt,
};

verus! {

/// Directories come first.
pub open spec fn kind_rank(k: EntryKind) -> int {
    match k {
        EntryKind::Directory => 0,
        EntryKind::File => 1,
    }
}

/// The listing order: by kind rank, then by display name.
pub open spec fn entry_le(a: EntryView, b: EntryView) -> bool {
    ||| kind_rank(a.kind) < kind_rank(b.kind)
    ||| (kind_rank(a.kind) == kind_rank(b.kind) && chars_le(path_name(a.path), path_name(b.path)))
}

/// Every pair of a listing stands in the listing order.
pub open spec fn entries_ordered(s: Seq<EntryView>) -> bool {
    forall|i: int, j: int| 0 <= i < j < s.len() ==> entry_le(s[i], s[j])
}

/// The listing order relates every two entries one way or the other.
pub proof fn lemma_entry_le_total(a: EntryView, b: EntryView)
    ensures
        entry_le(a, b) || entry_le(b, a),
{
    lemma_chars_lt_asymmetric(path_name(a.path), path_name(b.path));
}

/// The listing order is transitive.
pub proof fn lemma_entry_le_transitive(a: EntryView, b: EntryView, c: EntryView)
    requires
        entry_le(a, b),
        entry_le(b, c),
    ensures
        entry_le(a, c),
{
    let na = path_name(a.path);
    let nb = path_name(b.path);
    let nc = path_name(c.path);
    if kind_rank(a.kind) == kind_rank(b.kind) && kind_rank(b.kind) == kind_rank(c.kind) {
        if chars_lt(na, nc) {
            lemma_chars_lt_asymmetric(na, nc);
        } else if chars_lt(nc, na) {
            if chars_lt(nc, nb) {
                lemma_chars_lt_transitive(nc, na, nb);
                lemma_chars_lt_asymmetric(nc, nb);
            } else if chars_lt(nb, nc) {
                lemma_chars_lt_transitive(nb, nc, na);
                lemma_chars_lt_asymmetric(nb, na);
            } else {
                lemma_chars_lt_connected(nb, nc);
            }
        }
    }
}

/// Where one more entry lands in an ordered listing.
pub open spec fn sorted_insert(e: EntryView, s: Seq<EntryView>) -> Seq<EntryView>
    decreases s.len(),
{
    if s.len() == 0 {
        seq![e]
    } else if entry_le(e, s[0]) {
        seq![e] + s
    } else {
        seq![s[0]] + sorted_insert(e, s.skip(1))
    }
}

/// The ordered image of a listing.
pub open spec fn sort_entries_spec(s: Seq<EntryView>) -> Seq<EntryView>
    decreases s.len(),
{
    if s.len() == 0 {
        Seq::empty()
    } else {
        sorted_insert(s[0], sort_entries_spec(s.skip(1)))
    }
}

proof fn lemma_sorted_insert_multiset(e: EntryView, s: Seq<EntryView>)
    ensures
        sorted_insert(e, s).to_multiset() =~= s.to_multiset().insert(e),
    decreases s.len(),
{
    broadcast use vstd::seq_lib::group_seq_properties;

    if s.len() == 0 {
        assert(seq![e] =~= Seq::<EntryView>::empty().push(e));
        Seq::<EntryView>::empty().to_multiset_ensures();
    } else if entry_le(e, s[0]) {
        assert(seq![e] + s =~= s.insert(0, e));
        vstd::seq_lib::to_multiset_insert(s, 0, e);
    } else {
        lemma_sorted_insert_multiset(e, s.skip(1));
        let t = sorted_insert(e, s.skip(1));
        assert(seq![s[0]] + t =~= t.insert(0, s[0]));
        vstd::seq_lib::to_multiset_insert(t, 0, s[0]);
        assert(s =~= s.skip(1).insert(0, s[0]));
        vstd::seq_lib::to_multiset_insert(s.skip(1), 0, s[0]);
        assert(t.to_multiset().insert(s[0]) =~= s.skip(1).to_multiset().insert(e).insert(s[0]));
        assert(s.skip(1).to_multiset().insert(e).insert(s[0]) =~= s.skip(1).to_multiset().insert(
            s[0],
        ).insert(e));
    }
}

proof fn lemma_sorted_insert_ordered(e: EntryView, s: Seq<EntryView>)
    requires
        entries_ordered(s),
    ensures
        entries_ordered(sorted_insert(e, s)),
    decreases s.len(),
{
    let r = sorted_insert(e, s);
    if s.len() == 0 {
    } else if entry_le(e, s[0]) {
        assert forall|i: int, j: int| 0 <= i < j < r.len() implies entry_le(r[i], r[j]) by {
            if i == 0 {
                if j > 1 {
                    lemma_entry_le_transitive(e, s[0], s[j - 1]);
                }
            }
        }
    } else {
        lemma_entry_le_total(e, s[0]);
        lemma_sorted_insert_ordered(e, s.skip(1));
        let t = sorted_insert(e, s.skip(1));
        lemma_sorted_insert_multiset(e, s.skip(1));
        s.skip(1).to_multiset_ensures();
        t.to_multiset_ensures();
        assert forall|i: int, j: int| 0 <= i < j < r.len() implies entry_le(r[i], r[j]) by {
            if i == 0 {
                assert(r[j] == t[j - 1]);
                assert(t.contains(t[j - 1]));
                assert(t.to_multiset().count(t[j - 1]) > 0);
                if t[j - 1] == e {
                    assert(entry_le(s[0], e));
                } else {
                    assert(s.skip(1).to_multiset().count(t[j - 1]) > 0);
                    assert(s.skip(1).contains(t[j - 1]));
                    let k = choose|k: int| 0 <= k < s.skip(1).len() && s.skip(1)[k] == t[j - 1];
                    assert(s[k + 1] == t[j - 1]);
                    assert(entry_le(s[0], s[k + 1]));
                }
            } else {
                assert(entry_le(t[i - 1], t[j - 1]));
            }
        }
    }
}

/// The ordered image of a listing is ordered.
pub proof fn lemma_sort_entries_spec_ordered(s: Seq<EntryView>)
    ensures
        entries_ordered(sort_entries_spec(s)),
    decreases s.len(),
{
    if s.len() > 0 {
        lemma_sort_entries_spec_ordered(s.skip(1));
        lemma_sorted_insert_ordered(s[0], sort_entries_spec(s.skip(1)));
    }
}

/// Ordering a listing keeps exactly its entries.
pub proof fn lemma_sort_entries_spec_multiset(s: Seq<EntryView>)
    ensures
        sort_entries_spec(s).to_multiset() =~= s.to_multiset(),
    decreases s.len(),
{
    broadcast use vstd::seq_lib::group_seq_properties;

    if s.len() > 0 {
        lemma_sort_entries_spec_multiset(s.skip(1));
        lemma_sorted_insert_multiset(s[0], sort_entries_spec(s.skip(1)));
        assert(s =~= s.skip(1).insert(0, s[0]));
        vstd::seq_lib::to_multiset_insert(s.skip(1), 0, s[0]);
    }
}

/// Decides the listing order between two entries.
fn entry_le_exec(a: &FileSystemEntry, b: &FileSystemEntry) -> (r: bool)
    ensures
        r == entry_le(a@, b@),
{
    let a_dir = matches!(a.kind, EntryKind::Directory);
    let b_dir = matches!(b.kind, EntryKind::Directory);
    if a_dir && !b_dir {
        true
    } else if !a_dir && b_dir {
        false
    } else {
        let na = a.path.name_string();
        let nb = b.path.name_string();
        !str_lt(nb.as_str(), na.as_str())
    }
}

fn sorted_insert_exec(e: FileSystemEntry, v: Vec<FileSystemEntry>) -> (r: Vec<FileSystemEntry>)
    ensures
        r.deep_view() == sorted_insert(e@, v.deep_view()),
    decreases v.len(),
{
    let mut v = v;
    if v.len() == 0 {
        let mut r: Vec<FileSystemEntry> = Vec::new();
        r.push(e);
        proof {
            assert(r.deep_view() =~= seq![e@]);
        }
        r
    } else if entry_le_exec(&e, &v[0]) {
        let ghost v0 = v.deep_view();
        v.insert(0, e);
        proof {
            assert(v.deep_view() =~= seq![e@] + v0);
        }
        v
    } else {
        let ghost v0 = v.deep_view();
        let first = v.remove(0);
        proof {
            assert(v.deep_view() =~= v0.skip(1));
        }
        let mut r = sorted_insert_exec(e, v);
        r.insert(0, first);
        proof {
            assert(r.deep_view() =~= seq![v0[0]] + sorted_insert(e@, v0.skip(1)));
        }
        r
    }
}

/// Orders a listing: directories before files, and by display name within
/// the same kind.
pub fn sort_entries(v: Vec<FileSystemEntry>) -> (r: Vec<FileSystemEntry>)
    ensures
        r.deep_view() == sort_entries_spec(v.deep_view()),
    decreases v.len(),
{
    let mut v = v;
    if v.len() == 0 {
        let r: Vec<FileSystemEntry> = Vec::new();
        proof {
            assert(r.deep_view() =~= Seq::<EntryView>::empty());
        }
        r
    } else {
        let ghost v0 = v.deep_view();
        let first = v.remove(0);
        proof {
            assert(v.deep_view() =~= v0.skip(1));
        }
        let rest = sort_entries(v);
        sorted_insert_exec(first, rest)
    }
}

/// Anchors one raw listing entry below the directory that was read.
pub open spec fn listing_entry_view(dir: Seq<Seq<char>>, l: ListingView) -> EntryView {
    EntryView { path: dir.push(l.name), kind: l.kind }
}

/// Anchors a raw listing below the directory that was read.
pub open spec fn entries_from_listing(dir: Seq<Seq<char>>, raw: Seq<ListingView>) -> Seq<
    EntryView,
> {
    Seq::new(raw.len(), |i: int| listing_entry_view(dir, raw[i]))
}

} // verus!
