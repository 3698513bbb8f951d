//! Character-sequence helpers: lexicographic name order, whitespace
//! trimming, and case-insensitive matching of file extensions.

use vstd::prelude::*;

verus! {

/// Strict lexicographic order on character sequences by code point.
/// Since UTF-8 encoding preserves code-point order, this coincides with
/// byte-wise comparison of the encoded names.
pub open spec fn chars_lt(a: Seq<char>, b: Seq<char>) -> bool
    decreases a.len(),
{
    if b.len() == 0 {
        false
    } else if a.len() == 0 {
        true
    } else if a[0] == b[0] {
        chars_lt(a.skip(1), b.skip(1))
    } else {
        (a[0] as u32) < (b[0] as u32)
    }
}

/// Reflexive companion of `chars_lt`.
pub open spec fn chars_le(a: Seq<char>, b: Seq<char>) -> bool {
    !chars_lt(b, a)
}

/// `chars_lt` never holds in both directions.
pub proof fn lemma_chars_lt_asymmetric(a: Seq<char>, b: Seq<char>)
    ensures
        !(chars_lt(a, b) && chars_lt(b, a)),
    decreases a.len(),
{
    if a.len() > 0 && b.len() > 0 && a[0] == b[0] {
        lemma_chars_lt_asymmetric(a.skip(1), b.skip(1));
    }
}

/// Two sequences that are not strictly ordered either way are equal.
pub proof fn lemma_chars_lt_connected(a: Seq<char>, b: Seq<char>)
    requires
        !chars_lt(a, b),
        !chars_lt(b, a),
    ensures
        a == b,
    decreases a.len(),
{
    if a.len() == 0 && b.len() == 0 {
        assert(a =~= b);
    } else if a.len() > 0 && b.len() > 0 {
        if a[0] == b[0] {
            lemma_chars_lt_connected(a.skip(1), b.skip(1));
            assert forall|i: int| 0 <= i < a.len() implies a[i] == b[i] by {
                if i > 0 {
                    assert(a[i] == a.skip(1)[i - 1]);
                    assert(b[i] == b.skip(1)[i - 1]);
                }
            }
            assert(a =~= b);
        } else {
            assert((a[0] as u32) == (b[0] as u32));
            vstd::utf8::char_u32_cast(a[0], a[0] as u32);
            vstd::utf8::char_u32_cast(b[0], b[0] as u32);
            assert(a[0] == b[0]);
        }
    }
}

/// `chars_lt` is transitive.
pub proof fn lemma_chars_lt_transitive(a: Seq<char>, b: Seq<char>, c: Seq<char>)
    requires
        chars_lt(a, b),
        chars_lt(b, c),
    ensures
        chars_lt(a, c),
    decreases a.len() + b.len() + c.len(),
{
    if a.len() > 0 && b.len() > 0 && c.len() > 0 {
        if a[0] == b[0] && b[0] == c[0] {
            lemma_chars_lt_transitive(a.skip(1), b.skip(1), c.skip(1));
        }
    }
}

/// Whitespace characters removed by name trimming.
pub open spec fn is_space_char(c: char) -> bool {
    c == ' ' || c == '\t' || c == '\n' || c == '\r'
}

/// Drops leading whitespace.
pub open spec fn trim_front(s: Seq<char>) -> Seq<char>
    decreases s.len(),
{
    if s.len() > 0 && is_space_char(s[0]) {
        trim_front(s.skip(1))
    } else {
        s
    }
}

/// Drops trailing whitespace.
pub open spec fn trim_back(s: Seq<char>) -> Seq<char>
    decreases s.len(),
{
    if s.len() > 0 && is_space_char(s.last()) {
        trim_back(s.drop_last())
    } else {
        s
    }
}

/// Drops leading and trailing whitespace.
pub open spec fn trim_chars(s: Seq<char>) -> Seq<char> {
    trim_back(trim_front(s))
}

/// A name made of whitespace alone trims to nothing.
pub proof fn lemma_trim_all_space(s: Seq<char>)
    requires
        forall|k: int| 0 <= k < s.len() ==> is_space_char(s[k]),
    ensures
        trim_chars(s).len() == 0,
    decreases s.len(),
{
    if s.len() == 0 {
    } else {
        lemma_trim_all_space(s.skip(1));
    }
}

proof fn lemma_trim_front_skip(s: Seq<char>, i: int)
    requires
        0 <= i <= s.len(),
        forall|k: int| 0 <= k < i ==> is_space_char(s[k]),
        i == s.len() || !is_space_char(s[i]),
    ensures
        trim_front(s) == s.skip(i),
    decreases i,
{
    if i == 0 {
        assert(s.skip(0) =~= s);
    } else {
        assert(is_space_char(s[0]));
        lemma_trim_front_skip(s.skip(1), i - 1);
        assert(s.skip(1).skip(i - 1) =~= s.skip(i));
    }
}

proof fn lemma_trim_back_take(s: Seq<char>, j: int)
    requires
        0 <= j <= s.len(),
        forall|k: int| j <= k < s.len() ==> is_space_char(s[k]),
        j == 0 || !is_space_char(s[j - 1]),
    ensures
        trim_back(s) == s.subrange(0, j),
    decreases s.len() - j,
{
    if j == s.len() {
        assert(s.subrange(0, j) =~= s);
    } else {
        assert(is_space_char(s.last()));
        lemma_trim_back_take(s.drop_last(), j);
        assert(s.drop_last().subrange(0, j) =~= s.subrange(0, j));
    }
}

fn is_space_exec(c: char) -> (b: bool)
    ensures
        b == is_space_char(c),
{
    c == ' ' || c == '\t' || c == '\n' || c == '\r'
}

/// Removes leading and trailing whitespace from a string.
pub fn trim_string(s: &str) -> (r: String)
    ensures
        r@ == trim_chars(s@),
{
    let n = s.unicode_len();
    let mut i: usize = 0;
    while i < n && is_space_exec(s.get_char(i))
        invariant
            0 <= i <= n,
            n == s@.len(),
            forall|k: int| 0 <= k < i ==> is_space_char(s@[k]),
        decreases n - i,
    {
        i = i + 1;
    }
    proof {
        lemma_trim_front_skip(s@, i as int);
    }
    if i == n {
        let r = String::new();
        proof {
            assert(trim_front(s@) =~= Seq::<char>::empty());
        }
        return r;
    }
    let mut j: usize = n;
    while j > i && is_space_exec(s.get_char(j - 1))
        invariant
            i <= j <= n,
            n == s@.len(),
            i < n,
            !is_space_char(s@[i as int]),
            forall|k: int| j <= k < n ==> is_space_char(s@[k]),
        decreases j,
    {
        j = j - 1;
    }
    let r = s.substring_char(i, j).to_owned();
    proof {
        let t = s@.skip(i as int);
        assert(forall|k: int| (j - i) <= k < t.len() ==> is_space_char(#[trigger] t[k]));
        assert(!is_space_char(t[j - i - 1]));
        lemma_trim_back_take(t, j - i);
        assert(t.subrange(0, j - i) =~= s@.subrange(i as int, j as int));
    }
    r
}

/// Holds when `c` is `t` or its upper-case ASCII counterpart; the
/// extension sets below are given in lower case.
pub open spec fn lower_matches(c: char, t: char) -> bool {
    c == t || (65 <= (c as u32) <= 90 && (c as u32) + 32 == (t as u32))
}

fn lower_matches_exec(c: char, t: char) -> (b: bool)
    ensures
        b == lower_matches(c, t),
{
    c == t || ((c as u32) >= 65 && (c as u32) <= 90 && (c as u32) + 32 == (t as u32))
}

/// Index of the last `.` in a name, or `-1` when there is none.
pub open spec fn last_dot_index(name: Seq<char>) -> int
    decreases name.len(),
{
    if name.len() == 0 {
        -1
    } else if name.last() == '.' {
        name.len() - 1
    } else {
        last_dot_index(name.drop_last())
    }
}

proof fn lemma_last_dot_index_at(name: Seq<char>, i: int)
    requires
        0 <= i < name.len(),
        name[i] == '.',
        forall|k: int| i < k < name.len() ==> name[k] != '.',
    ensures
        last_dot_index(name) == i,
    decreases name.len(),
{
    if i < name.len() - 1 {
        lemma_last_dot_index_at(name.drop_last(), i);
    }
}

proof fn lemma_last_dot_index_none(name: Seq<char>)
    requires
        forall|k: int| 0 <= k < name.len() ==> name[k] != '.',
    ensures
        last_dot_index(name) == -1,
    decreases name.len(),
{
    if name.len() > 0 {
        lemma_last_dot_index_none(name.drop_last());
    }
}

/// The extension of a display name: the characters after the last `.`,
/// provided that dot is neither absent nor the leading character. A name
/// without an extension yields the empty sequence, matching a host that
/// substitutes an empty string before classifying.
pub open spec fn ext_chars(name: Seq<char>) -> Seq<char> {
    let i = last_dot_index(name);
    if i <= 0 {
        Seq::empty()
    } else {
        name.subrange(i + 1, name.len() as int)
    }
}

/// Extensions displayed as images.
pub open spec fn is_image_ext(e: Seq<char>) -> bool {
    ||| (e.len() == 3 && lower_matches(e[0], 'p') && lower_matches(e[1], 'n') && lower_matches(
        e[2],
        'g',
    ))
    ||| (e.len() == 3 && lower_matches(e[0], 'j') && lower_matches(e[1], 'p') && lower_matches(
        e[2],
        'g',
    ))
    ||| (e.len() == 4 && lower_matches(e[0], 'j') && lower_matches(e[1], 'p') && lower_matches(
        e[2],
        'e',
    ) && lower_matches(e[3], 'g'))
    ||| (e.len() == 3 && lower_matches(e[0], 'g') && lower_matches(e[1], 'i') && lower_matches(
        e[2],
        'f',
    ))
}

/// Extensions displayed as documents.
pub open spec fn is_pdf_ext(e: Seq<char>) -> bool {
    e.len() == 3 && lower_matches(e[0], 'p') && lower_matches(e[1], 'd') && lower_matches(
        e[2],
        'f',
    )
}

/// How a file should be previewed, decided from its display name alone.
#[derive(Clone, Copy, Debug, PartialEq, Eq, Structural)]
pub enum PreviewDecision {
    ShowImage,
    ShowPdf,
    NeedsTextRead,
}

/// Preview decision for a display name: known image extensions are shown
/// as images, `pdf` as a document, and anything else is offered to a text
/// read whose outcome decides between text and no preview.
pub open spec fn decision_of_name(name: Seq<char>) -> PreviewDecision {
    let e = ext_chars(name);
    if is_image_ext(e) {
        PreviewDecision::ShowImage
    } else if is_pdf_ext(e) {
        PreviewDecision::ShowPdf
    } else {
        PreviewDecision::NeedsTextRead
    }
}

/// Classifies a display name for previewing.
pub fn classify_name(name: &str) -> (d: PreviewDecision)
    ensures
        d == decision_of_name(name@),
{
    let n = name.unicode_len();
    let mut j: usize = n;
    while j > 0 && name.get_char(j - 1) != '.'
        invariant
            0 <= j <= n,
            n == name@.len(),
            forall|k: int| j <= k < n ==> name@[k] != '.',
        decreases j,
    {
        j = j - 1;
    }
    if j <= 1 {
        proof {
            if j == 0 {
                lemma_last_dot_index_none(name@);
            } else {
                lemma_last_dot_index_at(name@, 0);
            }
            assert(ext_chars(name@) =~= Seq::<char>::empty());
        }
        return PreviewDecision::NeedsTextRead;
    }
    proof {
        lemma_last_dot_index_at(name@, j - 1);
        assert(ext_chars(name@) =~= name@.subrange(j as int, n as int));
    }
    let m = n - j;
    if m == 3 {
        let c0 = name.get_char(j);
        let c1 = name.get_char(j + 1);
        let c2 = name.get_char(j + 2);
        if lower_matches_exec(c0, 'p') && lower_matches_exec(c1, 'n') && lower_matches_exec(
            c2,
            'g',
        ) {
            return PreviewDecision::ShowImage;
        }
        if lower_matches_exec(c0, 'j') && lower_matches_exec(c1, 'p') && lower_matches_exec(
            c2,
            'g',
        ) {
            return PreviewDecision::ShowImage;
        }
        if lower_matches_exec(c0, 'g') && lower_matches_exec(c1, 'i') && lower_matches_exec(
            c2,
            'f',
        ) {
            return PreviewDecision::ShowImage;
        }
        if lower_matches_exec(c0, 'p') && lower_matches_exec(c1, 'd') && lower_matches_exec(
            c2,
            'f',
        ) {
            return PreviewDecision::ShowPdf;
        }
        return PreviewDecision::NeedsTextRead;
    }
    if m == 4 {
        let c0 = name.get_char(j);
        let c1 = name.get_char(j + 1);
        let c2 = name.get_char(j + 2);
        let c3 = name.get_char(j + 3);
        if lower_matches_exec(c0, 'j') && lower_matches_exec(c1, 'p') && lower_matches_exec(
            c2,
            'e',
        ) && lower_matches_exec(c3, 'g') {
            return PreviewDecision::ShowImage;
        }
        return PreviewDecision::NeedsTextRead;
    }
    PreviewDecision::NeedsTextRead
}

/// Decides whether `a` sorts strictly before `b`.
pub fn str_lt(a: &str, b: &str) -> (r: bool)
    ensures
        r == chars_lt(a@, b@),
{
    let alen = a.unicode_len();
    let blen = b.unicode_len();
    let mut i: usize = 0;
    proof {
        assert(a@.skip(0) =~= a@);
        assert(b@.skip(0) =~= b@);
    }
    loop
        invariant
            0 <= i <= alen,
            0 <= i <= blen,
            alen == a@.len(),
            blen == b@.len(),
            chars_lt(a@, b@) == chars_lt(a@.skip(i as int), b@.skip(i as int)),
        decreases alen - i,
    {
        if i == blen {
            return false;
        }
        if i == alen {
            return true;
        }
        let ca = a.get_char(i);
        let cb = b.get_char(i);
        if ca != cb {
            return (ca as u32) < (cb as u32);
        }
        i = i + 1;
        proof {
            assert(a@.skip(i - 1).skip(1) =~= a@.skip(i as int));
            assert(b@.skip(i - 1).skip(1) =~= b@.skip(i as int));
        }
    }
}

} // verus!
