//! Absolute filesystem paths as sequences of components. The filesystem
//! root is the empty sequence; each component is one directory or file
//! name along the way.

use vstd::prelude::*;

verus! {

/// An absolute path, stored as its components from the root downwards.
#[derive(Debug, PartialEq, Eq)]
pub struct EntryPath {
    pub parts: Vec<String>,
}

impl View for EntryPath {
    type V = Seq<Seq<char>>;

    open spec fn view(&self) -> Seq<Seq<char>> {
        self.parts.deep_view()
    }
}

impl DeepView for EntryPath {
    type V = Seq<Seq<char>>;

    open spec fn deep_view(&self) -> Seq<Seq<char>> {
        self.view()
    }
}

/// The display name of a path: its final component, or the empty name at
/// the root.
pub open spec fn path_name(p: Seq<Seq<char>>) -> Seq<char> {
    if p.len() == 0 {
        Seq::empty()
    } else {
        p.last()
    }
}

/// The parent directory; the root is its own parent.
pub open spec fn path_parent(p: Seq<Seq<char>>) -> Seq<Seq<char>> {
    if p.len() == 0 {
        p
    } else {
        p.drop_last()
    }
}

/// The path with its final component replaced by `n`; used by renaming.
pub open spec fn path_with_name(p: Seq<Seq<char>>, n: Seq<char>) -> Seq<Seq<char>> {
    path_parent(p).push(n)
}

fn clone_strings(v: &Vec<String>) -> (r: Vec<String>)
    ensures
        r@ == v@,
{
    let mut r: Vec<String> = Vec::new();
    let mut i: usize = 0;
    while i < v.len()
        invariant
            0 <= i <= v.len(),
            r@ =~= v@.subrange(0, i as int),
        decreases v.len() - i,
    {
        r.push(v[i].clone());
        i = i + 1;
        proof {
            assert(r@ =~= v@.subrange(0, i as int));
        }
    }
    proof {
        assert(v@.subrange(0, v@.len() as int) =~= v@);
    }
    r
}

impl EntryPath {
    /// The root path.
    pub fn root() -> (r: Self)
        ensures
            r@ =~= Seq::<Seq<char>>::empty(),
    {
        EntryPath { parts: Vec::new() }
    }

    /// An identical copy of this path.
    pub fn clone_path(&self) -> (r: Self)
        ensures
            r@ == self@,
            r.parts@ == self.parts@,
    {
        EntryPath { parts: clone_strings(&self.parts) }
    }

    /// Whether this path is the filesystem root.
    pub fn is_root(&self) -> (b: bool)
        ensures
            b == (self@.len() == 0),
    {
        self.parts.len() == 0
    }

    /// The parent directory of this path.
    pub fn parent(&self) -> (r: Self)
        ensures
            r@ == path_parent(self@),
    {
        let mut parts = clone_strings(&self.parts);
        if parts.len() > 0 {
            parts.pop();
        }
        let r = EntryPath { parts };
        proof {
            assert(r@ =~= path_parent(self@));
        }
        r
    }

    /// This path extended by one further component.
    pub fn child(&self, name: &String) -> (r: Self)
        ensures
            r@ == self@.push(name@),
    {
        let mut parts = clone_strings(&self.parts);
        parts.push(name.clone());
        let r = EntryPath { parts };
        proof {
            assert(r@ =~= self@.push(name@));
        }
        r
    }

    /// This path with its final component replaced by `name`.
    pub fn with_name(&self, name: &String) -> (r: Self)
        ensures
            r@ == path_with_name(self@, name@),
    {
        let mut parts = clone_strings(&self.parts);
        if parts.len() > 0 {
            parts.pop();
        }
        parts.push(name.clone());
        let r = EntryPath { parts };
        proof {
            assert(r@ =~= path_with_name(self@, name@));
        }
        r
    }

    /// The display name of this path; the root has the empty name.
    pub fn name_string(&self) -> (r: String)
        ensures
            r@ == path_name(self@),
    {
        if self.parts.len() == 0 {
            let r = String::new();
            proof {
                assert(path_name(self@) =~= Seq::<char>::empty());
            }
            r
        } else {
            self.parts[self.parts.len() - 1].clone()
        }
    }
}

} // verus!
