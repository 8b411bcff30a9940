//! Syntactically normalized absolute paths, stored as their components.
//!
//! The tab core never touches the filesystem: a path is purely a key and a
//! value to compute parents from. The root path has no components and is the
//! only path without a parent.

use vstd::prelude::*;

verus! {

/// The mathematical value of a path: the sequence of its components, each
/// component the sequence of its characters. The empty sequence is the
/// filesystem root.
pub type PathView = Seq<Seq<char>>;

/// A syntactically normalized absolute path: the ordered components below the
/// root, without separators, `.` or `..` segments.
#[derive(Debug)]
pub struct AbsPath {
    parts: Vec<String>,
}

impl View for AbsPath {
    type V = PathView;

    closed spec fn view(&self) -> PathView {
        self.parts@.map_values(|s: String| s@)
    }
}

/// Clones the first `n` components of `parts`.
fn clone_prefix(parts: &Vec<String>, n: usize) -> (r: Vec<String>)
    requires
        n <= parts@.len(),
    ensures
        r@.len() == n,
        forall|j: int| 0 <= j < n ==> r@[j] == parts@[j],
{
    let mut r: Vec<String> = Vec::new();
    let mut i: usize = 0;
    while i < n
        invariant
            i <= n,
            n <= parts@.len(),
            r@.len() == i,
            forall|j: int| 0 <= j < i ==> r@[j] == parts@[j],
        decreases n - i,
    {
        r.push(parts[i].clone());
        i += 1;
    }
    r
}

impl AbsPath {
    /// The root path, which has no components and no parent.
    pub fn root() -> (r: AbsPath)
        ensures
            r@ == Seq::<Seq<char>>::empty(),
    {
        let r = AbsPath { parts: Vec::new() };
        proof {
            assert(r@ =~= Seq::<Seq<char>>::empty());
        }
        r
    }

    /// A path from its components, listed from the root downward.
    pub fn new(parts: Vec<String>) -> (r: AbsPath)
        ensures
            r@ == parts@.map_values(|s: String| s@),
    {
        AbsPath { parts }
    }

    /// How many components the path has; the root has zero.
    pub fn depth(&self) -> (n: usize)
        ensures
            n == self@.len(),
    {
        self.parts.len()
    }

    /// Whether this path is the root, the only path without a parent.
    pub fn is_root(&self) -> (r: bool)
        ensures
            r == (self@.len() == 0),
    {
        self.parts.len() == 0
    }

    /// The component at position `i`, counted from the root.
    pub fn component(&self, i: usize) -> (r: &String)
        requires
            i < self@.len(),
        ensures
            r@ == self@[i as int],
    {
        &self.parts[i]
    }

    /// An owned path with the same components.
    pub fn clone_path(&self) -> (r: AbsPath)
        ensures
            r@ == self@,
    {
        let parts = clone_prefix(&self.parts, self.parts.len());
        let r = AbsPath { parts };
        proof {
            assert(r@ =~= self@);
        }
        r
    }

    /// The filesystem parent: the path with the last component stripped.
    /// The root has no parent.
    pub fn parent(&self) -> (r: Option<AbsPath>)
        ensures
            self@.len() == 0 ==> r is None,
            self@.len() > 0 ==> (r matches Some(p) && p@ == self@.drop_last()),
    {
        if self.parts.len() == 0 {
            None
        } else {
            let parts = clone_prefix(&self.parts, self.parts.len() - 1);
            let p = AbsPath { parts };
            proof {
                assert(p@ =~= self@.drop_last());
            }
            Some(p)
        }
    }

    /// Whether two paths have exactly the same components.
    pub fn same_path(&self, other: &AbsPath) -> (r: bool)
        ensures
            r == (self@ == other@),
    {
        if self.parts.len() != other.parts.len() {
            proof {
                assert(self@.len() != other@.len());
            }
            return false;
        }
        let n = self.parts.len();
        let mut i: usize = 0;
        while i < n
            invariant
                i <= n,
                n == self.parts@.len(),
                n == other.parts@.len(),
                forall|j: int| 0 <= j < i ==> self@[j] == other@[j],
            decreases n - i,
        {
            if !self.parts[i].eq(&other.parts[i]) {
                proof {
                    assert(self@[i as int] != other@[i as int]);
                }
                return false;
            }
            i += 1;
        }
        proof {
            assert(self@ =~= other@);
        }
        true
    }
}

impl PartialEq for AbsPath {
    fn eq(&self, other: &AbsPath) -> bool {
        self.same_path(other)
    }
}

impl vstd::std_specs::cmp::PartialEqSpecImpl for AbsPath {
    open spec fn obeys_eq_spec() -> bool {
        true
    }

    open spec fn eq_spec(&self, other: &AbsPath) -> bool {
        self@ == other@
    }
}

} // verus!
