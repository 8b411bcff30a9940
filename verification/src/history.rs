//! The path-keyed cache of loaded directory listings.
//!
//! `PathMap` is an associative store keyed by absolute path, the shape both
//! the history cache and the preview-metadata store share. Its mathematical
//! value is a `Map` from path values to the values of what it holds; a
//! lookup of a path that was never inserted is absent, never an error.

use vstd::prelude::*;

use crate::fs::JoshutoDirList;
use crate::path::AbsPath;
use crate::path::PathView;

verus! {

/// The map denoted by a sequence of key-value pairs, the earliest
/// occurrence of a key winning.
pub open spec fn map_of<V: View>(s: Seq<(AbsPath, V)>) -> Map<PathView, V::V>
    decreases s.len(),
{
    if s.len() == 0 {
        Map::empty()
    } else {
        map_of(s.drop_first()).insert(s[0].0@, s[0].1@)
    }
}

proof fn lemma_map_of_first_match<V: View>(s: Seq<(AbsPath, V)>, i: int)
    requires
        0 <= i < s.len(),
        forall|j: int| 0 <= j < i ==> s[j].0@ != s[i].0@,
    ensures
        map_of(s).contains_key(s[i].0@),
        map_of(s)[s[i].0@] == s[i].1@,
    decreases s.len(),
{
    if i > 0 {
        assert(s.drop_first()[i - 1] == s[i]);
        assert(forall|j: int| 0 <= j < i - 1 ==> s.drop_first()[j] == s[j + 1]);
        lemma_map_of_first_match(s.drop_first(), i - 1);
    }
}

proof fn lemma_map_of_absent<V: View>(s: Seq<(AbsPath, V)>, k: PathView)
    requires
        forall|j: int| 0 <= j < s.len() ==> s[j].0@ != k,
    ensures
        !map_of(s).contains_key(k),
    decreases s.len(),
{
    if s.len() > 0 {
        assert(forall|j: int| 0 <= j < s.len() - 1 ==> s.drop_first()[j] == s[j + 1]);
        lemma_map_of_absent(s.drop_first(), k);
    }
}

proof fn lemma_map_of_update<V: View>(s: Seq<(AbsPath, V)>, i: int, e: (AbsPath, V))
    requires
        0 <= i < s.len(),
        e.0@ == s[i].0@,
        forall|j: int| 0 <= j < i ==> s[j].0@ != s[i].0@,
    ensures
        map_of(s.update(i, e)) == map_of(s).insert(e.0@, e.1@),
    decreases s.len(),
{
    let t = s.update(i, e);
    if i == 0 {
        assert(t.drop_first() =~= s.drop_first());
        assert(map_of(s.update(i, e)) =~= map_of(s).insert(e.0@, e.1@));
    } else {
        assert(s.drop_first()[i - 1] == s[i]);
        assert(forall|j: int| 0 <= j < i - 1 ==> s.drop_first()[j] == s[j + 1]);
        lemma_map_of_update(s.drop_first(), i - 1, e);
        assert(t.drop_first() =~= s.drop_first().update(i - 1, e));
        assert(t[0] == s[0]);
        assert(map_of(s.update(i, e)) =~= map_of(s).insert(e.0@, e.1@));
    }
}

proof fn lemma_map_of_push<V: View>(s: Seq<(AbsPath, V)>, e: (AbsPath, V))
    requires
        forall|j: int| 0 <= j < s.len() ==> s[j].0@ != e.0@,
    ensures
        map_of(s.push(e)) == map_of(s).insert(e.0@, e.1@),
    decreases s.len(),
{
    let t = s.push(e);
    if s.len() == 0 {
        assert(t.drop_first() =~= s);
        assert(t[0] == e);
        assert(map_of(s.push(e)) =~= map_of(s).insert(e.0@, e.1@));
    } else {
        assert(forall|j: int| 0 <= j < s.len() - 1 ==> s.drop_first()[j] == s[j + 1]);
        lemma_map_of_push(s.drop_first(), e);
        assert(t.drop_first() =~= s.drop_first().push(e));
        assert(t[0] == s[0]);
        assert(map_of(s.push(e)) =~= map_of(s).insert(e.0@, e.1@));
    }
}

/// An associative store keyed by absolute path. One instance serves as a
/// tab's history cache; another shape of it carries preview metadata.
pub struct PathMap<V> {
    entries: Vec<(AbsPath, V)>,
}

impl<V: View> View for PathMap<V> {
    type V = Map<PathView, V::V>;

    closed spec fn view(&self) -> Map<PathView, V::V> {
        map_of(self.entries@)
    }
}

impl<V: View> PathMap<V> {
    /// An empty store.
    pub fn new() -> (r: PathMap<V>)
        ensures
            r@ == Map::<PathView, V::V>::empty(),
    {
        PathMap { entries: Vec::new() }
    }

    /// The position of the first pair whose key is `path`.
    fn index_of(&self, path: &AbsPath) -> (r: Option<usize>)
        ensures
            (match r {
                Some(i) => (i as int) < self.entries@.len() && self.entries@[i as int].0@
                    == path@ && (forall|j: int|
                    0 <= j < i ==> self.entries@[j].0@ != path@),
                None => forall|j: int|
                    0 <= j < self.entries@.len() ==> self.entries@[j].0@ != path@,
            }),
    {
        let n = self.entries.len();
        let mut i: usize = 0;
        while i < n
            invariant
                i <= n,
                n == self.entries@.len(),
                forall|j: int| 0 <= j < i ==> self.entries@[j].0@ != path@,
            decreases n - i,
        {
            if self.entries[i].0.same_path(path) {
                return Some(i);
            }
            i += 1;
        }
        None
    }

    /// Whether the store holds a value for `path`.
    pub fn contains_key(&self, path: &AbsPath) -> (r: bool)
        ensures
            r == self@.contains_key(path@),
    {
        self.get(path).is_some()
    }

    /// The value stored for `path`, or absent when none was inserted.
    pub fn get(&self, path: &AbsPath) -> (r: Option<&V>)
        ensures
            (match r {
                Some(v) => self@.contains_key(path@) && v@ == self@[path@],
                None => !self@.contains_key(path@),
            }),
    {
        match self.index_of(path) {
            Some(i) => {
                proof {
                    lemma_map_of_first_match(self.entries@, i as int);
                }
                Some(&self.entries[i].1)
            },
            None => {
                proof {
                    lemma_map_of_absent(self.entries@, path@);
                }
                None
            },
        }
    }

    /// A mutable handle on the value stored for `path`, for in-place
    /// updates; absent when none was inserted.
    pub fn get_mut(&mut self, path: &AbsPath) -> (r: Option<&mut V>)
        ensures
            !old(self)@.contains_key(path@) ==> r.is_none() && final(self)@ == old(self)@,
            old(self)@.contains_key(path@) ==> r.is_some() && (*r.unwrap())@ == old(self)@[path@]
                && final(self)@ == old(self)@.insert(path@, (*final(r.unwrap()))@),
    {
        match self.index_of(path) {
            Some(i) => {
                let ghost s = self.entries@;
                let ghost ii = i as int;
                proof {
                    lemma_map_of_first_match(s, ii);
                    assert forall|e2: (AbsPath, V)| e2.0@ == s[ii].0@ implies #[trigger] map_of(
                        s.update(ii, e2),
                    ) == map_of(s).insert(path@, e2.1@) by {
                        lemma_map_of_update(s, ii, e2);
                    }
                }
                let e = &mut self.entries[i];
                Some(&mut e.1)
            },
            None => {
                proof {
                    lemma_map_of_absent(self.entries@, path@);
                }
                None
            },
        }
    }

    /// Stores `value` for `path`, replacing any value stored before.
    pub fn insert(&mut self, path: AbsPath, value: V)
        ensures
            final(self)@ == old(self)@.insert(path@, value@),
    {
        let ghost k = path@;
        let ghost v = value;
        match self.index_of(&path) {
            Some(i) => {
                let ghost s = self.entries@;
                let e = &mut self.entries[i];
                e.1 = value;
                proof {
                    assert(self.entries@ == s.update(i as int, (s[i as int].0, v)));
                    lemma_map_of_update(s, i as int, (s[i as int].0, v));
                }
            },
            None => {
                let ghost s = self.entries@;
                let ghost e = (path, value);
                proof {
                    lemma_map_of_absent(s, k);
                }
                self.entries.push((path, value));
                proof {
                    lemma_map_of_push(s, e);
                }
            },
        }
    }
}

/// The history cache of one tab: the loaded listing, if any, of each path
/// the tab has visited.
pub type JoshutoHistory = PathMap<JoshutoDirList>;

} // verus!
