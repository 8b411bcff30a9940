//! Directory listings as the tab core sees them.
//!
//! A listing is an ordered sequence of entries, each with a retrievable
//! path, together with an optional selection index into that sequence.
//! Everything else about a loaded directory is outside this core.

use vstd::prelude::*;

use crate::path::AbsPath;
use crate::path::PathView;

verus! {

/// One entry of a loaded directory listing. The core reads nothing of an
/// entry but its path.
pub struct JoshutoDirEntry {
    file_path: AbsPath,
}

impl View for JoshutoDirEntry {
    type V = PathView;

    closed spec fn view(&self) -> PathView {
        self.file_path@
    }
}

impl JoshutoDirEntry {
    /// An entry for the given path.
    pub fn new(file_path: AbsPath) -> (r: JoshutoDirEntry)
        ensures
            r@ == file_path@,
    {
        JoshutoDirEntry { file_path }
    }

    /// The path of the file or directory this entry stands for.
    pub fn file_path(&self) -> (r: &AbsPath)
        ensures
            r@ == self@,
    {
        &self.file_path
    }
}

/// The mathematical value of a listing: the entry paths in order, and the
/// selection index, if any, as an unbounded integer.
pub struct DirListView {
    pub entries: Seq<PathView>,
    pub index: Option<int>,
}

/// A loaded directory listing: its entries in display order and an optional
/// selection index. The index, when present, always lies within the entries.
pub struct JoshutoDirList {
    contents: Vec<JoshutoDirEntry>,
    index: Option<usize>,
}

impl View for JoshutoDirList {
    type V = DirListView;

    closed spec fn view(&self) -> DirListView {
        DirListView {
            entries: self.contents@.map_values(|e: JoshutoDirEntry| e@),
            index: match self.index {
                Some(i) => Some(i as int),
                None => None,
            },
        }
    }
}

impl JoshutoDirList {
    #[verifier::type_invariant]
    spec fn wf(self) -> bool {
        match self.index {
            Some(i) => (i as int) < self.contents@.len(),
            None => true,
        }
    }

    /// A listing from its entries and an optional selection index, which
    /// must lie within the entries.
    pub fn new(contents: Vec<JoshutoDirEntry>, index: Option<usize>) -> (r: JoshutoDirList)
        requires
            index matches Some(i) ==> (i as int) < contents@.len(),
        ensures
            r@.entries == contents@.map_values(|e: JoshutoDirEntry| e@),
            r@.index == (match index {
                Some(i) => Some(i as int),
                None => None::<int>,
            }),
    {
        JoshutoDirList { contents, index }
    }

    /// How many entries the listing holds.
    pub fn len(&self) -> (n: usize)
        ensures
            n == self@.entries.len(),
    {
        self.contents.len()
    }

    /// The selection index, if one is designated. A present index always
    /// lies within the entries.
    pub fn get_index(&self) -> (r: Option<usize>)
        ensures
            self@.index == (match r {
                Some(i) => Some(i as int),
                None => None::<int>,
            }),
            r matches Some(i) ==> (i as int) < self@.entries.len(),
    {
        proof {
            use_type_invariant(&*self);
        }
        self.index
    }

    /// The entry at position `i` of the listing.
    pub fn entry_at(&self, i: usize) -> (r: &JoshutoDirEntry)
        requires
            i < self@.entries.len(),
        ensures
            r@ == self@.entries[i as int],
    {
        &self.contents[i]
    }

    /// Designates a new selection index, or clears it; the entries are kept.
    pub fn set_index(&mut self, index: Option<usize>)
        requires
            index matches Some(i) ==> (i as int) < old(self)@.entries.len(),
        ensures
            final(self)@.entries == old(self)@.entries,
            final(self)@.index == (match index {
                Some(i) => Some(i as int),
                None => None::<int>,
            }),
    {
        self.index = index;
    }
}

} // verus!
