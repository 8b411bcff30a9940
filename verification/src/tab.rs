//! Per-tab navigation state and its queries.
//!
//! A `JoshutoTab` owns where the user is (`cwd`), where they were just
//! before (`previous_dir`), the tab's history cache of loaded listings, a
//! path-keyed store of preview metadata, and the tab's display options. The
//! tab performs no I/O: every query is a lookup in the history cache, and a
//! missing entry is surfaced as absent, never as an error.

use vstd::prelude::*;

use crate::fs::DirListView;
use crate::fs::JoshutoDirList;
use crate::history::JoshutoHistory;
use crate::history::PathMap;
use crate::path::AbsPath;
use crate::path::PathView;

verus! {

/// The preview-metadata store of one tab: an opaque value of the preview
/// subsystem for each path it has examined. This core never reads what a
/// value holds.
pub type HistoryMetadata<M> = PathMap<M>;

/// Display configuration of one tab. The tab only stores and hands out
/// this record; nothing in the core reads it.
#[derive(Clone, Copy, Debug, PartialEq, Eq, Structural)]
pub struct TabDisplayOption {
    pub show_hidden: bool,
    pub reverse_sort: bool,
}

/// The failure kind of tab construction, kept for validation to come;
/// construction currently always succeeds.
#[derive(Clone, Copy, Debug, PartialEq, Eq, Structural)]
pub enum TabError {
    InvalidDirectory,
}

/// The mathematical value of a tab: the current and previous directory as
/// path values, the two path-keyed stores as maps, and the options record.
pub struct TabView<MV> {
    pub cwd: PathView,
    pub previous_dir: Option<PathView>,
    pub history: Map<PathView, DirListView>,
    pub history_metadata: Map<PathView, MV>,
    pub options: TabDisplayOption,
}

/// The value of a freshly constructed tab: the given directory and history,
/// no previous directory, and no metadata at all.
pub open spec fn init_tab_of<MV>(
    cwd: PathView,
    history: Map<PathView, DirListView>,
    options: TabDisplayOption,
) -> TabView<MV> {
    TabView {
        cwd,
        previous_dir: None,
        history,
        history_metadata: Map::<PathView, MV>::empty(),
        options,
    }
}

/// The value of a tab after a directory change: the new directory becomes
/// current and the old current one becomes previous, unconditionally.
pub open spec fn change_dir_of<MV>(t: TabView<MV>, new_cwd: PathView) -> TabView<MV> {
    TabView { cwd: new_cwd, previous_dir: Some(t.cwd), ..t }
}

/// The parent of a path value: the path with its last component stripped;
/// the root has none.
pub open spec fn parent_path_of(p: PathView) -> Option<PathView> {
    if p.len() == 0 {
        None
    } else {
        Some(p.drop_last())
    }
}

/// What the current-listing query denotes: the cached listing of `cwd`, or
/// absent when none is cached.
pub open spec fn curr_list_of<MV>(t: TabView<MV>) -> Option<DirListView> {
    if t.history.contains_key(t.cwd) {
        Some(t.history[t.cwd])
    } else {
        None
    }
}

/// What the parent-listing query denotes: the cached listing of the parent
/// of `cwd`; absent when `cwd` has no parent or the parent is not cached.
pub open spec fn parent_list_of<MV>(t: TabView<MV>) -> Option<DirListView> {
    match parent_path_of(t.cwd) {
        Some(p) => if t.history.contains_key(p) {
            Some(t.history[p])
        } else {
            None
        },
        None => None,
    }
}

/// The path of the selected entry of the current listing: absent when the
/// current listing is absent or has no selection index.
pub open spec fn child_path_of<MV>(t: TabView<MV>) -> Option<PathView> {
    match curr_list_of(t) {
        Some(l) => match l.index {
            Some(i) => Some(l.entries[i]),
            None => None,
        },
        None => None,
    }
}

/// What the child-listing query denotes: the cached listing of the selected
/// entry's path; absent when that path is absent or not cached.
pub open spec fn child_list_of<MV>(t: TabView<MV>) -> Option<DirListView> {
    match child_path_of(t) {
        Some(p) => if t.history.contains_key(p) {
            Some(t.history[p])
        } else {
            None
        },
        None => None,
    }
}

/// One tab of the file browser: its current and previous directory, its
/// history cache, its preview metadata, and its display options. `M` is the
/// preview subsystem's metadata value type, opaque to this core.
pub struct JoshutoTab<M: View> {
    cwd: AbsPath,
    previous_dir: Option<AbsPath>,
    history: JoshutoHistory,
    history_metadata: HistoryMetadata<M>,
    options: TabDisplayOption,
}

impl<M: View> View for JoshutoTab<M> {
    type V = TabView<M::V>;

    closed spec fn view(&self) -> TabView<M::V> {
        TabView {
            cwd: self.cwd@,
            previous_dir: match self.previous_dir {
                Some(p) => Some(p@),
                None => None,
            },
            history: self.history@,
            history_metadata: self.history_metadata@,
            options: self.options,
        }
    }
}

impl<M: View> JoshutoTab<M> {
    /// A tab at `cwd` with the given, possibly pre-populated, history cache
    /// and options; no previous directory and no metadata yet. The failure
    /// arm is kept for validation to come: construction always succeeds.
    pub fn new(cwd: AbsPath, history: JoshutoHistory, tab_options: TabDisplayOption) -> (r: Result<
        JoshutoTab<M>,
        TabError,
    >)
        ensures
            r matches Ok(t) && t@ == init_tab_of::<M::V>(cwd@, history@, tab_options),
    {
        let new_tab = JoshutoTab {
            cwd,
            previous_dir: None,
            history,
            history_metadata: PathMap::new(),
            options: tab_options,
        };
        Ok(new_tab)
    }

    /// The tab's display options.
    pub fn option_ref(&self) -> (r: &TabDisplayOption)
        ensures
            *r == self@.options,
    {
        &self.options
    }

    /// A mutable handle on the tab's display options.
    pub fn option_mut(&mut self) -> (r: &mut TabDisplayOption)
        ensures
            *r == old(self)@.options,
            final(self)@ == (TabView { options: *final(r), ..old(self)@ }),
    {
        &mut self.options
    }

    /// The tab's current directory.
    pub fn get_cwd(&self) -> (r: &AbsPath)
        ensures
            r@ == self@.cwd,
    {
        &self.cwd
    }

    /// Changes the current directory: the old one becomes the previous
    /// directory, even when `cwd` is the directory the tab is already in.
    /// The history cache is not touched and `cwd` is not required to be
    /// loaded, or even to exist: this is purely a pointer update.
    pub fn set_cwd(&mut self, cwd: &AbsPath)
        ensures
            final(self)@ == change_dir_of(old(self)@, cwd@),
    {
        let mut taken = cwd.clone_path();
        std::mem::swap(&mut self.cwd, &mut taken);
        self.previous_dir = Some(taken);
    }

    /// The directory the tab was in before the latest change; absent until
    /// the first change.
    pub fn previous_dir(&self) -> (r: Option<&AbsPath>)
        ensures
            (match r {
                Some(p) => self@.previous_dir == Some(p@),
                None => self@.previous_dir is None,
            }),
    {
        self.previous_dir.as_ref()
    }

    /// The tab's history cache.
    pub fn history_ref(&self) -> (r: &JoshutoHistory)
        ensures
            r@ == self@.history,
    {
        &self.history
    }

    /// A mutable handle on the tab's history cache, through which the
    /// loader inserts listings.
    pub fn history_mut(&mut self) -> (r: &mut JoshutoHistory)
        ensures
            (*r)@ == old(self)@.history,
            final(self)@ == (TabView { history: (*final(r))@, ..old(self)@ }),
    {
        &mut self.history
    }

    /// The tab's preview-metadata store.
    pub fn history_metadata_ref(&self) -> (r: &HistoryMetadata<M>)
        ensures
            r@ == self@.history_metadata,
    {
        &self.history_metadata
    }

    /// A mutable handle on the tab's preview-metadata store, through which
    /// the preview subsystem adds and replaces entries.
    pub fn history_metadata_mut(&mut self) -> (r: &mut HistoryMetadata<M>)
        ensures
            (*r)@ == old(self)@.history_metadata,
            final(self)@ == (TabView { history_metadata: (*final(r))@, ..old(self)@ }),
    {
        &mut self.history_metadata
    }

    /// The cached listing of the current directory, or absent when it has
    /// not been loaded; callers are expected to trigger a load then.
    pub fn curr_list_ref(&self) -> (r: Option<&JoshutoDirList>)
        ensures
            (match r {
                Some(l) => curr_list_of(self@) == Some(l@),
                None => curr_list_of(self@) is None,
            }),
    {
        self.history.get(&self.cwd)
    }

    /// The cached listing of the parent of the current directory; absent
    /// when the current directory has no parent or the parent has not been
    /// loaded.
    pub fn parent_list_ref(&self) -> (r: Option<&JoshutoDirList>)
        ensures
            (match r {
                Some(l) => parent_list_of(self@) == Some(l@),
                None => parent_list_of(self@) is None,
            }),
    {
        let parent = match self.cwd.parent() {
            Some(p) => p,
            None => {
                return None;
            },
        };
        self.history.get(&parent)
    }

    /// The cached listing of the selected entry of the current listing, the
    /// second hop of a dependent lookup: absent when the current listing is
    /// absent, when it has no selection index, or when the selected entry's
    /// path has not been loaded.
    pub fn child_list_ref(&self) -> (r: Option<&JoshutoDirList>)
        ensures
            (match r {
                Some(l) => child_list_of(self@) == Some(l@),
                None => child_list_of(self@) is None,
            }),
    {
        let curr = match self.history.get(&self.cwd) {
            Some(l) => l,
            None => {
                return None;
            },
        };
        let index = match curr.get_index() {
            Some(i) => i,
            None => {
                return None;
            },
        };
        let path = curr.entry_at(index).file_path();
        self.history.get(path)
    }

    /// Like the current-listing query, but a mutable handle into the cache
    /// entry, for in-place updates such as moving the selection.
    pub fn curr_list_mut(&mut self) -> (r: Option<&mut JoshutoDirList>)
        ensures
            curr_list_of(old(self)@) is None ==> r.is_none() && final(self)@ == old(self)@,
            curr_list_of(old(self)@) matches Some(l) ==> r.is_some() && (*r.unwrap())@ == l
                && final(self)@ == (TabView {
                history: old(self)@.history.insert(old(self)@.cwd, (*final(r.unwrap()))@),
                ..old(self)@
            }),
    {
        self.history.get_mut(&self.cwd)
    }

    /// Like the parent-listing query, but a mutable handle into the cache
    /// entry.
    pub fn parent_list_mut(&mut self) -> (r: Option<&mut JoshutoDirList>)
        ensures
            parent_list_of(old(self)@) is None ==> r.is_none() && final(self)@ == old(self)@,
            parent_list_of(old(self)@) matches Some(l) ==> r.is_some() && (*r.unwrap())@ == l
                && final(self)@ == (TabView {
                history: old(self)@.history.insert(
                    old(self)@.cwd.drop_last(),
                    (*final(r.unwrap()))@,
                ),
                ..old(self)@
            }),
    {
        let parent = match self.cwd.parent() {
            Some(p) => p,
            None => {
                return None;
            },
        };
        self.history.get_mut(&parent)
    }

    /// Like the child-listing query, but a mutable handle into the cache
    /// entry.
    pub fn child_list_mut(&mut self) -> (r: Option<&mut JoshutoDirList>)
        ensures
            child_list_of(old(self)@) is None ==> r.is_none() && final(self)@ == old(self)@,
            child_list_of(old(self)@) matches Some(l) ==> r.is_some() && (*r.unwrap())@ == l
                && final(self)@ == (TabView {
                history: old(self)@.history.insert(
                    child_path_of(old(self)@).unwrap(),
                    (*final(r.unwrap()))@,
                ),
                ..old(self)@
            }),
    {
        let child_path = {
            let curr = match self.history.get(&self.cwd) {
                Some(l) => l,
                None => {
                    return None;
                },
            };
            let index = match curr.get_index() {
                Some(i) => i,
                None => {
                    return None;
                },
            };
            curr.entry_at(index).file_path().clone_path()
        };
        self.history.get_mut(&child_path)
    }
}

/// Law: changing directory to `b` and then to `b` again leaves the tab with
/// `cwd == b` and `previous_cwd == b`: a change to the directory the tab is
/// already in still records itself as the previous directory.
pub proof fn lemma_repeat_change_dir_records_previous<MV>(t: TabView<MV>, b: PathView)
    ensures
        change_dir_of(change_dir_of(t, b), b).cwd == b,
        change_dir_of(change_dir_of(t, b), b).previous_dir == Some(b),
{
}

/// Law: for a tab whose current directory has no parent, the parent-listing
/// query is absent whatever the history cache holds.
pub proof fn lemma_no_parent_query_absent<MV>(t: TabView<MV>)
    requires
        parent_path_of(t.cwd) is None,
    ensures
        parent_list_of(t) is None,
{
}

/// Law: the current-listing query reflects the cache exactly: it is absent
/// while the history holds no entry for `cwd`, and after an entry for `cwd`
/// is inserted, the same query returns that entry.
pub proof fn lemma_current_query_reflects_cache<MV>(t: TabView<MV>, l: DirListView)
    ensures
        !t.history.contains_key(t.cwd) ==> curr_list_of(t) is None,
        curr_list_of(TabView { history: t.history.insert(t.cwd, l), ..t }) == Some(l),
{
}

/// Law: the child-listing query is absent exactly when the current listing
/// is absent, when it has no selection index, or when the selected entry's
/// path has no cache entry; otherwise it returns that path's cached listing.
pub proof fn lemma_child_query_cases<MV>(t: TabView<MV>)
    ensures
        curr_list_of(t) is None ==> child_list_of(t) is None,
        curr_list_of(t) matches Some(l) && l.index is None ==> child_list_of(t) is None,
        curr_list_of(t) matches Some(l) && l.index matches Some(i) && !t.history.contains_key(
            l.entries[i],
        ) ==> child_list_of(t) is None,
        curr_list_of(t) matches Some(l) ==> l.index matches Some(i) ==> t.history.contains_key(
            l.entries[i],
        ) ==> child_list_of(t) == Some(t.history[l.entries[i]]),
{
}

/// Law: construction populates nothing: the new tab's history is exactly
/// the one given, its metadata store is empty, and with an empty history
/// every listing query is absent.
pub proof fn lemma_construction_populates_nothing<MV>(
    cwd: PathView,
    history: Map<PathView, DirListView>,
    options: TabDisplayOption,
)
    ensures
        init_tab_of::<MV>(cwd, history, options).history == history,
        init_tab_of::<MV>(cwd, history, options).history_metadata == Map::<PathView, MV>::empty(),
        forall|p: PathView|
            !history.contains_key(p) ==> !init_tab_of::<MV>(cwd, history, options).history.contains_key(p),
        history == Map::<PathView, DirListView>::empty() ==> curr_list_of(
            init_tab_of::<MV>(cwd, history, options),
        ) is None && parent_list_of(init_tab_of::<MV>(cwd, history, options)) is None
            && child_list_of(init_tab_of::<MV>(cwd, history, options)) is None,
{
}

} // verus!
