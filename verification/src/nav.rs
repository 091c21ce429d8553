//! The navigation state machine of the browser.
//!
//! The engine owns the browsing state: the current directory path, its
//! listing under a selection cursor, a read-only snapshot of the parent
//! directory, the index to restore when ascending back, the preview pane
//! and the transient error banner. It performs no filesystem work itself:
//! `handle` turns an input event into the next state and an action, the
//! caller carries the action out (listing a directory, reading a file's
//! head, launching a file) and hands the outcome back through `apply_load`,
//! `preview_query`/`apply_preview` and `set_error`. A failed directory read
//! never replaces the current state: it only fills the error banner.

use vstd::prelude::*;

use crate::cursor::{clamped_sel, next_sel, prev_sel, Cursor};
use crate::entry::lemma_child_parent_round_trip;
use crate::entry::{DirPath, Entry};

verus! {

/// An input the engine reacts to; every other key is ignored by the caller.
#[derive(Clone, Copy, PartialEq, Eq, Structural, Debug)]
pub enum NavEvent {
    Quit,
    Up,
    Down,
    Ascend,
    Descend,
    Tick,
}

/// What the caller must do after `handle`: nothing, recompute the preview,
/// load a directory and hand the listing to `apply_load`, or launch the
/// file and report a failure through `set_error`.
pub enum NavAction {
    Idle,
    RefreshPreview,
    LoadDir { path: DirPath, select: Option<usize>, remember: Option<usize> },
    OpenFile { path: DirPath },
}

/// The preview pane: nothing, the children of a selected directory, the
/// leading text of a selected file, or the message of a failed listing.
pub enum Preview {
    Empty,
    ChildListing(Vec<Entry>),
    TextSnippet(String),
    Error(String),
}

/// What the preview of the selected entry needs from the filesystem.
pub enum PreviewQuery {
    Nothing,
    ListChildren { path: DirPath },
    ReadHead { path: DirPath },
    MetaFailed { message: String },
}

/// What the filesystem answered to a `PreviewQuery`. `Text(None)` stands
/// for an unreadable file, which degrades the preview instead of failing.
pub enum PreviewOutcome {
    NoSelection,
    Children(Result<Vec<Entry>, String>),
    Text(Option<String>),
    MetaError(String),
}

/// A read-only listing of a directory one level up.
pub struct DirSnapshot {
    pub path: DirPath,
    pub entries: Vec<Entry>,
}

/// Selection installed by a successful directory load: an explicit request
/// is clamped into range, and no request means the default, the first index
/// when there is one.
pub open spec fn load_sel(select: Option<usize>, len: nat) -> Option<usize> {
    match select {
        Some(i) => clamped_sel(Some(i), len),
        None => if len == 0 {
            None
        } else {
            Some(0usize)
        },
    }
}

/// The browsing state and its transitions.
pub struct NavEngine {
    current_path: DirPath,
    entries: Cursor<Entry>,
    parent: Option<DirSnapshot>,
    return_index: Option<usize>,
    preview: Preview,
    last_error: Option<String>,
    exit: bool,
}

impl NavEngine {
    /// The current directory's path, as its components.
    pub closed spec fn path_view(&self) -> Seq<Seq<u8>> {
        self.current_path@
    }

    /// The current directory's listing.
    pub closed spec fn entries_seq(&self) -> Seq<Entry> {
        self.entries.seq()
    }

    /// The selected index of the current listing, if any.
    pub closed spec fn sel(&self) -> Option<usize> {
        self.entries.sel()
    }

    /// The parent directory snapshot, if the current directory has a parent
    /// whose listing succeeded.
    pub closed spec fn parent_snap(&self) -> Option<DirSnapshot> {
        self.parent
    }

    /// The selection to restore in the parent when ascending back.
    pub closed spec fn ret_idx(&self) -> Option<usize> {
        self.return_index
    }

    /// The preview pane's content.
    pub closed spec fn preview_view(&self) -> Preview {
        self.preview
    }

    /// The transient error banner.
    pub closed spec fn err_view(&self) -> Option<String> {
        self.last_error
    }

    /// Whether the session was marked for termination.
    pub closed spec fn exiting(&self) -> bool {
        self.exit
    }

    /// Well-formedness: the selection cursor is in range.
    pub open spec fn wf(&self) -> bool {
        &&& (self.sel() matches Some(i) ==> i < self.entries_seq().len())
        &&& (self.entries_seq().len() == 0 ==> self.sel() is None)
    }

    /// Start browsing at `path` with its listing and, when the start
    /// directory has a readable parent, that parent's snapshot. The first
    /// entry is selected when there is one; the preview starts empty and is
    /// filled by the first `preview_query`/`apply_preview` round.
    pub fn with_start(path: DirPath, listing: Vec<Entry>, parent: Option<DirSnapshot>) -> (r:
        NavEngine)
        ensures
            r.path_view() == path@,
            r.entries_seq() == listing@,
            r.sel() == load_sel(None, listing@.len()),
            r.parent_snap() == parent,
            r.ret_idx() is None,
            r.preview_view() is Empty,
            r.err_view() is None,
            !r.exiting(),
            r.wf(),
    {
        NavEngine {
            current_path: path,
            entries: Cursor::with_items(listing),
            parent,
            return_index: None,
            preview: Preview::Empty,
            last_error: None,
            exit: false,
        }
    }

    /// React to one input event. The listing, path, parent snapshot, return
    /// index and preview never change here; movement changes the selection,
    /// every navigation input clears the error banner, and the returned
    /// action tells the caller which filesystem work the new state needs.
    pub fn handle(&mut self, ev: NavEvent) -> (a: NavAction)
        requires
            old(self).wf(),
        ensures
            final(self).wf(),
            final(self).path_view() == old(self).path_view(),
            final(self).entries_seq() == old(self).entries_seq(),
            final(self).parent_snap() == old(self).parent_snap(),
            final(self).ret_idx() == old(self).ret_idx(),
            final(self).preview_view() == old(self).preview_view(),
            match ev {
                NavEvent::Quit => {
                    &&& final(self).exiting()
                    &&& final(self).sel() == old(self).sel()
                    &&& final(self).err_view() == old(self).err_view()
                    &&& a is Idle
                },
                NavEvent::Tick => {
                    &&& final(self).exiting() == old(self).exiting()
                    &&& final(self).sel() == old(self).sel()
                    &&& final(self).err_view() == old(self).err_view()
                    &&& a is Idle
                },
                NavEvent::Down => {
                    &&& final(self).exiting() == old(self).exiting()
                    &&& final(self).sel() == next_sel(old(self).sel(), old(self).entries_seq().len())
                    &&& final(self).err_view() is None
                    &&& a is RefreshPreview
                },
                NavEvent::Up => {
                    &&& final(self).exiting() == old(self).exiting()
                    &&& final(self).sel() == prev_sel(old(self).sel(), old(self).entries_seq().len())
                    &&& final(self).err_view() is None
                    &&& a is RefreshPreview
                },
                NavEvent::Ascend => {
                    &&& final(self).exiting() == old(self).exiting()
                    &&& final(self).sel() == old(self).sel()
                    &&& final(self).err_view() is None
                    &&& if old(self).path_view().len() == 0 {
                        a is Idle
                    } else {
                        a matches NavAction::LoadDir { path, select, remember }
                            && path@ == old(self).path_view().drop_last()
                            && select == old(self).ret_idx()
                            && remember is None
                    }
                },
                NavEvent::Descend => {
                    &&& final(self).exiting() == old(self).exiting()
                    &&& final(self).sel() == old(self).sel()
                    &&& final(self).err_view() is None
                    &&& match old(self).sel() {
                        None => a is RefreshPreview,
                        Some(i) => {
                            let e = old(self).entries_seq()[i as int];
                            if e.is_dir_like() {
                                a matches NavAction::LoadDir { path, select, remember }
                                    && path@ == old(self).path_view().push(e.name@)
                                    && select == Some(0usize)
                                    && remember == Some(i)
                            } else if e.is_file() {
                                a matches NavAction::OpenFile { path }
                                    && path@ == old(self).path_view().push(e.name@)
                            } else {
                                a is RefreshPreview
                            }
                        },
                    }
                },
            },
    {
        match ev {
            NavEvent::Quit => {
                self.exit = true;
                NavAction::Idle
            },
            NavEvent::Tick => NavAction::Idle,
            NavEvent::Down => {
                self.last_error = None;
                self.entries.next();
                NavAction::RefreshPreview
            },
            NavEvent::Up => {
                self.last_error = None;
                self.entries.previous();
                NavAction::RefreshPreview
            },
            NavEvent::Ascend => {
                self.last_error = None;
                match self.current_path.parent() {
                    Some(path) => NavAction::LoadDir {
                        path,
                        select: self.return_index,
                        remember: None,
                    },
                    None => NavAction::Idle,
                }
            },
            NavEvent::Descend => {
                self.last_error = None;
                match self.entries.current() {
                    Some(entry) => {
                        if entry.dir_like() {
                            NavAction::LoadDir {
                                path: self.current_path.child(&entry.name),
                                select: Some(0),
                                remember: self.entries.current_idx(),
                            }
                        } else if entry.file_like() {
                            NavAction::OpenFile { path: self.current_path.child(&entry.name) }
                        } else {
                            NavAction::RefreshPreview
                        }
                    },
                    None => NavAction::RefreshPreview,
                }
            },
        }
    }

    /// Install the outcome of a directory load. A successful listing
    /// replaces the current path, listing and return index, resets the
    /// preview until the next refresh, and selects `load_sel` of the
    /// request; a load that descends (one with a remembered index)
    /// snapshots the old current directory as the new parent itself, any
    /// other installs the caller's `parent` — the grandparent's listing on
    /// ascend. A failed load leaves the whole state as it was and only
    /// fills the error banner.
    pub fn apply_load(
        &mut self,
        path: DirPath,
        select: Option<usize>,
        listing: Result<Vec<Entry>, String>,
        parent: Option<DirSnapshot>,
        remember: Option<usize>,
    )
        requires
            old(self).wf(),
        ensures
            final(self).wf(),
            final(self).exiting() == old(self).exiting(),
            match listing {
                Ok(v) => {
                    &&& final(self).path_view() == path@
                    &&& final(self).entries_seq() == v@
                    &&& final(self).sel() == load_sel(select, v@.len())
                    &&& (match remember {
                        Some(_) => final(self).parent_snap() matches Some(s)
                            && s.path@ == old(self).path_view()
                            && s.entries@ == old(self).entries_seq(),
                        None => final(self).parent_snap() == parent,
                    })
                    &&& final(self).ret_idx() == remember
                    &&& final(self).preview_view() is Empty
                    &&& final(self).err_view() == old(self).err_view()
                },
                Err(m) => {
                    &&& final(self).path_view() == old(self).path_view()
                    &&& final(self).entries_seq() == old(self).entries_seq()
                    &&& final(self).sel() == old(self).sel()
                    &&& final(self).parent_snap() == old(self).parent_snap()
                    &&& final(self).ret_idx() == old(self).ret_idx()
                    &&& final(self).preview_view() == old(self).preview_view()
                    &&& final(self).err_view() == Some(m)
                },
            },
    {
        match listing {
            Ok(v) => {
                let mut new_entries = Cursor::with_items(v);
                match select {
                    Some(i) => new_entries.select(Some(i)),
                    None => (),
                }
                let mut old_path = path;
                core::mem::swap(&mut self.current_path, &mut old_path);
                core::mem::swap(&mut self.entries, &mut new_entries);
                self.parent = match remember {
                    Some(_) => Some(
                        DirSnapshot { path: old_path, entries: new_entries.into_items() },
                    ),
                    None => parent,
                };
                self.return_index = remember;
                self.preview = Preview::Empty;
            },
            Err(m) => {
                self.last_error = Some(m);
            },
        }
    }

    /// What the preview of the selected entry needs: the children of a
    /// directory (a symlink is tried like one), the leading text of a file,
    /// nothing for no selection or an unknown kind, and the stored message
    /// for an entry whose metadata query failed.
    pub fn preview_query(&self) -> (q: PreviewQuery)
        requires
            self.wf(),
        ensures
            match self.sel() {
                None => q is Nothing,
                Some(i) => {
                    let e = self.entries_seq()[i as int];
                    match e.meta {
                        Err(m) => q matches PreviewQuery::MetaFailed { message } && message == m,
                        Ok(md) => if md.kind is Directory || md.kind is Symlink {
                            q matches PreviewQuery::ListChildren { path } && path@ == self.path_view().push(
                                e.name@,
                            )
                        } else if md.kind is File {
                            q matches PreviewQuery::ReadHead { path } && path@ == self.path_view().push(
                                e.name@,
                            )
                        } else {
                            q is Nothing
                        },
                    }
                },
            },
    {
        match self.entries.current() {
            None => PreviewQuery::Nothing,
            Some(entry) => {
                if entry.dir_like() {
                    PreviewQuery::ListChildren { path: self.current_path.child(&entry.name) }
                } else if entry.file_like() {
                    PreviewQuery::ReadHead { path: self.current_path.child(&entry.name) }
                } else {
                    match &entry.meta {
                        Err(m) => PreviewQuery::MetaFailed { message: m.clone() },
                        Ok(_) => PreviewQuery::Nothing,
                    }
                }
            },
        }
    }

    /// Install what the filesystem answered for the selected entry's
    /// preview. Only the preview changes — and the error banner, when the
    /// selected entry's own metadata query had failed.
    pub fn apply_preview(&mut self, outcome: PreviewOutcome)
        ensures
            final(self).path_view() == old(self).path_view(),
            final(self).entries_seq() == old(self).entries_seq(),
            final(self).sel() == old(self).sel(),
            final(self).parent_snap() == old(self).parent_snap(),
            final(self).ret_idx() == old(self).ret_idx(),
            final(self).exiting() == old(self).exiting(),
            final(self).wf() == old(self).wf(),
            match outcome {
                PreviewOutcome::NoSelection => {
                    &&& final(self).preview_view() is Empty
                    &&& final(self).err_view() == old(self).err_view()
                },
                PreviewOutcome::Children(r) => match r {
                    Ok(v) => {
                        &&& final(self).preview_view() == Preview::ChildListing(v)
                        &&& final(self).err_view() == old(self).err_view()
                    },
                    Err(m) => {
                        &&& final(self).preview_view() == Preview::Error(m)
                        &&& final(self).err_view() == old(self).err_view()
                    },
                },
                PreviewOutcome::Text(t) => match t {
                    Some(s) => {
                        &&& final(self).preview_view() == Preview::TextSnippet(s)
                        &&& final(self).err_view() == old(self).err_view()
                    },
                    None => {
                        &&& final(self).preview_view() is Empty
                        &&& final(self).err_view() == old(self).err_view()
                    },
                },
                PreviewOutcome::MetaError(m) => {
                    &&& final(self).preview_view() is Empty
                    &&& final(self).err_view() == Some(m)
                },
            },
    {
        match outcome {
            PreviewOutcome::NoSelection => {
                self.preview = Preview::Empty;
            },
            PreviewOutcome::Children(r) => {
                match r {
                    Ok(v) => {
                        self.preview = Preview::ChildListing(v);
                    },
                    Err(m) => {
                        self.preview = Preview::Error(m);
                    },
                }
            },
            PreviewOutcome::Text(t) => {
                match t {
                    Some(s) => {
                        self.preview = Preview::TextSnippet(s);
                    },
                    None => {
                        self.preview = Preview::Empty;
                    },
                }
            },
            PreviewOutcome::MetaError(m) => {
                self.preview = Preview::Empty;
                self.last_error = Some(m);
            },
        }
    }

    /// Surface a failure of the external file launcher: only the error
    /// banner changes.
    pub fn set_error(&mut self, message: String)
        ensures
            final(self).path_view() == old(self).path_view(),
            final(self).entries_seq() == old(self).entries_seq(),
            final(self).sel() == old(self).sel(),
            final(self).parent_snap() == old(self).parent_snap(),
            final(self).ret_idx() == old(self).ret_idx(),
            final(self).preview_view() == old(self).preview_view(),
            final(self).exiting() == old(self).exiting(),
            final(self).wf() == old(self).wf(),
            final(self).err_view() == Some(message),
    {
        self.last_error = Some(message);
    }

    pub fn current_path(&self) -> (r: &DirPath)
        ensures
            r@ == self.path_view(),
    {
        &self.current_path
    }

    pub fn entries(&self) -> (r: &Cursor<Entry>)
        ensures
            r.seq() == self.entries_seq(),
            r.sel() == self.sel(),
            r.wf() == self.wf(),
    {
        &self.entries
    }

    pub fn parent_snapshot(&self) -> (r: &Option<DirSnapshot>)
        ensures
            *r == self.parent_snap(),
    {
        &self.parent
    }

    pub fn preview(&self) -> (r: &Preview)
        ensures
            *r == self.preview_view(),
    {
        &self.preview
    }

    pub fn last_error(&self) -> (r: &Option<String>)
        ensures
            *r == self.err_view(),
    {
        &self.last_error
    }

    pub fn should_exit(&self) -> (r: bool)
        ensures
            r == self.exiting(),
    {
        self.exit
    }
}

/// Law: descending into a child directory from index `k` of a parent
/// listing and ascending back restores the state, provided the parent's
/// listing is unchanged (its length `len` still exceeds `k`). `handle` on
/// the descend remembers `k`, `apply_load` stores it as the return index
/// and pushes the child's name onto the path; `handle` on the ascend hands
/// back the path without its last component — the parent again — and the
/// remembered selection, which a load of `len` entries clamps to itself.
pub proof fn lemma_descend_ascend_round_trip(p: Seq<Seq<u8>>, name: Seq<u8>, k: usize, len: nat)
    requires
        (k as nat) < len,
    ensures
        p.push(name).drop_last() == p,
        load_sel(Some(k), len) == Some(k),
{
    lemma_child_parent_round_trip(p, name);
}

/// The same law exercised through the real transitions: with a directory
/// selected, descend into it (loading `child_listing`), then ascend back
/// with the parent's listing unchanged (`relist` equals the current one).
/// The path, the listing and the selection come back exactly as they were;
/// the return index is consumed, and the preview waits for its refresh.
pub fn descend_then_ascend(
    engine: &mut NavEngine,
    child_listing: Vec<Entry>,
    relist: Vec<Entry>,
    parent_again: Option<DirSnapshot>,
)
    requires
        old(engine).wf(),
        old(engine).sel() matches Some(k) && old(engine).entries_seq()[k as int].is_dir_like(),
        relist@ == old(engine).entries_seq(),
    ensures
        final(engine).wf(),
        final(engine).path_view() == old(engine).path_view(),
        final(engine).entries_seq() == old(engine).entries_seq(),
        final(engine).sel() == old(engine).sel(),
        final(engine).parent_snap() == parent_again,
        final(engine).ret_idx() is None,
        final(engine).err_view() is None,
        final(engine).exiting() == old(engine).exiting(),
{
    let ghost p0 = engine.path_view();
    match engine.handle(NavEvent::Descend) {
        NavAction::LoadDir { path, select, remember } => {
            engine.apply_load(path, select, Ok(child_listing), None, remember);
            match engine.handle(NavEvent::Ascend) {
                NavAction::LoadDir { path, select, remember } => {
                    proof {
                        lemma_child_parent_round_trip(
                            p0,
                            old(engine).entries_seq()[old(engine).sel()->0 as int].name@,
                        );
                    }
                    engine.apply_load(path, select, Ok(relist), parent_again, remember);
                },
                _ => unreached(),
            }
        },
        _ => unreached(),
    }
}

} // verus!
