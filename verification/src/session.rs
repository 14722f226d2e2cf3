//! The interactive session: its state, the key-driven transition relation,
//! and the invariants that the visible list and the selection cursor keep.
//!
//! Outside work is kept at the rim: a transition never polls the machine
//! itself. Refreshing takes the freshly enumerated records as an argument,
//! and confirming a kill hands the target pid back as an [`Action`] for the
//! surrounding loop to deliver before it refreshes.

use vstd::prelude::*;
use crate::{distinct_pids, has_pid, sorted_by_pid, ProcessRecord};
use crate::query::{filter_records, spec_filtered, clone_records};
use crate::snapshot::normalize_snapshot;

verus! {

/// A keyboard event, as far as the session distinguishes them.
#[derive(Clone, Copy, PartialEq, Eq, Structural, Debug)]
pub enum Key {
    Up,
    Down,
    Enter,
    Backspace,
    Esc,
    Char(char),
}

/// What the surrounding loop must do after a dispatched key, beyond the
/// state change itself.
#[derive(Clone, Copy, PartialEq, Eq, Structural, Debug)]
pub enum Action {
    /// Nothing: the state change is all.
    Stay,
    /// Fetch a fresh snapshot and hand it to `refresh_processes`.
    Refresh,
    /// Deliver a termination signal to this pid, then fetch a fresh snapshot
    /// and hand it to `refresh_processes`.
    Kill(u32),
}

/// The mathematical shape of a session state.
#[verifier::ext_equal]
pub ghost struct SessionView {
    pub exit: bool,
    pub cursor: Option<usize>,
    pub procs: Seq<ProcessRecord>,
    pub searching: bool,
    pub query: Seq<char>,
    pub filtered: Seq<ProcessRecord>,
    pub pending: Option<u32>,
}

/// The list selection and rendering act on: the filtered view while
/// filtering, else the full snapshot.
pub open spec fn visible_of(v: SessionView) -> Seq<ProcessRecord> {
    if v.searching {
        v.filtered
    } else {
        v.procs
    }
}

/// The cursor position after the visible list was replaced: the first
/// process row, or nothing when the list is empty.
pub open spec fn reset_cursor_for(len: nat) -> Option<usize> {
    if len > 0 {
        Some(1usize)
    } else {
        None
    }
}

/// The cursor addresses a slot of the visible list (`0` is the header row).
pub open spec fn cursor_in_range(v: SessionView) -> bool {
    match v.cursor {
        Some(i) => i <= visible_of(v).len(),
        None => true,
    }
}

/// Everything a session state keeps true between transitions.
pub open spec fn wf(v: SessionView) -> bool {
    &&& sorted_by_pid(v.procs)
    &&& distinct_pids(v.procs)
    &&& match v.cursor {
        Some(i) => visible_of(v).len() > 0 && i <= visible_of(v).len(),
        None => visible_of(v).len() == 0,
    }
    &&& !v.searching ==> v.filtered.len() == 0 && v.query.len() == 0
}

/// Advance the cursor one slot, wrapping over `{0, ..., len(visible)}`;
/// a no-op on an empty visible list.
pub open spec fn spec_next(v: SessionView) -> SessionView {
    let len = visible_of(v).len();
    if len == 0 {
        v
    } else {
        let ni: usize = match v.cursor {
            Some(i) => if i >= len {
                0usize
            } else {
                (i + 1) as usize
            },
            None => 0usize,
        };
        SessionView { cursor: Some(ni), ..v }
    }
}

/// Retreat the cursor one slot, wrapping over `{0, ..., len(visible)}`;
/// a no-op on an empty visible list.
pub open spec fn spec_previous(v: SessionView) -> SessionView {
    let len = visible_of(v).len();
    if len == 0 {
        v
    } else {
        let ni: usize = match v.cursor {
            Some(i) => if i == 0 {
                len as usize
            } else {
                (i - 1) as usize
            },
            None => len as usize,
        };
        SessionView { cursor: Some(ni), ..v }
    }
}

/// Capture the pid under the cursor for confirmation; a no-op when the
/// cursor rests on the header or nowhere, or a confirmation is pending.
pub open spec fn spec_initiate(v: SessionView) -> SessionView {
    if v.pending is None && match v.cursor {
        Some(i) => 1 <= i && i <= visible_of(v).len(),
        None => false,
    } {
        let i = v.cursor->Some_0;
        SessionView { pending: Some(visible_of(v)[i - 1].pid), ..v }
    } else {
        v
    }
}

/// Drop a pending confirmation; everything else stays.
pub open spec fn spec_cancel(v: SessionView) -> SessionView {
    SessionView { pending: None, ..v }
}

/// Begin filtering: an empty query over the full snapshot.
pub open spec fn spec_enter_search(v: SessionView) -> SessionView {
    SessionView {
        searching: true,
        query: Seq::empty(),
        filtered: v.procs,
        cursor: reset_cursor_for(v.procs.len()),
        ..v
    }
}

/// Leave filtering: the query and the filtered view are cleared.
pub open spec fn spec_exit_search(v: SessionView) -> SessionView {
    SessionView {
        searching: false,
        query: Seq::empty(),
        filtered: Seq::empty(),
        cursor: reset_cursor_for(v.procs.len()),
        ..v
    }
}

/// Extend the query by one character and recompute the filtered view.
pub open spec fn spec_push_query(v: SessionView, c: char) -> SessionView {
    let q = v.query.push(c);
    let f = spec_filtered(v.procs, q);
    SessionView { query: q, filtered: f, cursor: reset_cursor_for(f.len()), ..v }
}

/// Shorten the query by one character (if any) and recompute the filtered
/// view.
pub open spec fn spec_pop_query(v: SessionView) -> SessionView {
    let q = if v.query.len() > 0 {
        v.query.drop_last()
    } else {
        v.query
    };
    let f = spec_filtered(v.procs, q);
    SessionView { query: q, filtered: f, cursor: reset_cursor_for(f.len()), ..v }
}

/// The full dispatch table from a state and a key to the next state and the
/// outside work owed. A pending confirmation consumes every key: `y`
/// confirms, `n` or escape cancels, the rest is ignored.
pub open spec fn spec_dispatch(v: SessionView, key: Key) -> (SessionView, Action) {
    match v.pending {
        Some(p) => match key {
            Key::Char(c) => if c == 'y' || c == 'Y' {
                (spec_cancel(v), Action::Kill(p))
            } else if c == 'n' || c == 'N' {
                (spec_cancel(v), Action::Stay)
            } else {
                (v, Action::Stay)
            },
            Key::Esc => (spec_cancel(v), Action::Stay),
            _ => (v, Action::Stay),
        },
        None => if v.searching {
            match key {
                Key::Enter => (spec_initiate(v), Action::Stay),
                Key::Char(c) => (spec_push_query(v, c), Action::Stay),
                Key::Backspace => (spec_pop_query(v), Action::Stay),
                Key::Esc => (spec_exit_search(v), Action::Stay),
                Key::Up => (spec_previous(v), Action::Stay),
                Key::Down => (spec_next(v), Action::Stay),
            }
        } else {
            match key {
                Key::Char(c) => if c == 'q' {
                    (SessionView { exit: true, ..v }, Action::Stay)
                } else if c == 's' || c == 'S' {
                    (spec_enter_search(v), Action::Stay)
                } else if c == 'r' || c == 'R' {
                    (v, Action::Refresh)
                } else {
                    (v, Action::Stay)
                },
                Key::Up => (spec_previous(v), Action::Stay),
                Key::Down => (spec_next(v), Action::Stay),
                Key::Enter => (spec_initiate(v), Action::Stay),
                _ => (v, Action::Stay),
            }
        },
    }
}

/// Relies on String::push: appends exactly the given character.
#[verifier::external_body]
fn string_push_char(s: &mut String, c: char)
    ensures
        final(s)@ == old(s)@.push(c),
{
    s.push(c);
}

/// Relies on String::pop: removes exactly the last character, if any.
#[verifier::external_body]
fn string_pop_char(s: &mut String)
    ensures
        old(s)@.len() == 0 ==> final(s)@ == old(s)@,
        old(s)@.len() > 0 ==> final(s)@ == old(s)@.drop_last(),
{
    let _ = s.pop();
}

/// The state of one interactive session.
pub struct App {
    /// The loop stops when this is set.
    pub exit: bool,
    /// Selected slot of the visible list; `0` is the header row.
    pub cursor: Option<usize>,
    /// The full snapshot, ascending by pid, one record per pid.
    pub processes: Vec<ProcessRecord>,
    /// Whether the filter is active.
    pub search_mode: bool,
    /// The filter query.
    pub search_query: String,
    /// The filtered view; empty while the filter is inactive.
    pub filtered_processes: Vec<ProcessRecord>,
    /// The pid awaiting a kill confirmation, if any.
    pub pid_to_kill: Option<u32>,
}

impl View for App {
    type V = SessionView;

    open spec fn view(&self) -> SessionView {
        SessionView {
            exit: self.exit,
            cursor: self.cursor,
            procs: self.processes@,
            searching: self.search_mode,
            query: self.search_query@,
            filtered: self.filtered_processes@,
            pending: self.pid_to_kill,
        }
    }
}

impl App {
    /// A fresh session over the given records: normal mode, nothing pending,
    /// the snapshot normalised and the cursor on the first process row.
    pub fn new(fresh: Vec<ProcessRecord>) -> (app: App)
        ensures
            !app@.exit,
            !app@.searching,
            app@.query.len() == 0,
            app@.filtered.len() == 0,
            app@.pending is None,
            sorted_by_pid(app@.procs),
            distinct_pids(app@.procs),
            forall|i: int| 0 <= i < app@.procs.len() ==> fresh@.contains(#[trigger] app@.procs[i]),
            forall|i: int|
                0 <= i < fresh@.len() ==> has_pid(app@.procs, (#[trigger] fresh@[i]).pid),
            distinct_pids(fresh@) ==> app@.procs.to_multiset() == fresh@.to_multiset(),
            app@.cursor == reset_cursor_for(app@.procs.len()),
            wf(app@),
    {
        let mut app = App {
            exit: false,
            cursor: None,
            processes: Vec::new(),
            search_mode: false,
            search_query: String::new(),
            filtered_processes: Vec::new(),
            pid_to_kill: None,
        };
        app.refresh_processes(fresh);
        app
    }

    /// Replaces the snapshot with freshly enumerated records, re-sorted by
    /// pid and stripped of duplicate pids, recomputes the filtered view when
    /// filtering, and resets the cursor.
    pub fn refresh_processes(&mut self, fresh: Vec<ProcessRecord>)
        ensures
            sorted_by_pid(final(self)@.procs),
            distinct_pids(final(self)@.procs),
            forall|i: int|
                0 <= i < final(self)@.procs.len() ==> fresh@.contains(
                    #[trigger] final(self)@.procs[i],
                ),
            forall|i: int|
                0 <= i < fresh@.len() ==> has_pid(final(self)@.procs, (#[trigger] fresh@[i]).pid),
            distinct_pids(fresh@) ==> final(self)@.procs.to_multiset() == fresh@.to_multiset(),
            final(self)@.searching == old(self)@.searching,
            final(self)@.query == old(self)@.query,
            final(self)@.exit == old(self)@.exit,
            final(self)@.pending == old(self)@.pending,
            old(self)@.searching ==> final(self)@.filtered == spec_filtered(
                final(self)@.procs,
                old(self)@.query,
            ),
            !old(self)@.searching ==> final(self)@.filtered == old(self)@.filtered,
            sorted_by_pid(visible_of(final(self)@)),
            distinct_pids(visible_of(final(self)@)),
            final(self)@.cursor == reset_cursor_for(visible_of(final(self)@).len()),
            wf(old(self)@) ==> wf(final(self)@),
    {
        self.processes = normalize_snapshot(fresh);
        if self.search_mode {
            self.filtered_processes = filter_records(&self.processes, &self.search_query);
            proof {
                crate::query::lemma_filtered_keeps_pid_order(self.processes@, self.search_query@);
            }
        }
        let len: usize = if self.search_mode {
            self.filtered_processes.len()
        } else {
            self.processes.len()
        };
        self.cursor = if len > 0 {
            Some(1)
        } else {
            None
        };
    }

    /// The length of the visible list.
    pub fn visible_len(&self) -> (n: usize)
        ensures
            n == visible_of(self@).len(),
    {
        if self.search_mode {
            self.filtered_processes.len()
        } else {
            self.processes.len()
        }
    }

    /// Advances the cursor one slot, wrapping past the end to the header.
    pub fn next_item(&mut self)
        requires
            cursor_in_range(old(self)@),
        ensures
            final(self)@ == spec_next(old(self)@),
    {
        let len = self.visible_len();
        if len == 0 {
            return ;
        }
        let ni: usize = match self.cursor {
            Some(i) => if i >= len {
                0
            } else {
                i + 1
            },
            None => 0,
        };
        self.cursor = Some(ni);
    }

    /// Retreats the cursor one slot, wrapping past the header to the end.
    pub fn previous_item(&mut self)
        requires
            cursor_in_range(old(self)@),
        ensures
            final(self)@ == spec_previous(old(self)@),
    {
        let len = self.visible_len();
        if len == 0 {
            return ;
        }
        let ni: usize = match self.cursor {
            Some(i) => if i == 0 {
                len
            } else {
                i - 1
            },
            None => len,
        };
        self.cursor = Some(ni);
    }

    /// Captures the pid under the cursor for confirmation; a no-op when the
    /// cursor rests on the header row or nowhere, or when a confirmation is
    /// already pending.
    pub fn initiate_kill(&mut self)
        ensures
            final(self)@ == spec_initiate(old(self)@),
    {
        if self.pid_to_kill.is_some() {
            return ;
        }
        let len = self.visible_len();
        match self.cursor {
            Some(i) => {
                if 1 <= i && i <= len {
                    let pid = if self.search_mode {
                        self.filtered_processes[i - 1].pid
                    } else {
                        self.processes[i - 1].pid
                    };
                    self.pid_to_kill = Some(pid);
                }
            },
            None => {},
        }
    }

    /// Drops a pending confirmation without any other effect.
    pub fn cancel_kill(&mut self)
        ensures
            final(self)@ == spec_cancel(old(self)@),
    {
        self.pid_to_kill = None;
    }

    /// Takes the pending pid out for the surrounding loop to act on: the
    /// caller delivers the signal and then refreshes. The confirmation is
    /// cleared either way.
    pub fn confirm_kill(&mut self) -> (pid: Option<u32>)
        ensures
            final(self)@ == spec_cancel(old(self)@),
            pid == old(self)@.pending,
    {
        let pid = self.pid_to_kill;
        self.pid_to_kill = None;
        pid
    }

    /// Begins filtering with an empty query.
    pub fn enter_search_mode(&mut self)
        ensures
            final(self)@ == spec_enter_search(old(self)@),
    {
        self.search_mode = true;
        self.search_query = String::new();
        self.filtered_processes = clone_records(&self.processes);
        let len = self.processes.len();
        self.cursor = if len > 0 {
            Some(1)
        } else {
            None
        };
    }

    /// Leaves filtering and clears the query.
    pub fn exit_search_mode(&mut self)
        ensures
            final(self)@ == spec_exit_search(old(self)@),
    {
        self.search_mode = false;
        self.search_query = String::new();
        self.filtered_processes = Vec::new();
        let len = self.processes.len();
        self.cursor = if len > 0 {
            Some(1)
        } else {
            None
        };
        proof {
            assert(final(self)@.filtered =~= Seq::<ProcessRecord>::empty());
            assert(final(self)@.query =~= Seq::<char>::empty());
        }
    }

    /// Appends one character to the query and recomputes the filtered view.
    pub fn push_query_char(&mut self, c: char)
        ensures
            final(self)@ == spec_push_query(old(self)@, c),
    {
        string_push_char(&mut self.search_query, c);
        self.filtered_processes = filter_records(&self.processes, &self.search_query);
        let len = self.filtered_processes.len();
        self.cursor = if len > 0 {
            Some(1)
        } else {
            None
        };
    }

    /// Removes the last character of the query, if any, and recomputes the
    /// filtered view.
    pub fn pop_query_char(&mut self)
        ensures
            final(self)@ == spec_pop_query(old(self)@),
    {
        string_pop_char(&mut self.search_query);
        self.filtered_processes = filter_records(&self.processes, &self.search_query);
        let len = self.filtered_processes.len();
        self.cursor = if len > 0 {
            Some(1)
        } else {
            None
        };
    }

    /// Dispatches one keypress according to the session's mode and returns
    /// the outside work owed, exactly as `spec_dispatch` lays the table out.
    pub fn handle_key_events(&mut self, key: Key) -> (act: Action)
        requires
            cursor_in_range(old(self)@),
        ensures
            final(self)@ == spec_dispatch(old(self)@, key).0,
            act == spec_dispatch(old(self)@, key).1,
    {
        if self.pid_to_kill.is_some() {
            match key {
                Key::Char(c) => {
                    if c == 'y' || c == 'Y' {
                        let pid = self.confirm_kill();
                        Action::Kill(pid.unwrap())
                    } else if c == 'n' || c == 'N' {
                        self.cancel_kill();
                        Action::Stay
                    } else {
                        Action::Stay
                    }
                },
                Key::Esc => {
                    self.cancel_kill();
                    Action::Stay
                },
                _ => Action::Stay,
            }
        } else if self.search_mode {
            match key {
                Key::Enter => {
                    self.initiate_kill();
                    Action::Stay
                },
                Key::Char(c) => {
                    self.push_query_char(c);
                    Action::Stay
                },
                Key::Backspace => {
                    self.pop_query_char();
                    Action::Stay
                },
                Key::Esc => {
                    self.exit_search_mode();
                    Action::Stay
                },
                Key::Up => {
                    self.previous_item();
                    Action::Stay
                },
                Key::Down => {
                    self.next_item();
                    Action::Stay
                },
            }
        } else {
            match key {
                Key::Char(c) => {
                    if c == 'q' {
                        self.exit = true;
                        Action::Stay
                    } else if c == 's' || c == 'S' {
                        self.enter_search_mode();
                        Action::Stay
                    } else if c == 'r' || c == 'R' {
                        Action::Refresh
                    } else {
                        Action::Stay
                    }
                },
                Key::Up => {
                    self.previous_item();
                    Action::Stay
                },
                Key::Down => {
                    self.next_item();
                    Action::Stay
                },
                Key::Enter => {
                    self.initiate_kill();
                    Action::Stay
                },
                _ => Action::Stay,
            }
        }
    }
}

/// The state after `k` forward moves of the selection.
pub open spec fn apply_next(v: SessionView, k: nat) -> SessionView
    decreases k,
{
    if k == 0 {
        v
    } else {
        spec_next(apply_next(v, (k - 1) as nat))
    }
}

/// Iterated forward moves compose.
proof fn lemma_apply_next_add(v: SessionView, a: nat, b: nat)
    ensures
        apply_next(v, a + b) == apply_next(apply_next(v, a), b),
    decreases b,
{
    if b > 0 {
        lemma_apply_next_add(v, a, (b - 1) as nat);
    }
}

/// While the cursor stays within the visible list, stepping forward only
/// advances it, one slot per step, and changes nothing else.
proof fn lemma_apply_next_no_wrap(v: SessionView, k: nat)
    requires
        visible_of(v).len() > 0,
        visible_of(v).len() <= usize::MAX,
        (v.cursor is Some),
        v.cursor->Some_0 + k <= visible_of(v).len(),
    ensures
        apply_next(v, k) == (SessionView { cursor: Some((v.cursor->Some_0 + k) as usize), ..v }),
    decreases k,
{
    if k == 0 {
        assert(apply_next(v, k) =~= SessionView {
            cursor: Some((v.cursor->Some_0 + k) as usize),
            ..v
        });
    } else {
        lemma_apply_next_no_wrap(v, (k - 1) as nat);
        assert(apply_next(v, k) =~= SessionView {
            cursor: Some((v.cursor->Some_0 + k) as usize),
            ..v
        });
    }
}

/// Circular navigation: moving the selection forward exactly
/// `len(visible) + 1` times brings the whole session, cursor included, back
/// to where it began, on any non-empty visible list.
pub proof fn lemma_navigation_is_circular(v: SessionView)
    requires
        visible_of(v).len() > 0,
        visible_of(v).len() <= usize::MAX,
        (v.cursor is Some),
        v.cursor->Some_0 <= visible_of(v).len(),
    ensures
        apply_next(v, (visible_of(v).len() + 1) as nat) == v,
{
    let i = v.cursor->Some_0;
    let len = visible_of(v).len();
    let a = (len - i) as nat;
    lemma_apply_next_no_wrap(v, a);
    let v1 = apply_next(v, a);
    lemma_apply_next_add(v, a, 1);
    let v2 = apply_next(v, a + 1);
    assert(v2 == spec_next(v1));
    assert(visible_of(v1) == visible_of(v));
    assert(v2 =~= SessionView { cursor: Some(0usize), ..v });
    lemma_apply_next_add(v, a + 1, i as nat);
    lemma_apply_next_no_wrap(v2, i as nat);
    assert(apply_next(v2, i as nat) =~= v);
    assert(apply_next(v, (len + 1) as nat) == apply_next(v2, i as nat));
}

/// Initiating a kill and then cancelling it restores the session exactly:
/// same snapshot, same cursor, same everything, and nothing pending.
pub proof fn lemma_initiate_then_cancel(v: SessionView)
    requires
        (v.pending is None),
    ensures
        spec_cancel(spec_initiate(v)) == v,
        (spec_cancel(spec_initiate(v)).pending is None),
{
    assert(spec_cancel(spec_initiate(v)) =~= v);
}

/// Entering filter mode twice in a row is the same as entering it once.
pub proof fn lemma_enter_search_idempotent(v: SessionView)
    ensures
        spec_enter_search(spec_enter_search(v)) == spec_enter_search(v),
{
    assert(spec_enter_search(spec_enter_search(v)) =~= spec_enter_search(v));
}

/// Initiating a kill with the cursor on the header row, or nowhere, changes
/// nothing and leaves no confirmation pending.
pub proof fn lemma_initiate_on_header_is_noop(v: SessionView)
    requires
        v.cursor == Some(0usize) || (v.cursor is None),
    ensures
        spec_initiate(v) == v,
{
}

} // verus!
