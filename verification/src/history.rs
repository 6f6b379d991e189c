//! Undo and redo over snapshots of the editor state.
//!
//! The history is a list of snapshots and a cursor on the current one.
//! Recording a new state drops every snapshot after the cursor (the redo
//! branch), appends the state and moves the cursor onto it; at most
//! [`MAX_UNDO`] snapshots are kept, the oldest going first.

use vstd::prelude::*;
use crate::config::FlexConfig;

verus! {

/// The most snapshots a history keeps.
pub const MAX_UNDO: usize = 100;

/// The abstract state of a history: its snapshots and the index of the
/// current one.
pub struct HistoryView {
    pub snapshots: Seq<FlexConfig>,
    pub cursor: nat,
}

/// Whether a history state is well formed: between one and [`MAX_UNDO`]
/// snapshots, the cursor on one of them.
pub open spec fn history_wf(h: HistoryView) -> bool {
    &&& 0 < h.snapshots.len() <= MAX_UNDO
    &&& h.cursor < h.snapshots.len()
}

/// The state after recording `s`: the redo branch is dropped, `s` is
/// appended and becomes current, and the oldest snapshots go if there are
/// more than [`MAX_UNDO`].
pub open spec fn pushed(h: HistoryView, s: FlexConfig) -> HistoryView {
    let kept = h.snapshots.subrange(0, h.cursor + 1int).push(s);
    if kept.len() > MAX_UNDO {
        HistoryView {
            snapshots: kept.subrange(kept.len() - MAX_UNDO, kept.len() as int),
            cursor: (MAX_UNDO - 1) as nat,
        }
    } else {
        HistoryView { snapshots: kept, cursor: (kept.len() - 1) as nat }
    }
}

/// The state after an undo: the cursor steps back, if it can.
pub open spec fn undone(h: HistoryView) -> HistoryView {
    if h.cursor > 0 {
        HistoryView { cursor: (h.cursor - 1) as nat, ..h }
    } else {
        h
    }
}

/// The state after a redo: the cursor steps forward, if it can.
pub open spec fn redone(h: HistoryView) -> HistoryView {
    if h.cursor + 1 < h.snapshots.len() {
        HistoryView { cursor: h.cursor + 1, ..h }
    } else {
        h
    }
}

/// The current snapshot.
pub open spec fn current(h: HistoryView) -> FlexConfig {
    h.snapshots[h.cursor as int]
}

/// A bounded list of editor snapshots with a cursor on the current one.
pub struct UndoHistory {
    snapshots: Vec<FlexConfig>,
    cursor: usize,
}

impl UndoHistory {
    /// The snapshots and the cursor.
    pub closed spec fn view_history(&self) -> HistoryView {
        HistoryView { snapshots: self.snapshots@, cursor: self.cursor as nat }
    }

    /// Whether the history is well formed (see [`history_wf`]); every
    /// history built by [`UndoHistory::new`] and changed by its methods is.
    pub open spec fn wf(&self) -> bool {
        history_wf(self.view_history())
    }

    /// A history holding only `initial`.
    pub fn new(initial: FlexConfig) -> (r: Self)
        ensures
            r.wf(),
            r.view_history() == (HistoryView { snapshots: seq![initial], cursor: 0 }),
    {
        let mut snapshots: Vec<FlexConfig> = Vec::new();
        snapshots.push(initial);
        assert(snapshots@ =~= seq![initial]);
        UndoHistory { snapshots, cursor: 0 }
    }

    /// Records `state` after a mutation: it becomes the current snapshot
    /// and nothing is left to redo.
    pub fn push(&mut self, state: FlexConfig)
        requires
            old(self).wf(),
        ensures
            final(self).wf(),
            final(self).view_history() == pushed(old(self).view_history(), state),
    {
        let ghost h = self.view_history();
        let cur = self.cursor;
        self.snapshots.truncate(cur + 1);
        self.snapshots.push(state);
        assert(self.snapshots@ =~= h.snapshots.subrange(0, h.cursor + 1int).push(state));
        if self.snapshots.len() > MAX_UNDO {
            let excess = self.snapshots.len() - MAX_UNDO;
            let tail = self.snapshots.split_off(excess);
            self.snapshots = tail;
            self.cursor = MAX_UNDO - 1;
        } else {
            self.cursor = self.snapshots.len() - 1;
        }
    }

    /// Steps back to the previous snapshot and returns it; `None` when
    /// there is none.
    pub fn undo(&mut self) -> (r: Option<&FlexConfig>)
        requires
            old(self).wf(),
        ensures
            final(self).wf(),
            final(self).view_history() == undone(old(self).view_history()),
            old(self).view_history().cursor > 0 <==> r is Some,
            r matches Some(s) ==> *s == current(final(self).view_history()),
    {
        if self.cursor > 0 {
            self.cursor = self.cursor - 1;
            Some(&self.snapshots[self.cursor])
        } else {
            None
        }
    }

    /// Steps forward to the next snapshot and returns it; `None` when
    /// there is none.
    pub fn redo(&mut self) -> (r: Option<&FlexConfig>)
        requires
            old(self).wf(),
        ensures
            final(self).wf(),
            final(self).view_history() == redone(old(self).view_history()),
            old(self).view_history().cursor + 1 < old(self).view_history().snapshots.len()
                <==> r is Some,
            r matches Some(s) ==> *s == current(final(self).view_history()),
    {
        if self.cursor + 1 < self.snapshots.len() {
            self.cursor = self.cursor + 1;
            Some(&self.snapshots[self.cursor])
        } else {
            None
        }
    }

    /// Whether there is a snapshot to step back to.
    pub fn can_undo(&self) -> (r: bool)
        ensures
            r == (self.view_history().cursor > 0),
    {
        self.cursor > 0
    }

    /// Whether there is a snapshot to step forward to.
    pub fn can_redo(&self) -> (r: bool)
        requires
            self.wf(),
        ensures
            r == (self.view_history().cursor + 1 < self.view_history().snapshots.len()),
    {
        self.cursor + 1 < self.snapshots.len()
    }
}

/// Recording keeps a history well formed, makes the recorded state
/// current, and leaves nothing to redo.
pub proof fn lemma_push_current(h: HistoryView, s: FlexConfig)
    requires
        history_wf(h),
    ensures
        history_wf(pushed(h, s)),
        current(pushed(h, s)) == s,
        pushed(h, s).cursor + 1 == pushed(h, s).snapshots.len(),
{
}

/// Undoing right after recording a state brings back the state that was
/// current before it.
pub proof fn lemma_push_then_undo(h: HistoryView, s: FlexConfig)
    requires
        history_wf(h),
    ensures
        pushed(h, s).cursor > 0,
        current(undone(pushed(h, s))) == current(h),
{
}

/// A successful undo is reversed by a redo: the history is as before.
pub proof fn lemma_undo_then_redo(h: HistoryView)
    requires
        history_wf(h),
        h.cursor > 0,
    ensures
        history_wf(undone(h)),
        redone(undone(h)) == h,
{
}

/// A successful redo is reversed by an undo: the history is as before.
pub proof fn lemma_redo_then_undo(h: HistoryView)
    requires
        history_wf(h),
        h.cursor + 1 < h.snapshots.len(),
    ensures
        history_wf(redone(h)),
        undone(redone(h)) == h,
{
}

/// Undo and redo never change the snapshots, only the cursor, and keep the
/// history well formed.
pub proof fn lemma_undo_redo_keep_snapshots(h: HistoryView)
    requires
        history_wf(h),
    ensures
        undone(h).snapshots == h.snapshots,
        redone(h).snapshots == h.snapshots,
        history_wf(undone(h)),
        history_wf(redone(h)),
{
}

/// The history that [`UndoHistory::new`] with `first` and then a push of
/// each state of `pushes`, in order, builds.
pub open spec fn history_after(first: FlexConfig, pushes: Seq<FlexConfig>) -> HistoryView
    decreases pushes.len(),
{
    if pushes.len() == 0 {
        HistoryView { snapshots: seq![first], cursor: 0 }
    } else {
        pushed(history_after(first, pushes.drop_last()), pushes.last())
    }
}

/// The history after `k` undos.
pub open spec fn undone_times(h: HistoryView, k: nat) -> HistoryView
    decreases k,
{
    if k == 0 {
        h
    } else {
        undone(undone_times(h, (k - 1) as nat))
    }
}

/// The smaller of two numbers.
pub open spec fn min_nat(a: nat, b: nat) -> nat {
    if a < b {
        a
    } else {
        b
    }
}

/// After `first` and `n` pushes, the history holds the last
/// `min(n, MAX_UNDO - 1) + 1` of those states, oldest first, and the last
/// one pushed is current.
pub proof fn lemma_history_after(first: FlexConfig, pushes: Seq<FlexConfig>)
    ensures
        ({
            let h = history_after(first, pushes);
            let all = seq![first] + pushes;
            let n = pushes.len();
            let m = min_nat(n, (MAX_UNDO - 1) as nat);
            &&& history_wf(h)
            &&& h.cursor == m
            &&& h.snapshots == all.subrange(n - m, n + 1int)
        }),
    decreases pushes.len(),
{
    let all = seq![first] + pushes;
    if pushes.len() == 0 {
        assert(all.subrange(0, 1) =~= seq![first]);
    } else {
        let rest = pushes.drop_last();
        lemma_history_after(first, rest);
        let h0 = history_after(first, rest);
        let all0 = seq![first] + rest;
        let n = pushes.len();
        let m0 = min_nat((n - 1) as nat, (MAX_UNDO - 1) as nat);
        assert(all0 =~= all.subrange(0, n as int));
        assert(h0.snapshots.subrange(0, h0.cursor + 1int) =~= h0.snapshots);
        let kept = h0.snapshots.push(pushes.last());
        assert(kept =~= all.subrange(n - 1 - m0, n + 1int));
    }
}

/// A run of undos after `first` and `n` pushes: exactly
/// `min(n, MAX_UNDO - 1)` of them succeed, the `k`-th bringing back the
/// state pushed `k` steps before the last (the states before those were
/// dropped), and the one after them finds nothing to undo.
pub proof fn lemma_undo_run(first: FlexConfig, pushes: Seq<FlexConfig>, k: nat)
    requires
        k <= min_nat(pushes.len(), (MAX_UNDO - 1) as nat),
    ensures
        ({
            let h = history_after(first, pushes);
            let all = seq![first] + pushes;
            let m = min_nat(pushes.len(), (MAX_UNDO - 1) as nat);
            &&& history_wf(undone_times(h, k))
            &&& undone_times(h, k).snapshots == h.snapshots
            &&& undone_times(h, k).cursor == m - k
            &&& current(undone_times(h, k)) == all[pushes.len() - k]
            &&& (k < m <==> undone_times(h, k).cursor > 0)
        }),
    decreases k,
{
    lemma_history_after(first, pushes);
    if k > 0 {
        lemma_undo_run(first, pushes, (k - 1) as nat);
    }
}

} // verus!
