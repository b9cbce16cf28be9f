use vstd::prelude::*;
use vstd::pervasive::cloned;

verus! {

/// Coalescing mode of the history manager.
#[derive(Clone, Copy, Debug, PartialEq, Eq, Structural)]
pub enum Mode {
    /// Every push is its own undo step.
    Normal,
    /// The next push opens a coalesced block.
    StartBlock,
    /// Pushes overwrite the slot the open block occupies.
    InBlock,
}

/// Mathematical model of the history manager: the stored entries, the cursor,
/// and the coalescing mode.
#[verifier::ext_equal]
pub struct QueueModel<T> {
    pub entries: Seq<T>,
    pub cursor: int,
    pub mode: Mode,
}

impl<T> QueueModel<T> {
    /// The manager's invariant: at least the initial entry, cursor in range.
    pub open spec fn wf(self) -> bool {
        &&& self.entries.len() >= 1
        &&& 0 <= self.cursor < self.entries.len()
    }

    /// The entry the cursor rests on.
    pub open spec fn current(self) -> T {
        self.entries[self.cursor]
    }
}

/// A fresh history: one entry, cursor on it, Normal mode.
pub open spec fn spec_new_queue<T>(t: T) -> QueueModel<T> {
    QueueModel { entries: seq![t], cursor: 0, mode: Mode::Normal }
}

/// The push transition. Outside a running block it discards the redo tail,
/// appends the value and advances the cursor; a StartBlock push additionally
/// opens the block; a push inside a block overwrites the block's single slot.
pub open spec fn spec_push<T>(q: QueueModel<T>, t: T) -> QueueModel<T> {
    match q.mode {
        Mode::Normal => QueueModel {
            entries: q.entries.subrange(0, q.cursor + 1).push(t),
            cursor: q.cursor + 1,
            mode: Mode::Normal,
        },
        Mode::StartBlock => QueueModel {
            entries: q.entries.subrange(0, q.cursor + 1).push(t),
            cursor: q.cursor + 1,
            mode: Mode::InBlock,
        },
        Mode::InBlock => QueueModel {
            entries: q.entries.update(q.cursor, t),
            cursor: q.cursor,
            mode: Mode::InBlock,
        },
    }
}

/// The undo transition: step the cursor back, clamped at the initial entry.
pub open spec fn spec_undo<T>(q: QueueModel<T>) -> QueueModel<T> {
    if q.cursor >= 1 {
        QueueModel { cursor: q.cursor - 1, ..q }
    } else {
        q
    }
}

/// The redo transition: step the cursor forward, clamped at the newest entry.
pub open spec fn spec_redo<T>(q: QueueModel<T>) -> QueueModel<T> {
    if q.cursor < q.entries.len() - 1 {
        QueueModel { cursor: q.cursor + 1, ..q }
    } else {
        q
    }
}

/// The start-block transition: arm StartBlock, whatever the mode was.
pub open spec fn spec_start_block<T>(q: QueueModel<T>) -> QueueModel<T> {
    QueueModel { mode: Mode::StartBlock, ..q }
}

/// The close-block transition: back to Normal.
pub open spec fn spec_close_block<T>(q: QueueModel<T>) -> QueueModel<T> {
    QueueModel { mode: Mode::Normal, ..q }
}

/// Cursor clamping: undo at the oldest entry and redo at the newest are
/// no-ops, and neither transition ever moves the cursor out of range, so
/// repeated undos end at the initial entry and repeated redos at the last.
pub proof fn lemma_cursor_clamping<T>(q: QueueModel<T>)
    requires
        q.wf(),
    ensures
        q.cursor == 0 ==> spec_undo(q) == q,
        q.cursor == q.entries.len() - 1 ==> spec_redo(q) == q,
        spec_undo(q).wf() && 0 <= spec_undo(q).cursor <= q.cursor,
        spec_redo(q).wf() && q.cursor <= spec_redo(q).cursor < q.entries.len(),
        spec_undo(q).entries == q.entries && spec_undo(q).mode == q.mode,
        spec_redo(q).entries == q.entries && spec_redo(q).mode == q.mode,
{
}

/// Undo/redo round trip: whenever there is a step to undo — and also in the
/// one-entry state every sequence of pushes alone can otherwise leave behind —
/// undo followed by redo restores the whole manager, its current entry
/// included.
pub proof fn lemma_undo_redo_round_trip<T>(q: QueueModel<T>)
    requires
        q.wf(),
        q.cursor >= 1 || q.cursor == q.entries.len() - 1,
    ensures
        spec_redo(spec_undo(q)) == q,
        spec_redo(spec_undo(q)).current() == q.current(),
{
    assert(spec_redo(spec_undo(q)) =~= q);
}

/// A push outside a running block keeps exactly the entries up to the cursor,
/// appends the new value, and leaves the cursor on it.
pub proof fn lemma_push_truncates<T>(q: QueueModel<T>, v: T)
    requires
        q.wf(),
        q.mode != Mode::InBlock,
    ensures
        spec_push(q, v).wf(),
        spec_push(q, v).entries.len() == q.cursor + 2,
        spec_push(q, v).cursor == q.cursor + 1,
        spec_push(q, v).current() == v,
        forall|i: int| 0 <= i <= q.cursor ==> spec_push(q, v).entries[i] == q.entries[i],
        spec_redo(spec_push(q, v)) == spec_push(q, v),
{
    assert(spec_redo(spec_push(q, v)) =~= spec_push(q, v));
}

/// History monotonic truncation: after undo() then push(v), the entries
/// beyond the old cursor are discarded for good — a redo right after is a
/// no-op, so the abandoned branch cannot be reached again.
pub proof fn lemma_undo_push_discards_redo<T>(q: QueueModel<T>, v: T)
    requires
        q.wf(),
        q.mode != Mode::InBlock,
    ensures
        spec_push(spec_undo(q), v).entries.len() <= q.cursor + 2,
        spec_redo(spec_push(spec_undo(q), v)) == spec_push(spec_undo(q), v),
{
    lemma_cursor_clamping(q);
    lemma_push_truncates(spec_undo(q), v);
}

/// Block coalescing: a bracketed block of three pushes costs a single undo
/// step — undoing right after the block lands on the entry that was current
/// before the block, not on an intermediate push.
pub proof fn lemma_block_coalescing<T>(q: QueueModel<T>, a: T, b: T, c: T)
    requires
        q.wf(),
    ensures
        ({
            let qb = spec_close_block(spec_push(spec_push(spec_push(spec_start_block(q), a), b), c));
            &&& qb.wf()
            &&& qb.current() == c
            &&& spec_undo(qb).current() == q.current()
        }),
{
}

/// Linear undo/redo history with block coalescing: an ordered sequence of
/// entries, a cursor marking the current one, and a coalescing mode.
pub struct UndoQueue<T: Clone> {
    queue: Vec<T>,
    index: usize,
    mode: Mode,
}

impl<T: Clone> View for UndoQueue<T> {
    type V = QueueModel<T>;

    closed spec fn view(&self) -> QueueModel<T> {
        QueueModel { entries: self.queue@, cursor: self.index as int, mode: self.mode }
    }
}

impl<T: Clone> UndoQueue<T> {
    /// The manager is in a valid state.
    pub open spec fn wf(self) -> bool {
        self@.wf()
    }

    /// A history holding just the initial entry.
    pub fn new(t: T) -> (q: UndoQueue<T>)
        ensures
            q.wf(),
            q@ == spec_new_queue(t),
    {
        let q = UndoQueue { queue: vec![t], index: 0, mode: Mode::Normal };
        proof {
            assert(q@ =~= spec_new_queue(t));
        }
        q
    }

    /// An independent copy of the current entry.
    pub fn current(&self) -> (t: T)
        requires
            self.wf(),
        ensures
            cloned::<T>(self@.current(), t),
    {
        self.queue[self.index].clone()
    }

    /// Records a new state, following the push transition of the current mode.
    pub fn push(&mut self, t: T)
        requires
            old(self).wf(),
        ensures
            final(self).wf(),
            final(self)@ == spec_push(old(self)@, t),
    {
        let len: usize = self.queue.len();
        proof {
            assert(self.index < len);
        }
        match self.mode {
            Mode::Normal => {
                self.queue.truncate(self.index + 1);
                self.queue.push(t);
                self.index = self.index + 1;
            },
            Mode::StartBlock => {
                self.queue.truncate(self.index + 1);
                self.queue.push(t);
                self.index = self.index + 1;
                self.mode = Mode::InBlock;
            },
            Mode::InBlock => {
                self.queue[self.index] = t;
            },
        }
        proof {
            assert(self@ =~= spec_push(old(self)@, t));
        }
    }

    /// Steps the cursor back one entry, clamped at the initial entry.
    pub fn undo(&mut self)
        requires
            old(self).wf(),
        ensures
            final(self).wf(),
            final(self)@ == spec_undo(old(self)@),
    {
        if self.index >= 1 {
            self.index = self.index - 1;
        }
    }

    /// Steps the cursor forward one entry, clamped at the newest entry.
    pub fn redo(&mut self)
        requires
            old(self).wf(),
        ensures
            final(self).wf(),
            final(self)@ == spec_redo(old(self)@),
    {
        if self.index < self.queue.len() - 1 {
            self.index = self.index + 1;
        }
    }

    /// Arms block coalescing: the next push opens a block.
    pub fn start_undo_block(&mut self)
        requires
            old(self).wf(),
        ensures
            final(self).wf(),
            final(self)@ == spec_start_block(old(self)@),
    {
        self.mode = Mode::StartBlock;
    }

    /// Ends block coalescing: pushes stand on their own again.
    pub fn close_undo_block(&mut self)
        requires
            old(self).wf(),
        ensures
            final(self).wf(),
            final(self)@ == spec_close_block(old(self)@),
    {
        self.mode = Mode::Normal;
    }
}

} // verus!
