//! The session's history laws, stated and proved over the contracts of
//! [`crate::session::GameSession`]'s operations.
//!
//! The shape of the state — how many snapshots, how many history entries,
//! and where the cursor stands — evolves by [`shape_step`]. Each bridge
//! lemma shows that an operation's contract realizes one step; the laws are
//! then proved over runs of steps.

use vstd::prelude::*;

use crate::oracle::{after_of, legal_of};
use crate::session::GameSession;
use crate::types::{Move, Side};

verus! {

/// One history operation, as it affects the shape of the state.
pub enum HistoryOp {
    /// A committed move (a played ply).
    Commit,
    /// An undo removing `plies` plies (a no-op where that many were not
    /// played).
    Rewind { plies: int },
    /// A successful redo restoring `plies` plies.
    Advance { plies: int },
}

/// The shape of a session's history state.
pub struct LogShape {
    pub snaps: int,
    pub entries: int,
    pub cursor: int,
}

/// The shape of a session.
pub open spec fn shape_of(s: GameSession) -> LogShape {
    LogShape { snaps: s.snaps().len() as int, entries: s.hist().len() as int, cursor: s.cur() }
}

/// The shape of a fresh session: one snapshot, no entries, cursor at the
/// start.
pub open spec fn initial_shape() -> LogShape {
    LogShape { snaps: 1, entries: 0, cursor: 0 }
}

/// How one operation changes the shape: a commit truncates the snapshots to
/// the cursor and appends one, appends one entry, and advances the cursor; a
/// rewind moves the cursor back and pops as many entries as exist, keeping
/// all snapshots, and does nothing when it would pass the start; an advance
/// only moves the cursor forward.
pub open spec fn shape_step(l: LogShape, op: HistoryOp) -> LogShape {
    match op {
        HistoryOp::Commit => LogShape {
            snaps: l.cursor + 2,
            entries: l.entries + 1,
            cursor: l.cursor + 1,
        },
        HistoryOp::Rewind { plies } => if plies <= l.cursor {
            LogShape {
                snaps: l.snaps,
                entries: if l.entries - plies >= 0 {
                    l.entries - plies
                } else {
                    0
                },
                cursor: l.cursor - plies,
            }
        } else {
            l
        },
        HistoryOp::Advance { plies } => LogShape {
            snaps: l.snaps,
            entries: l.entries,
            cursor: l.cursor + plies,
        },
    }
}

/// The shape after a run of operations.
pub open spec fn shape_run(l: LogShape, ops: Seq<HistoryOp>) -> LogShape
    decreases ops.len(),
{
    if ops.len() == 0 {
        l
    } else {
        shape_run(shape_step(l, ops[0]), ops.drop_first())
    }
}

/// Rewinds and advances always move the cursor by at least one ply.
pub open spec fn valid_op(op: HistoryOp) -> bool {
    match op {
        HistoryOp::Commit => true,
        HistoryOp::Rewind { plies } => 1 <= plies,
        HistoryOp::Advance { plies } => 1 <= plies,
    }
}

/// No operation in the run is a redo.
pub open spec fn redo_free(ops: Seq<HistoryOp>) -> bool {
    forall|i: int| 0 <= i < ops.len() ==> !((#[trigger] ops[i]) is Advance)
}

/// A committed move realizes one `Commit` step of the shape.
pub proof fn lemma_commit_shape(prev: GameSession, next: GameSession, m: Move, by_engine: bool)
    requires
        prev.wf(),
        next.committed(prev, m, by_engine),
    ensures
        shape_of(next) == shape_step(shape_of(prev), HistoryOp::Commit),
{
    assert(next.snaps().len() == prev.cur() + 2);
}

/// A successful undo realizes one `Rewind` step of the shape, by the undo
/// count the turn dictates.
pub proof fn lemma_rewind_shape(prev: GameSession, next: GameSession)
    requires
        prev.wf(),
        prev.spec_undo_count() <= prev.cur(),
        next.rewound(prev),
    ensures
        shape_of(next) == shape_step(
            shape_of(prev),
            HistoryOp::Rewind { plies: prev.spec_undo_count() },
        ),
{
}

/// A successful redo realizes one `Advance` step of the shape, by the redo
/// count the turn dictates.
pub proof fn lemma_advance_shape(prev: GameSession, next: GameSession)
    requires
        prev.wf(),
        prev.cur() < prev.snaps().len() - 1,
        next.advanced(prev),
    ensures
        shape_of(next) == shape_step(
            shape_of(prev),
            HistoryOp::Advance { plies: prev.spec_redo_count() },
        ),
{
}

/// Invariant carried through redo-free runs: the entry count equals the
/// cursor, and the cursor stays within the snapshot log; when the last
/// operation is a commit, the cursor is moreover at the latest snapshot.
proof fn lemma_balanced_run(l: LogShape, ops: Seq<HistoryOp>)
    requires
        l.entries == l.cursor,
        0 <= l.cursor < l.snaps,
        redo_free(ops),
        forall|i: int| 0 <= i < ops.len() ==> valid_op(#[trigger] ops[i]),
    ensures
        ({
            let r = shape_run(l, ops);
            &&& r.entries == r.cursor
            &&& 0 <= r.cursor < r.snaps
            &&& ops.len() > 0 && ops.last() is Commit ==> r.snaps == r.cursor + 1
        }),
    decreases ops.len(),
{
    if ops.len() > 0 {
        let l1 = shape_step(l, ops[0]);
        assert(!(ops[0] is Advance));
        assert(valid_op(ops[0]));
        assert(l1.entries == l1.cursor && 0 <= l1.cursor < l1.snaps);
        if ops.len() == 1 {
            assert(ops.drop_first().len() == 0);
            assert(shape_run(l1, ops.drop_first()) == l1);
            assert(shape_run(l, ops) == l1);
        } else {
            lemma_balanced_run(l1, ops.drop_first());
            assert(ops.drop_first().last() == ops.last());
        }
    }
}

/// Law: in a fresh session and after any redo-free run of history
/// operations that ends with a committed move, the snapshot log is exactly
/// one entry longer than the history list. A redo breaks the balance — it
/// restores positions without reconstructing their history entries — and a
/// trailing undo leaves the snapshots it retained for redo uncounted.
pub proof fn lemma_snapshot_history_balance(ops: Seq<HistoryOp>)
    requires
        redo_free(ops),
        forall|i: int| 0 <= i < ops.len() ==> valid_op(#[trigger] ops[i]),
        ops.len() == 0 || ops.last() is Commit,
    ensures
        ({
            let r = shape_run(initial_shape(), ops);
            r.snaps == r.entries + 1
        }),
{
    lemma_balanced_run(initial_shape(), ops);
}

/// Law: undo removes exactly one ply when it is the engine's turn and
/// exactly two when it is the human's (the engine has already replied), and
/// either way it leaves the human's side to move.
pub proof fn lemma_undo_count_policy(prev: GameSession, next: GameSession)
    requires
        prev.wf(),
        prev.spec_undo_count() <= prev.cur(),
        next.rewound(prev),
    ensures
        prev.side_at(prev.cur()) == prev.human_side() ==> next.cur() == prev.cur() - 2,
        prev.side_at(prev.cur()) != prev.human_side() ==> next.cur() == prev.cur() - 1,
        next.side_at(next.cur()) == next.human_side(),
{
    let c = prev.cur();
    if prev.side_at(c) == prev.human_side() {
        assert((c - 2) % 2 == c % 2) by {
            assert(c == (c - 2) + 2);
        }
    } else {
        assert((c - 1) % 2 == (c + 1) % 2) by {
            assert(c - 1 == (c + 1) - 2);
        }
        match prev.side_at(c) {
            Side::White => {
                assert(prev.human_side() == Side::Black);
            },
            Side::Black => {
                assert(prev.human_side() == Side::White);
            },
        }
    }
}

/// Law: an undo followed immediately by a redo restores the cursor, and
/// with it the current position, since neither operation touches the
/// snapshot log. This holds whenever the undo succeeds and is taken either
/// on the human's turn or from the latest snapshot; an undo of a single ply
/// taken strictly inside the log can be over-advanced by the redo count
/// policy.
pub proof fn lemma_undo_then_redo(s0: GameSession, s1: GameSession, s2: GameSession)
    requires
        s0.wf(),
        s1.wf(),
        s0.spec_undo_count() <= s0.cur(),
        s1.rewound(s0),
        s2.advanced(s1),
        s0.side_at(s0.cur()) == s0.human_side() || s0.cur() == s0.snaps().len() - 1,
    ensures
        s2.cur() == s0.cur(),
        s2.snaps() == s0.snaps(),
        s2.current() == s0.current(),
{
    let c = s0.cur();
    if s0.side_at(c) == s0.human_side() {
        // Two plies were undone; the turn parity at the rewound cursor is
        // unchanged, so the redo policy advances two plies again.
        assert((c - 2) % 2 == c % 2) by {
            assert(c == (c - 2) + 2);
        }
        assert(s1.side_at(s1.cur()) == s1.human_side());
        assert(s1.cur() + 2 < s1.snaps().len());
        assert(s1.spec_redo_count() == 2);
    } else {
        // One ply was undone from the latest snapshot; only one snapshot
        // lies ahead, so the redo policy advances one ply.
        assert(c == s0.snaps().len() - 1);
        assert(s1.cur() == c - 1);
        assert(!(s1.cur() + 2 < s1.snaps().len()));
        assert(s1.spec_redo_count() == 1);
    }
}

/// Law: a committed move discards exactly the snapshots beyond the cursor —
/// the positions a redo could have restored — keeps every snapshot up to it,
/// and leaves the cursor at the new latest snapshot, where a redo fails.
pub proof fn lemma_commit_discards_branch(
    prev: GameSession,
    next: GameSession,
    m: Move,
    by_engine: bool,
)
    requires
        prev.wf(),
        next.committed(prev, m, by_engine),
    ensures
        next.snaps().len() == prev.cur() + 2,
        forall|i: int| 0 <= i <= prev.cur() ==> next.snaps()[i] == prev.snaps()[i],
        next.cur() == next.snaps().len() - 1,
{
}


/// The history entries describe exactly the plies that produced the
/// position under the cursor from the starting snapshot: entry `i` carries
/// a move legal in snapshot `i` that yields snapshot `i + 1`, and the
/// cursor sits at the end of the described prefix.
pub open spec fn coherent(s: GameSession) -> bool {
    &&& s.hist().len() == s.cur()
    &&& forall|i: int|
        0 <= i < s.hist().len() ==> legal_of(s.snaps()[i]).contains((#[trigger] s.hist()[i]).mv)
            && s.snaps()[i + 1] == after_of(s.snaps()[i], s.hist()[i].mv)
}

/// A fresh session is coherent, and has the initial shape, so the laws over
/// runs apply from it.
pub proof fn lemma_new_session(s: GameSession)
    requires
        s.snaps().len() == 1,
        s.hist().len() == 0,
        s.cur() == 0,
    ensures
        coherent(s),
        shape_of(s) == initial_shape(),
{
}

/// Law: committing a legal move preserves coherence — the new entry
/// describes exactly the ply from the old current position to the new one.
pub proof fn lemma_commit_preserves_coherence(
    prev: GameSession,
    next: GameSession,
    m: Move,
    by_engine: bool,
)
    requires
        prev.wf(),
        coherent(prev),
        legal_of(prev.current()).contains(m),
        next.committed(prev, m, by_engine),
    ensures
        coherent(next),
{
    assert forall|i: int|
        0 <= i < next.hist().len() implies legal_of(next.snaps()[i]).contains(
        (#[trigger] next.hist()[i]).mv,
    ) && next.snaps()[i + 1] == after_of(next.snaps()[i], next.hist()[i].mv) by {
        if i < prev.hist().len() {
            assert(next.hist()[i] == prev.hist()[i]);
            assert(next.snaps()[i] == prev.snaps()[i]);
            assert(next.snaps()[i + 1] == prev.snaps()[i + 1]);
        } else {
            assert(next.hist()[i] == next.hist().last());
            assert(next.snaps()[i] == prev.snaps()[i]);
            assert(next.snaps()[i + 1] == after_of(prev.current(), m));
        }
    }
}

/// Law: a successful undo preserves coherence — the surviving entries still
/// describe the plies up to the rewound cursor, since snapshots are kept.
pub proof fn lemma_undo_preserves_coherence(prev: GameSession, next: GameSession)
    requires
        prev.wf(),
        coherent(prev),
        prev.spec_undo_count() <= prev.cur(),
        next.rewound(prev),
    ensures
        coherent(next),
{
    assert(next.hist().len() == next.cur());
}

} // verus!
