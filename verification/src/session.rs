//! The game session: a log of position snapshots, the move history, and a
//! cursor, driven by committed moves, undo and redo.
//!
//! The shape of the state is pinned by `wf`: the cursor always points into
//! the snapshot log, the history never outruns the cursor, and the side to
//! move alternates ply over ply from the starting side. Committing a move
//! while the cursor is behind the latest snapshot discards the abandoned
//! branch of snapshots first; history entries past the cursor never exist,
//! because undo pops them as the cursor retreats. Redo advances the cursor
//! over retained snapshots without reconstructing history entries for them,
//! so after a redo the history list is shorter than the cursor.

use vstd::prelude::*;

use crate::notation::{describe_chars, san_at, san_of_line};
use crate::oracle::{after_of, board_apply, board_fen, board_legal_moves, board_side, board_status,
    color_at, fen_of, legal_of, piece_at, side_of, status_of};
use crate::parse::{parse_move_spec, usize_text};
use crate::text::dec_spec;
use crate::types::{BoardState, GameOutcome, HistoryError, Move, MoveError, Phase, Side};

verus! {

/// One committed ply: the move, which side made it, and the description
/// shown when it was played.
#[derive(Debug)]
pub struct HistoryEntry {
    pub mv: Move,
    pub mover: Side,
    pub description: String,
}

/// The descriptive line recorded with a committed move: the mover's color
/// name, who controlled it, and the move description.
pub open spec fn entry_text(mover: Side, by_engine: bool, desc: Seq<char>) -> Seq<char> {
    (if mover == Side::White {
        "White"@
    } else {
        "Black"@
    }) + (if by_engine {
        " (Computer): "@
    } else {
        " (You): "@
    }) + desc
}

/// A session over a starting position: snapshots of every position reached,
/// one history entry per committed ply, and the cursor of the position
/// currently played from.
pub struct GameSession {
    snapshots: Vec<chess::Board>,
    history: Vec<HistoryEntry>,
    cursor: usize,
    human: Side,
    start_side: Side,
}

impl GameSession {
    /// The snapshot log; index `i` holds the position after `i` plies.
    pub closed spec fn snaps(self) -> Seq<chess::Board> {
        self.snapshots@
    }

    /// The history entries of the committed plies.
    pub closed spec fn hist(self) -> Seq<HistoryEntry> {
        self.history@
    }

    /// The cursor: the snapshot index of the current position.
    pub closed spec fn cur(self) -> int {
        self.cursor as int
    }

    /// The color the human player was assigned.
    pub closed spec fn human_side(self) -> Side {
        self.human
    }

    /// The side to move in the starting position.
    pub closed spec fn start(self) -> Side {
        self.start_side
    }

    /// The side to move after `i` plies: strict alternation from the start.
    pub open spec fn side_at(self, i: int) -> Side {
        if i % 2 == 0 {
            self.start()
        } else {
            self.start().spec_flip()
        }
    }

    /// The position the session currently plays from.
    pub open spec fn current(self) -> chess::Board {
        self.snaps()[self.cur()]
    }

    /// Well-formedness: the cursor points into the snapshot log, history
    /// never outruns the cursor, and the oracle-reported side to move of
    /// every snapshot alternates from the starting side.
    pub open spec fn wf(self) -> bool {
        &&& 1 <= self.snaps().len()
        &&& 0 <= self.cur() < self.snaps().len()
        &&& self.hist().len() <= self.cur()
        &&& forall|i: int|
            0 <= i < self.snaps().len() ==> side_of(#[trigger] self.snaps()[i]) == self.side_at(i)
    }

    /// How many plies one undo removes: two on the human's turn (the engine
    /// replied since the human last moved), one on the engine's turn.
    pub open spec fn spec_undo_count(self) -> int {
        if self.side_at(self.cur()) == self.human_side() {
            2
        } else {
            1
        }
    }

    /// How many plies one redo restores: two on the human's turn when two
    /// snapshots remain ahead, otherwise one.
    pub open spec fn spec_redo_count(self) -> int {
        if self.cur() + 2 < self.snaps().len() && self.side_at(self.cur()) == self.human_side() {
            2
        } else {
            1
        }
    }

    /// Start a session: one snapshot (the initial position), no history,
    /// cursor at the start.
    pub fn new(initial: chess::Board, human: Side) -> (s: GameSession)
        ensures
            s.wf(),
            s.snaps() == seq![initial],
            s.hist() == Seq::<HistoryEntry>::empty(),
            s.cur() == 0,
            s.human_side() == human,
            s.start() == side_of(initial),
    {
        let start_side = board_side(&initial);
        let s = GameSession {
            snapshots: vec![initial],
            history: Vec::new(),
            cursor: 0,
            human,
            start_side,
        };
        proof {
            assert(s.snaps() =~= seq![initial]);
            assert(s.hist() =~= Seq::<HistoryEntry>::empty());
        }
        s
    }

    /// The position the session currently plays from.
    pub fn current_board(&self) -> (b: &chess::Board)
        requires
            self.wf(),
        ensures
            *b == self.current(),
    {
        &self.snapshots[self.cursor]
    }

    /// The side to move, as the oracle reports it of the current position;
    /// by the alternation invariant it equals the parity-computed side.
    pub fn side_to_move(&self) -> (s: Side)
        requires
            self.wf(),
        ensures
            s == side_of(self.current()),
            s == self.side_at(self.cur()),
    {
        board_side(&self.snapshots[self.cursor])
    }

    /// Whose turn the session is in, or how the game ended: checkmate is
    /// against the side to move, stalemate is a draw, and an ongoing game
    /// belongs to whichever agent owns the side to move.
    pub open spec fn spec_phase(self) -> Phase {
        match status_of(self.current()) {
            BoardState::Checkmate => Phase::Over(
                if side_of(self.current()) == Side::White {
                    GameOutcome::BlackCheckmates
                } else {
                    GameOutcome::WhiteCheckmates
                },
            ),
            BoardState::Stalemate => Phase::Over(GameOutcome::Stalemate),
            BoardState::Ongoing => if side_of(self.current()) == self.human_side() {
                Phase::HumanTurn
            } else {
                Phase::EngineTurn
            },
        }
    }

    /// Ask the oracle where the session stands: finished, the human's turn,
    /// or the engine's turn.
    pub fn phase(&self) -> (p: Phase)
        requires
            self.wf(),
        ensures
            p == self.spec_phase(),
    {
        let b = &self.snapshots[self.cursor];
        match board_status(b) {
            BoardState::Checkmate => {
                let mated = board_side(b);
                if mated == Side::White {
                    Phase::Over(GameOutcome::BlackCheckmates)
                } else {
                    Phase::Over(GameOutcome::WhiteCheckmates)
                }
            },
            BoardState::Stalemate => Phase::Over(GameOutcome::Stalemate),
            BoardState::Ongoing => {
                if board_side(b) == self.human {
                    Phase::HumanTurn
                } else {
                    Phase::EngineTurn
                }
            },
        }
    }

    /// Commit a legal move: discard any snapshots beyond the cursor (the
    /// branch abandoned by earlier undos), append the new position and the
    /// history entry, and advance the cursor. History entries beyond the
    /// cursor never exist, so only snapshots need discarding.
    fn commit(&mut self, m: Move, description: String, next: chess::Board)
        requires
            old(self).wf(),
            legal_of(old(self).current()).contains(m),
            next == after_of(old(self).current(), m),
            side_of(next) == side_of(old(self).current()).spec_flip(),
        ensures
            final(self).wf(),
            final(self).snaps() == old(self).snaps().take(old(self).cur() + 1).push(next),
            final(self).hist().len() == old(self).hist().len() + 1,
            final(self).hist().take(old(self).hist().len() as int) == old(self).hist(),
            final(self).hist().last().mv == m,
            final(self).hist().last().mover == old(self).side_at(old(self).cur()),
            final(self).hist().last().description@ == description@,
            final(self).cur() == old(self).cur() + 1,
            final(self).cur() == final(self).snaps().len() - 1,
            final(self).human_side() == old(self).human_side(),
            final(self).start() == old(self).start(),
    {
        let ghost old_s = *self;
        let mover = if self.cursor % 2 == 0 {
            self.start_side
        } else {
            self.start_side.flip()
        };
        let n = self.snapshots.len();
        assert(self.cursor < n);
        self.snapshots.truncate(self.cursor + 1);
        self.snapshots.push(next);
        self.history.push(HistoryEntry { mv: m, mover, description });
        self.cursor = self.cursor + 1;
        proof {
            assert(self.snaps() =~= old_s.snaps().take(old_s.cur() + 1).push(next));
            assert(self.hist().take(old_s.hist().len() as int) =~= old_s.hist());
            assert forall|i: int| 0 <= i < self.snaps().len() implies side_of(
                #[trigger] self.snaps()[i],
            ) == self.side_at(i) by {
                if i < self.snaps().len() - 1 {
                    assert(self.snaps()[i] == old_s.snaps()[i]);
                } else {
                    assert(self.snaps()[i] == next);
                    assert(side_of(next) == old_s.side_at(old_s.cur()).spec_flip());
                }
            }
        }
    }

    /// Play a line of input as a move of the current position: parse it,
    /// reject it unless the oracle lists it as legal, then describe and
    /// commit it. On any error the session is untouched.
    pub fn submit_move_text(&mut self, input: &str) -> (r: Result<Move, MoveError>)
        requires
            old(self).wf(),
        ensures
            final(self).wf(),
            match parse_move_spec(input@) {
                Err(e) => r == Err::<Move, MoveError>(MoveError::Format(e)) && *final(self) == *old(self),
                Ok(m) => {
                    if legal_of(old(self).current()).contains(m) {
                        &&& r == Ok::<Move, MoveError>(m)
                        &&& final(self).committed(*old(self), m, false)
                    } else {
                        &&& r == Err::<Move, MoveError>(MoveError::Illegal)
                        &&& *final(self) == *old(self)
                    }
                },
            },
    {
        let m = match crate::parse::parse_move_text(input) {
            Ok(m) => m,
            Err(e) => {
                return Err(MoveError::Format(e));
            },
        };
        match self.play_checked(m, false) {
            Ok(()) => Ok(m),
            Err(e) => Err(e),
        }
    }

    /// Commit a move the engine chose. The adapter never checks legality,
    /// so the session does: an illegal engine move is rejected and the
    /// session is untouched.
    pub fn submit_engine_move(&mut self, m: Move) -> (r: Result<(), MoveError>)
        requires
            old(self).wf(),
        ensures
            final(self).wf(),
            if legal_of(old(self).current()).contains(m) {
                r == Ok::<(), MoveError>(()) && final(self).committed(*old(self), m, true)
            } else {
                r == Err::<(), MoveError>(MoveError::Illegal) && *final(self) == *old(self)
            },
    {
        self.play_checked(m, true)
    }

    /// The state is the result of committing `m` in `prev`, with the entry
    /// labeled for the human or the engine.
    pub open spec fn committed(self, prev: GameSession, m: Move, by_engine: bool) -> bool {
        &&& self.snaps() == prev.snaps().take(prev.cur() + 1).push(after_of(prev.current(), m))
        &&& self.hist().len() == prev.hist().len() + 1
        &&& self.hist().take(prev.hist().len() as int) == prev.hist()
        &&& self.hist().last().mv == m
        &&& self.hist().last().mover == prev.side_at(prev.cur())
        &&& self.hist().last().description@ == entry_text(
            prev.side_at(prev.cur()),
            by_engine,
            describe_chars(
                piece_at(prev.current(), m.from),
                color_at(prev.current(), m.from),
                piece_at(prev.current(), m.to),
                m,
            ),
        )
        &&& self.cur() == prev.cur() + 1
        &&& self.cur() == self.snaps().len() - 1
        &&& self.human_side() == prev.human_side()
        &&& self.start() == prev.start()
    }

    /// Check a move against the oracle's legal-move set and commit it with
    /// its description.
    fn play_checked(&mut self, m: Move, by_engine: bool) -> (r: Result<(), MoveError>)
        requires
            old(self).wf(),
        ensures
            final(self).wf(),
            if legal_of(old(self).current()).contains(m) {
                r == Ok::<(), MoveError>(()) && final(self).committed(*old(self), m, by_engine)
            } else {
                r == Err::<(), MoveError>(MoveError::Illegal) && *final(self) == *old(self)
            },
    {
        if !crate::notation::move_is_legal(&self.snapshots[self.cursor], &m) {
            return Err(MoveError::Illegal);
        }
        let b = &self.snapshots[self.cursor];
        let desc = crate::notation::describe_move(b, &m);
        let mover = board_side(b);
        let mut text = String::new();
        text.append(if mover == Side::White {
            "White"
        } else {
            "Black"
        });
        text.append(if by_engine {
            " (Computer): "
        } else {
            " (You): "
        });
        text.append(desc.as_str());
        let next = board_apply(b, &m);
        proof {
            assert(text@ =~= entry_text(
                side_of(old(self).current()),
                by_engine,
                describe_chars(
                    piece_at(old(self).current(), m.from),
                    color_at(old(self).current(), m.from),
                    piece_at(old(self).current(), m.to),
                    m,
                ),
            ));
        }
        self.commit(m, text, next);
        Ok(())
    }

    /// The state is the result of one successful undo from `prev`: the
    /// cursor retreats by the undo count, the snapshots are all kept, and
    /// the popped entries leave the history tail.
    pub open spec fn rewound(self, prev: GameSession) -> bool {
        let count = prev.spec_undo_count();
        let h = prev.hist().len() as int;
        let popped = if count <= h {
            count
        } else {
            h
        };
        &&& self.cur() == prev.cur() - count
        &&& self.snaps() == prev.snaps()
        &&& self.hist() == prev.hist().take(h - popped)
        &&& self.human_side() == prev.human_side()
        &&& self.start() == prev.start()
    }

    /// The state is the result of one successful redo from `prev`: the
    /// cursor advances by the redo count over kept snapshots, and the
    /// history is untouched.
    pub open spec fn advanced(self, prev: GameSession) -> bool {
        &&& self.cur() == prev.cur() + prev.spec_redo_count()
        &&& self.snaps() == prev.snaps()
        &&& self.hist() == prev.hist()
        &&& self.human_side() == prev.human_side()
        &&& self.start() == prev.start()
    }

    /// Rewind history: one ply on the engine's turn, two on the human's, so
    /// that control returns to the human for the same turn. Snapshots are
    /// kept for redo; the popped history entries are returned, newest first.
    /// Fails without changing anything if that many plies were not played.
    pub fn undo(&mut self) -> (r: Result<Vec<HistoryEntry>, HistoryError>)
        requires
            old(self).wf(),
        ensures
            final(self).wf(),
            ({
                let count = old(self).spec_undo_count();
                let h = old(self).hist().len() as int;
                let popped = if count <= h {
                    count
                } else {
                    h
                };
                if count <= old(self).cur() {
                    &&& r is Ok
                    &&& final(self).rewound(*old(self))
                    &&& r->Ok_0@.len() == popped
                    &&& forall|j: int|
                        0 <= j < popped ==> #[trigger] r->Ok_0@[j] == old(self).hist()[h - 1 - j]
                } else {
                    r == Err::<Vec<HistoryEntry>, HistoryError>(HistoryError::PastBeginning)
                        && *final(self) == *old(self)
                }
            }),
    {
        let side = board_side(&self.snapshots[self.cursor]);
        let count: usize = if side == self.human {
            2
        } else {
            1
        };
        if count > self.cursor {
            return Err(HistoryError::PastBeginning);
        }
        let ghost old_s = *self;
        self.cursor = self.cursor - count;
        let mut popped: Vec<HistoryEntry> = Vec::new();
        if self.history.len() > 0 {
            let e = self.history.pop().unwrap();
            popped.push(e);
        }
        if count == 2 && self.history.len() > 0 {
            let e = self.history.pop().unwrap();
            popped.push(e);
        }
        proof {
            let h = old_s.hist().len() as int;
            let p = if old_s.spec_undo_count() <= h {
                old_s.spec_undo_count()
            } else {
                h
            };
            assert(self.hist() =~= old_s.hist().take(h - p));
        }
        Ok(popped)
    }

    /// Advance history toward the latest snapshot: two plies on the human's
    /// turn when two are ahead, otherwise one. History entries are not
    /// reconstructed for the restored plies. Fails without changing anything
    /// when already at the latest snapshot.
    pub fn redo(&mut self) -> (r: Result<usize, HistoryError>)
        requires
            old(self).wf(),
        ensures
            final(self).wf(),
            if old(self).cur() == old(self).snaps().len() - 1 {
                r == Err::<usize, HistoryError>(HistoryError::AtLatest) && *final(self) == *old(self)
            } else {
                r == Ok::<usize, HistoryError>(old(self).spec_redo_count() as usize)
                    && final(self).advanced(*old(self))
            },
    {
        if self.cursor >= self.snapshots.len() - 1 {
            return Err(HistoryError::AtLatest);
        }
        let side = board_side(&self.snapshots[self.cursor]);
        let count: usize = if self.cursor + 2 < self.snapshots.len() && side == self.human {
            2
        } else {
            1
        };
        self.cursor = self.cursor + count;
        Ok(count)
    }

    /// The moves of the history entries, in order.
    fn history_moves(&self) -> (r: Vec<Move>)
        ensures
            r@ == self.hist().map_values(|e: HistoryEntry| e.mv),
    {
        let ghost target = self.hist().map_values(|e: HistoryEntry| e.mv);
        let mut out: Vec<Move> = Vec::new();
        let n = self.history.len();
        let mut i: usize = 0;
        while i < n
            invariant
                i <= n,
                n == self.hist().len(),
                target == self.hist().map_values(|e: HistoryEntry| e.mv),
                out@ =~= target.take(i as int),
            decreases n - i,
        {
            out.push(self.history[i].mv);
            i = i + 1;
            proof {
                assert(out@ =~= target.take(i as int));
            }
        }
        proof {
            assert(target.take(n as int) =~= target);
        }
        out
    }

    /// Render history move `index` in algebraic notation, replaying the
    /// moves before it from the starting snapshot as the renderer does.
    pub fn to_algebraic_notation(&self, index: usize) -> (r: String)
        requires
            self.wf(),
            index < self.hist().len(),
        ensures
            r@ == san_at(
                self.snaps()[0],
                self.hist().map_values(|e: HistoryEntry| e.mv),
                index as int,
            ),
    {
        let moves = self.history_moves();
        san_of_line(&self.snapshots[0], &moves, index)
    }

    /// The history listing: numbered algebraic notation, one full move per
    /// line, then the detailed coordinate descriptions.
    pub open spec fn history_listing(self) -> Seq<char> {
        let n = self.hist().len() as int;
        let moves = self.hist().map_values(|e: HistoryEntry| e.mv);
        if n == 0 {
            "No moves played yet."@
        } else {
            "=== Move History (Algebraic Notation) ===\n"@ + history_lines(
                self.snaps()[0],
                moves,
                n,
            ) + (if n % 2 == 1 {
                "\n"@
            } else {
                Seq::empty()
            }) + "\nDetailed coordinate history:\n"@ + detail_lines(self.hist(), n)
                + "==========================================\n"@
        }
    }

    /// Render the move history as the `history` command shows it.
    pub fn history_text(&self) -> (r: String)
        requires
            self.wf(),
        ensures
            r@ == self.history_listing(),
    {
        let n = self.history.len();
        if n == 0 {
            let mut out = String::new();
            out.append("No moves played yet.");
            proof {
                assert(out@ =~= self.history_listing());
            }
            return out;
        }
        let ghost b0 = self.snaps()[0];
        let ghost moves = self.hist().map_values(|e: HistoryEntry| e.mv);
        let mut out = String::new();
        out.append("=== Move History (Algebraic Notation) ===\n");
        let mut i: usize = 0;
        while i < n
            invariant
                i <= n,
                self.wf(),
                n == self.hist().len(),
                b0 == self.snaps()[0],
                moves == self.hist().map_values(|e: HistoryEntry| e.mv),
                out@ =~= "=== Move History (Algebraic Notation) ===\n"@ + history_lines(
                    b0,
                    moves,
                    i as int,
                ),
            decreases n - i,
        {
            let san = self.to_algebraic_notation(i);
            if i % 2 == 0 {
                let number = usize_text(i / 2 + 1);
                out.append(number.as_str());
                out.append(". ");
                out.append(san.as_str());
                out.append(" ");
            } else {
                out.append(san.as_str());
                out.append("\n");
            }
            i = i + 1;
            proof {
                assert(out@ =~= "=== Move History (Algebraic Notation) ===\n"@ + history_lines(
                    b0,
                    moves,
                    i as int,
                ));
            }
        }
        if n % 2 == 1 {
            out.append("\n");
        }
        out.append("\nDetailed coordinate history:\n");
        let ghost mid = out@;
        let mut j: usize = 0;
        while j < n
            invariant
                j <= n,
                self.wf(),
                n == self.hist().len(),
                out@ =~= mid + detail_lines(self.hist(), j as int),
            decreases n - j,
        {
            let number = usize_text(j + 1);
            out.append(number.as_str());
            out.append(". ");
            out.append(self.history[j].description.as_str());
            out.append("\n");
            j = j + 1;
            proof {
                assert(out@ =~= mid + detail_lines(self.hist(), j as int));
            }
        }
        out.append("==========================================\n");
        proof {
            assert(out@ =~= self.history_listing());
        }
        out
    }

    /// The legal moves of the current position, as the oracle enumerates
    /// them.
    pub fn legal_moves(&self) -> (r: Vec<Move>)
        requires
            self.wf(),
        ensures
            forall|m: Move| #[trigger] r@.contains(m) <==> legal_of(self.current()).contains(m),
            forall|i: int| 0 <= i < r@.len() ==> (#[trigger] r@[i]).wf(),
    {
        board_legal_moves(&self.snapshots[self.cursor])
    }

    /// The current position's serialized (FEN) text.
    pub fn fen_text(&self) -> (r: String)
        requires
            self.wf(),
        ensures
            r@ == fen_of(self.current()),
    {
        board_fen(&self.snapshots[self.cursor])
    }

    /// How many snapshots the log holds.
    pub fn snapshot_count(&self) -> (n: usize)
        ensures
            n == self.snaps().len(),
    {
        self.snapshots.len()
    }

    /// How many history entries are recorded.
    pub fn history_count(&self) -> (n: usize)
        ensures
            n == self.hist().len(),
    {
        self.history.len()
    }

    /// The cursor: how many plies of the log are in play.
    pub fn cursor_index(&self) -> (n: usize)
        ensures
            n == self.cur(),
    {
        self.cursor
    }

    /// The color the human plays.
    pub fn human_color(&self) -> (s: Side)
        ensures
            s == self.human_side(),
    {
        self.human
    }

    /// One recorded history entry.
    pub fn history_entry(&self, i: usize) -> (e: &HistoryEntry)
        requires
            i < self.hist().len(),
        ensures
            *e == self.hist()[i as int],
    {
        &self.history[i]
    }
}

/// One history entry's contribution to the algebraic listing: White's moves
/// open a numbered line, Black's close it.
pub open spec fn history_line_piece(b0: chess::Board, moves: Seq<Move>, i: int) -> Seq<char> {
    if i % 2 == 0 {
        dec_spec(i / 2 + 1) + ". "@ + san_at(b0, moves, i) + " "@
    } else {
        san_at(b0, moves, i) + "\n"@
    }
}

/// The first `n` entries of the algebraic listing.
pub open spec fn history_lines(b0: chess::Board, moves: Seq<Move>, n: int) -> Seq<char>
    decreases n,
{
    if n <= 0 {
        Seq::empty()
    } else {
        history_lines(b0, moves, n - 1) + history_line_piece(b0, moves, n - 1)
    }
}

/// The first `n` numbered description lines of the detailed listing.
pub open spec fn detail_lines(hist: Seq<HistoryEntry>, n: int) -> Seq<char>
    decreases n,
{
    if n <= 0 {
        Seq::empty()
    } else {
        detail_lines(hist, n - 1) + dec_spec(n) + ". "@ + hist[n - 1].description@ + "\n"@
    }
}

} // verus!
