//! Plain vocabulary of the session: sides, piece kinds, squares, moves,
//! commands, and the error taxonomy.

use vstd::prelude::*;

verus! {

/// One of the two sides of the game, whichever agent controls it.
#[derive(Clone, Copy, PartialEq, Eq, Structural, Debug)]
pub enum Side {
    White,
    Black,
}

impl Side {
    /// The side that moves after this one.
    pub open spec fn spec_flip(self) -> Side {
        match self {
            Side::White => Side::Black,
            Side::Black => Side::White,
        }
    }

    #[verifier::when_used_as_spec(spec_flip)]
    pub fn flip(self) -> (r: Side)
        ensures
            r == self.spec_flip(),
    {
        match self {
            Side::White => Side::Black,
            Side::Black => Side::White,
        }
    }
}

/// A kind of chess piece.
#[derive(Clone, Copy, PartialEq, Eq, Structural, Debug)]
pub enum PieceKind {
    Pawn,
    Knight,
    Bishop,
    Rook,
    Queen,
    King,
}

/// A board square, numbered 0 (a1) through 63 (h8), rank-major.
#[derive(Clone, Copy, PartialEq, Eq, Structural, Debug)]
pub struct Square {
    pub idx: u8,
}

impl Square {
    /// A square index names a real square.
    pub open spec fn wf(self) -> bool {
        self.idx < 64
    }

    /// File number, 0 (file a) through 7 (file h).
    pub open spec fn spec_file(self) -> u8 {
        (self.idx % 8) as u8
    }

    /// Rank number, 0 (rank 1) through 7 (rank 8).
    pub open spec fn spec_rank(self) -> u8 {
        (self.idx / 8) as u8
    }

    pub open spec fn spec_make(file: u8, rank: u8) -> Square {
        Square { idx: (rank * 8 + file) as u8 }
    }

    #[verifier::when_used_as_spec(spec_file)]
    pub fn file(self) -> (r: u8)
        ensures
            r == self.spec_file(),
    {
        self.idx % 8
    }

    #[verifier::when_used_as_spec(spec_rank)]
    pub fn rank(self) -> (r: u8)
        ensures
            r == self.spec_rank(),
    {
        self.idx / 8
    }

    pub fn make(file: u8, rank: u8) -> (r: Square)
        requires
            file < 8,
            rank < 8,
        ensures
            r == Square::spec_make(file, rank),
            r.wf(),
            r.spec_file() == file,
            r.spec_rank() == rank,
    {
        Square { idx: rank * 8 + file }
    }
}

/// A move as the session sees it: origin, destination, and an optional
/// promotion piece. Whether it is legal is relative to a position and is
/// decided only by the rules oracle.
#[derive(Clone, Copy, PartialEq, Eq, Structural, Debug)]
pub struct Move {
    pub from: Square,
    pub to: Square,
    pub promotion: Option<PieceKind>,
}

impl Move {
    pub open spec fn wf(self) -> bool {
        self.from.wf() && self.to.wf()
    }
}

/// Why a line of input failed to parse as a move.
#[derive(Clone, Copy, PartialEq, Eq, Structural, Debug)]
pub enum MoveTextError {
    /// Not four or five characters long.
    Length,
    /// The first two characters are not a board coordinate.
    FromSquare,
    /// The third and fourth characters are not a board coordinate.
    ToSquare,
    /// The fifth character is not one of `q`, `r`, `b`, `n`.
    Promotion,
}

/// Why a submitted move was not played.
#[derive(Clone, Copy, PartialEq, Eq, Structural, Debug)]
pub enum MoveError {
    /// The text is not a structurally valid move.
    Format(MoveTextError),
    /// Structurally valid, but not in the legal-move set of the position.
    Illegal,
}

/// Why undo or redo left the session unchanged.
#[derive(Clone, Copy, PartialEq, Eq, Structural, Debug)]
pub enum HistoryError {
    /// Undoing would move the cursor below the initial position.
    PastBeginning,
    /// Redoing, but the cursor is already at the latest snapshot.
    AtLatest,
}

/// What the rules oracle reports of a position.
#[derive(Clone, Copy, PartialEq, Eq, Structural, Debug)]
pub enum BoardState {
    /// The side to move has legal moves.
    Ongoing,
    /// No legal moves and not in check.
    Stalemate,
    /// No legal moves and in check.
    Checkmate,
}

/// How a finished game ended.
#[derive(Clone, Copy, PartialEq, Eq, Structural, Debug)]
pub enum GameOutcome {
    WhiteCheckmates,
    BlackCheckmates,
    WhiteResigns,
    BlackResigns,
    Stalemate,
    DrawAccepted,
    DrawDeclared,
}

/// Whose move the session waits for next, or how the game ended.
#[derive(Clone, Copy, PartialEq, Eq, Structural, Debug)]
pub enum Phase {
    HumanTurn,
    EngineTurn,
    Over(GameOutcome),
}

/// An in-session line of input, classified.
#[derive(Clone, Copy, PartialEq, Eq, Structural, Debug)]
pub enum Command {
    /// End the session immediately.
    Quit,
    /// Print the command summary.
    Help,
    /// List the legal moves of the current position.
    Moves,
    /// Print the move history.
    History,
    /// Redisplay the board.
    Show,
    /// Print the current position's serialized form, with a field breakdown.
    Fen,
    /// Rewind history.
    Undo,
    /// Advance history.
    Redo,
    /// Anything else: attempt to play it as a move.
    Play,
}

} // verus!
