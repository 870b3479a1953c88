//! The trusted boundary to the rules engine (the `chess` crate). A position
//! is an opaque `chess::Board`; everything the verified code reads of one —
//! its side to move, occupants, legal-move set, status, serialized form, and
//! the position after a move — is named by an uninterpreted spec function
//! here, and each wrapper relates one call into the crate to those names.
//!
//! Nothing else in the library touches the `chess` crate.

use vstd::prelude::*;

use crate::types::{BoardState, Move, PieceKind, Side, Square};

verus! {

#[verifier::external_type_specification]
#[verifier::external_body]
pub struct ExBoard(chess::Board);

/// The side to move in a position.
pub uninterp spec fn side_of(b: chess::Board) -> Side;

/// The kind of piece standing on a square, if any.
pub uninterp spec fn piece_at(b: chess::Board, sq: Square) -> Option<PieceKind>;

/// The side owning the piece standing on a square, if any.
pub uninterp spec fn color_at(b: chess::Board, sq: Square) -> Option<Side>;

/// The legal-move set of a position, as the rules engine enumerates it.
pub uninterp spec fn legal_of(b: chess::Board) -> Set<Move>;

/// Whether a position is ongoing, stalemate, or checkmate.
pub uninterp spec fn status_of(b: chess::Board) -> BoardState;

/// The position that applying a legal move yields.
pub uninterp spec fn after_of(b: chess::Board, m: Move) -> chess::Board;

/// The bitboard of pieces giving check, as a raw 64-bit word; zero exactly
/// when the side to move is not in check.
pub uninterp spec fn checkers_of(b: chess::Board) -> u64;

/// The canonical (FEN) text of a position.
pub uninterp spec fn fen_of(b: chess::Board) -> Seq<char>;

/// Relies on `chess::Board::default`: the standard initial position, in
/// which White is to move.
#[verifier::external_body]
pub fn initial_board() -> (b: chess::Board)
    ensures
        side_of(b) == Side::White,
{
    chess::Board::default()
}

/// Relies on `chess::Board::side_to_move`.
#[verifier::external_body]
pub fn board_side(b: &chess::Board) -> (s: Side)
    ensures
        s == side_of(*b),
{
    match b.side_to_move() {
        chess::Color::White => Side::White,
        chess::Color::Black => Side::Black,
    }
}

/// Relies on `chess::Board::piece_on`.
#[verifier::external_body]
pub fn board_piece_on(b: &chess::Board, sq: Square) -> (r: Option<PieceKind>)
    requires
        sq.wf(),
    ensures
        r == piece_at(*b, sq),
{
    // Indexed by Piece::to_index: pawn through king.
    let kinds = [PieceKind::Pawn, PieceKind::Knight, PieceKind::Bishop, PieceKind::Rook,
        PieceKind::Queen, PieceKind::King];
    b.piece_on(chess::ALL_SQUARES[sq.idx as usize]).map(|p| kinds[p.to_index()])
}

/// Relies on `chess::Board::color_on`.
#[verifier::external_body]
pub fn board_color_on(b: &chess::Board, sq: Square) -> (r: Option<Side>)
    requires
        sq.wf(),
    ensures
        r == color_at(*b, sq),
{
    match b.color_on(chess::ALL_SQUARES[sq.idx as usize]) {
        None => None,
        Some(chess::Color::White) => Some(Side::White),
        Some(chess::Color::Black) => Some(Side::Black),
    }
}

/// Relies on `chess::MoveGen::new_legal`: enumerates exactly the legal moves
/// of the position. Squares carried by the rules engine's moves are always
/// real board squares.
#[verifier::external_body]
pub fn board_legal_moves(b: &chess::Board) -> (r: Vec<Move>)
    ensures
        forall|m: Move| #[trigger] r@.contains(m) <==> legal_of(*b).contains(m),
        forall|i: int| 0 <= i < r@.len() ==> (#[trigger] r@[i]).wf(),
{
    // Indexed by Piece::to_index: pawn through king.
    let kinds = [PieceKind::Pawn, PieceKind::Knight, PieceKind::Bishop, PieceKind::Rook,
        PieceKind::Queen, PieceKind::King];
    chess::MoveGen::new_legal(b)
        .map(|m| Move {
            from: Square { idx: m.get_source().to_int() },
            to: Square { idx: m.get_dest().to_int() },
            promotion: m.get_promotion().map(|p| kinds[p.to_index()]),
        })
        .collect()
}

/// Relies on `chess::Board::status`: `Ongoing` when legal moves exist,
/// otherwise `Stalemate` or `Checkmate` by whether the mover is in check.
#[verifier::external_body]
pub fn board_status(b: &chess::Board) -> (r: BoardState)
    ensures
        r == status_of(*b),
{
    match b.status() {
        chess::BoardStatus::Ongoing => BoardState::Ongoing,
        chess::BoardStatus::Stalemate => BoardState::Stalemate,
        chess::BoardStatus::Checkmate => BoardState::Checkmate,
    }
}

/// Relies on `chess::Board::make_move_new`: applying a move yields the new
/// position and hands the turn to the other side. Restricted to legal moves;
/// on arbitrary move values the rules engine may panic.
#[verifier::external_body]
pub fn board_apply(b: &chess::Board, m: &Move) -> (r: chess::Board)
    requires
        legal_of(*b).contains(*m),
    ensures
        r == after_of(*b, *m),
        side_of(r) == side_of(*b).spec_flip(),
{
    // PieceKind declares its variants in ALL_PIECES order, pawn through king.
    b.make_move_new(chess::ChessMove::new(
        chess::ALL_SQUARES[m.from.idx as usize],
        chess::ALL_SQUARES[m.to.idx as usize],
        m.promotion.map(|p| chess::ALL_PIECES[p as usize]),
    ))
}

/// Relies on `chess::Board::checkers`: the set of pieces attacking the
/// mover's king, empty exactly when not in check.
#[verifier::external_body]
pub fn board_checkers(b: &chess::Board) -> (r: u64)
    ensures
        r == checkers_of(*b),
{
    b.checkers().0
}

/// Relies on the `Display` impl of `chess::Board`: writes the position as
/// FEN text.
#[verifier::external_body]
pub fn board_fen(b: &chess::Board) -> (r: String)
    ensures
        r@ == fen_of(*b),
{
    format!("{}", b)
}

} // verus!
