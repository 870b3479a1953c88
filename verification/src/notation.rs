//! Rendering moves for people: the long human-readable description shown as
//! a move is played, and standard algebraic notation for the history
//! listing. Both are pure in what the rules oracle reports of the position
//! the move is made from.

use vstd::prelude::*;

use crate::oracle::{after_of, board_apply, board_checkers, board_legal_moves, board_piece_on,
    board_status, checkers_of, color_at, legal_of, piece_at, status_of};
use crate::parse::{file_char, move_chars, move_text, rank_char, square_chars};
use crate::text::push_char;
use crate::types::{BoardState, Move, PieceKind, Side, Square};

verus! {

/// The one-letter FEN name of a piece: uppercase for White, lowercase for
/// Black, `?` when the square reported no piece.
pub open spec fn piece_letter_chars(pk: Option<PieceKind>, pc: Option<Side>) -> Seq<char> {
    match (pk, pc) {
        (Some(PieceKind::King), Some(Side::White)) => "K"@,
        (Some(PieceKind::Queen), Some(Side::White)) => "Q"@,
        (Some(PieceKind::Rook), Some(Side::White)) => "R"@,
        (Some(PieceKind::Bishop), Some(Side::White)) => "B"@,
        (Some(PieceKind::Knight), Some(Side::White)) => "N"@,
        (Some(PieceKind::Pawn), Some(Side::White)) => "P"@,
        (Some(PieceKind::King), Some(Side::Black)) => "k"@,
        (Some(PieceKind::Queen), Some(Side::Black)) => "q"@,
        (Some(PieceKind::Rook), Some(Side::Black)) => "r"@,
        (Some(PieceKind::Bishop), Some(Side::Black)) => "b"@,
        (Some(PieceKind::Knight), Some(Side::Black)) => "n"@,
        (Some(PieceKind::Pawn), Some(Side::Black)) => "p"@,
        _ => "?"@,
    }
}

fn piece_letter(pk: Option<PieceKind>, pc: Option<Side>) -> (r: &'static str)
    ensures
        r@ == piece_letter_chars(pk, pc),
{
    match (pk, pc) {
        (Some(PieceKind::King), Some(Side::White)) => "K",
        (Some(PieceKind::Queen), Some(Side::White)) => "Q",
        (Some(PieceKind::Rook), Some(Side::White)) => "R",
        (Some(PieceKind::Bishop), Some(Side::White)) => "B",
        (Some(PieceKind::Knight), Some(Side::White)) => "N",
        (Some(PieceKind::Pawn), Some(Side::White)) => "P",
        (Some(PieceKind::King), Some(Side::Black)) => "k",
        (Some(PieceKind::Queen), Some(Side::Black)) => "q",
        (Some(PieceKind::Rook), Some(Side::Black)) => "r",
        (Some(PieceKind::Bishop), Some(Side::Black)) => "b",
        (Some(PieceKind::Knight), Some(Side::Black)) => "n",
        (Some(PieceKind::Pawn), Some(Side::Black)) => "p",
        _ => "?",
    }
}

/// The capture clause of a description, by what stands on the destination.
pub open spec fn capture_chars(target: Option<PieceKind>) -> Seq<char> {
    match target {
        None => Seq::empty(),
        Some(PieceKind::Queen) => " captures Queen"@,
        Some(PieceKind::Rook) => " captures Rook"@,
        Some(PieceKind::Bishop) => " captures Bishop"@,
        Some(PieceKind::Knight) => " captures Knight"@,
        Some(PieceKind::Pawn) => " captures Pawn"@,
        Some(PieceKind::King) => " captures piece"@,
    }
}

/// The promotion clause of a description.
pub open spec fn promotion_clause_chars(p: Option<PieceKind>) -> Seq<char> {
    match p {
        Some(PieceKind::Queen) => " promotes to Queen"@,
        Some(PieceKind::Rook) => " promotes to Rook"@,
        Some(PieceKind::Bishop) => " promotes to Bishop"@,
        Some(PieceKind::Knight) => " promotes to Knight"@,
        _ => Seq::empty(),
    }
}

/// The square a king of the given color starts the game on (e1 for White;
/// e8 otherwise, as the renderer treats an unknown color as Black).
pub open spec fn king_start(pc: Option<Side>) -> Square {
    if pc == Some(Side::White) {
        Square { idx: 4 }
    } else {
        Square { idx: 60 }
    }
}

/// The destination is a kingside castling target (g1 or g8).
pub open spec fn kingside_target(to: Square) -> bool {
    to.idx == 6 || to.idx == 62
}

/// The destination is a queenside castling target (c1 or c8).
pub open spec fn queenside_target(to: Square) -> bool {
    to.idx == 2 || to.idx == 58
}

/// The human-readable description of a move: the moving piece's letter, the
/// coordinates, any capture and promotion, with castling short-circuiting to
/// its own form. `pk` and `pc` are what the oracle reports of the origin
/// square, `target` of the destination square, all in the pre-move position.
pub open spec fn describe_chars(
    pk: Option<PieceKind>,
    pc: Option<Side>,
    target: Option<PieceKind>,
    m: Move,
) -> Seq<char> {
    let letter = piece_letter_chars(pk, pc);
    if pk == Some(PieceKind::King) && m.from == king_start(pc) && kingside_target(m.to) {
        letter + " castles kingside"@
    } else if pk == Some(PieceKind::King) && m.from == king_start(pc) && queenside_target(m.to) {
        letter + " castles queenside"@
    } else {
        letter + " "@ + square_chars(m.from) + "->"@ + square_chars(m.to) + capture_chars(target)
            + promotion_clause_chars(m.promotion)
    }
}

fn push_square_text(out: &mut String, sq: Square)
    ensures
        final(out)@ == old(out)@ + square_chars(sq),
{
    push_char(out, ((97 + sq.file()) as u8) as char);
    push_char(out, ((49 + sq.rank()) as u8) as char);
    proof {
        assert(final(out)@ =~= old(out)@ + square_chars(sq));
    }
}

/// Describe a move against the position it is about to be made in, from
/// what the oracle reports of its origin and destination squares.
pub fn describe_move(b: &chess::Board, m: &Move) -> (r: String)
    requires
        m.wf(),
    ensures
        r@ == describe_chars(piece_at(*b, m.from), color_at(*b, m.from), piece_at(*b, m.to), *m),
{
    let pk = crate::oracle::board_piece_on(b, m.from);
    let pc = crate::oracle::board_color_on(b, m.from);
    let target = crate::oracle::board_piece_on(b, m.to);
    let mut out = String::new();
    out.append(piece_letter(pk, pc));
    let is_king = match pk {
        Some(PieceKind::King) => true,
        _ => false,
    };
    let start = if match pc {
        Some(Side::White) => true,
        _ => false,
    } {
        Square { idx: 4 }
    } else {
        Square { idx: 60 }
    };
    if is_king && m.from == start && (m.to.idx == 6 || m.to.idx == 62) {
        out.append(" castles kingside");
        proof {
            assert(out@ =~= describe_chars(
                piece_at(*b, m.from),
                color_at(*b, m.from),
                piece_at(*b, m.to),
                *m,
            ));
        }
        return out;
    }
    if is_king && m.from == start && (m.to.idx == 2 || m.to.idx == 58) {
        out.append(" castles queenside");
        proof {
            assert(out@ =~= describe_chars(
                piece_at(*b, m.from),
                color_at(*b, m.from),
                piece_at(*b, m.to),
                *m,
            ));
        }
        return out;
    }
    out.append(" ");
    push_square_text(&mut out, m.from);
    out.append("->");
    push_square_text(&mut out, m.to);
    match target {
        None => (),
        Some(PieceKind::Queen) => out.append(" captures Queen"),
        Some(PieceKind::Rook) => out.append(" captures Rook"),
        Some(PieceKind::Bishop) => out.append(" captures Bishop"),
        Some(PieceKind::Knight) => out.append(" captures Knight"),
        Some(PieceKind::Pawn) => out.append(" captures Pawn"),
        Some(PieceKind::King) => out.append(" captures piece"),
    }
    match m.promotion {
        Some(PieceKind::Queen) => out.append(" promotes to Queen"),
        Some(PieceKind::Rook) => out.append(" promotes to Rook"),
        Some(PieceKind::Bishop) => out.append(" promotes to Bishop"),
        Some(PieceKind::Knight) => out.append(" promotes to Knight"),
        _ => (),
    }
    proof {
        assert(out@ =~= describe_chars(
            piece_at(*b, m.from),
            color_at(*b, m.from),
            piece_at(*b, m.to),
            *m,
        ));
    }
    out
}

/// Another move in the legal set carries the same kind of piece to the same
/// destination from a different square, so the origin must be qualified.
pub open spec fn ambiguous(b: chess::Board, m: Move) -> bool {
    exists|o: Move|
        legal_of(b).contains(o) && o.to == m.to && o.from != m.from && piece_at(b, o.from)
            == piece_at(b, m.from)
}

/// Some rival origin (as in [`ambiguous`]) shares the origin's file, so the
/// file letter alone would not distinguish them.
pub open spec fn file_shared(b: chess::Board, m: Move) -> bool {
    exists|o: Move|
        legal_of(b).contains(o) && o.to == m.to && o.from != m.from && piece_at(b, o.from)
            == piece_at(b, m.from) && o.from.spec_file() == m.from.spec_file()
}

/// The disambiguation characters of a move: nothing when no rival piece can
/// reach the destination, the origin file when it distinguishes, else the
/// origin rank.
pub open spec fn disambig_chars(b: chess::Board, m: Move) -> Seq<char> {
    if !ambiguous(b, m) {
        Seq::empty()
    } else if !file_shared(b, m) {
        seq![file_char(m.from.spec_file())]
    } else {
        seq![rank_char(m.from.spec_rank())]
    }
}

/// The leading piece letter: uppercase for every piece but a pawn, which
/// shows its origin file only when capturing.
pub open spec fn san_prefix_chars(pk: PieceKind, capture: bool, m: Move) -> Seq<char> {
    match pk {
        PieceKind::King => "K"@,
        PieceKind::Queen => "Q"@,
        PieceKind::Rook => "R"@,
        PieceKind::Bishop => "B"@,
        PieceKind::Knight => "N"@,
        PieceKind::Pawn => if capture {
            seq![file_char(m.from.spec_file())]
        } else {
            Seq::empty()
        },
    }
}

/// The promotion suffix: `=` and the piece letter.
pub open spec fn san_promotion_chars(p: Option<PieceKind>) -> Seq<char> {
    match p {
        None => Seq::empty(),
        Some(PieceKind::Queen) => "=Q"@,
        Some(PieceKind::Rook) => "=R"@,
        Some(PieceKind::Bishop) => "=B"@,
        Some(PieceKind::Knight) => "=N"@,
        Some(PieceKind::Pawn) => "="@,
        Some(PieceKind::King) => "="@,
    }
}

/// The check marker of the position a move leaves behind: `#` for
/// checkmate, `+` for check, nothing otherwise.
pub open spec fn san_check_chars(after: chess::Board) -> Seq<char> {
    if checkers_of(after) != 0 {
        if status_of(after) == BoardState::Checkmate {
            "#"@
        } else {
            "+"@
        }
    } else {
        Seq::empty()
    }
}

/// Standard algebraic notation of a legal move in a position: castling is
/// `0-0`/`0-0-0`; otherwise piece letter (pawns show a file only on
/// capture), disambiguation for non-pawn, non-king pieces, `x` on capture,
/// the destination, the promotion suffix, and the check marker of the
/// resulting position. A move whose origin reports no piece falls back to
/// coordinate text.
pub open spec fn san_chars(b: chess::Board, m: Move) -> Seq<char> {
    let pk = piece_at(b, m.from);
    let pc = color_at(b, m.from);
    let capture = piece_at(b, m.to) is Some;
    if pk == Some(PieceKind::King) && m.from == king_start(pc) && kingside_target(m.to) {
        "0-0"@
    } else if pk == Some(PieceKind::King) && m.from == king_start(pc) && queenside_target(m.to) {
        "0-0-0"@
    } else if pk is None {
        move_chars(m)
    } else {
        san_prefix_chars(pk->Some_0, capture, m) + (if pk != Some(PieceKind::Pawn) && pk != Some(
            PieceKind::King,
        ) {
            disambig_chars(b, m)
        } else {
            Seq::empty()
        }) + (if capture {
            "x"@
        } else {
            Seq::empty()
        }) + square_chars(m.to) + san_promotion_chars(m.promotion) + san_check_chars(after_of(b, m))
    }
}

/// Law: when a rival piece of the same kind can legally reach the same
/// destination — two knights, say — the notation of a non-pawn, non-king
/// move carries exactly one qualifying character right after the piece
/// letter: the origin's file letter when no rival shares that file, and
/// otherwise the origin's rank digit.
pub proof fn lemma_disambiguation(b: chess::Board, m: Move)
    requires
        ambiguous(b, m),
        piece_at(b, m.from) is Some,
        piece_at(b, m.from) != Some(PieceKind::Pawn),
        piece_at(b, m.from) != Some(PieceKind::King),
    ensures
        disambig_chars(b, m).len() == 1,
        !file_shared(b, m) ==> disambig_chars(b, m) == seq![file_char(m.from.spec_file())],
        file_shared(b, m) ==> disambig_chars(b, m) == seq![rank_char(m.from.spec_rank())],
        san_chars(b, m) == san_prefix_chars(piece_at(b, m.from)->Some_0, piece_at(b, m.to) is Some, m)
            + disambig_chars(b, m) + (if piece_at(b, m.to) is Some {
            "x"@
        } else {
            Seq::empty()
        }) + square_chars(m.to) + san_promotion_chars(m.promotion) + san_check_chars(
            after_of(b, m),
        ),
{
}

/// Both options hold the same piece kind.
fn same_piece_opt(a: Option<PieceKind>, b: Option<PieceKind>) -> (r: bool)
    ensures
        r == (a == b),
{
    match (a, b) {
        (None, None) => true,
        (Some(x), Some(y)) => x == y,
        _ => false,
    }
}

/// Whether the oracle lists the move as legal in the position.
pub fn move_is_legal(b: &chess::Board, m: &Move) -> (r: bool)
    ensures
        r == legal_of(*b).contains(*m),
        r ==> m.wf(),
{
    let legal = board_legal_moves(b);
    let mut j: usize = 0;
    let mut found = false;
    while j < legal.len()
        invariant
            j <= legal@.len(),
            found <==> exists|k: int| 0 <= k < j && legal@[k] == *m,
            forall|i: int| 0 <= i < legal@.len() ==> (#[trigger] legal@[i]).wf(),
            forall|mm: Move| #[trigger] legal@.contains(mm) <==> legal_of(*b).contains(mm),
        decreases legal@.len() - j,
    {
        if legal[j].from == m.from && legal[j].to == m.to && same_piece_opt(
            legal[j].promotion,
            m.promotion,
        ) {
            proof {
                assert(legal@[j as int] == *m);
            }
            found = true;
        }
        j = j + 1;
    }
    proof {
        if found {
            assert(legal@.contains(*m));
            let k = choose|k: int| 0 <= k < legal@.len() && legal@[k] == *m;
            assert(legal@[k].wf());
        } else {
            assert(!legal@.contains(*m));
        }
    }
    found
}

/// Render a legal move of a position in standard algebraic notation.
#[verifier::rlimit(60)]
pub fn algebraic_notation(b: &chess::Board, m: &Move) -> (r: String)
    requires
        legal_of(*b).contains(*m),
        m.wf(),
    ensures
        r@ == san_chars(*b, *m),
{
    let pk = board_piece_on(b, m.from);
    let pc = crate::oracle::board_color_on(b, m.from);
    let capture = match board_piece_on(b, m.to) {
        Some(_) => true,
        None => false,
    };
    let is_king = match pk {
        Some(PieceKind::King) => true,
        _ => false,
    };
    let start = if match pc {
        Some(Side::White) => true,
        _ => false,
    } {
        Square { idx: 4 }
    } else {
        Square { idx: 60 }
    };
    if is_king && m.from == start && (m.to.idx == 6 || m.to.idx == 62) {
        let mut out = String::new();
        out.append("0-0");
        proof {
            assert(out@ =~= san_chars(*b, *m));
        }
        return out;
    }
    if is_king && m.from == start && (m.to.idx == 2 || m.to.idx == 58) {
        let mut out = String::new();
        out.append("0-0-0");
        proof {
            assert(out@ =~= san_chars(*b, *m));
        }
        return out;
    }
    let kind = match pk {
        None => {
            return move_text(m);
        },
        Some(k) => k,
    };
    let mut out = String::new();
    match kind {
        PieceKind::King => out.append("K"),
        PieceKind::Queen => out.append("Q"),
        PieceKind::Rook => out.append("R"),
        PieceKind::Bishop => out.append("B"),
        PieceKind::Knight => out.append("N"),
        PieceKind::Pawn => {
            if capture {
                push_char(&mut out, ((97 + m.from.file()) as u8) as char);
            }
        },
    }
    proof {
        assert(out@ =~= san_prefix_chars(kind, capture, *m));
    }
    let is_pawn = match kind {
        PieceKind::Pawn => true,
        _ => false,
    };
    let ghost qualified = san_prefix_chars(kind, capture, *m) + (if kind != PieceKind::Pawn && kind
        != PieceKind::King {
        disambig_chars(*b, *m)
    } else {
        Seq::<char>::empty()
    });
    if !is_pawn && !is_king {
        let (other, shares_file) = ambiguity_flags(b, m);
        if other {
            if !shares_file {
                push_char(&mut out, ((97 + m.from.file()) as u8) as char);
            } else {
                push_char(&mut out, ((49 + m.from.rank()) as u8) as char);
            }
        }
    }
    proof {
        assert(out@ =~= qualified);
    }
    if capture {
        out.append("x");
    }
    let ghost marked = qualified + (if capture {
        "x"@
    } else {
        Seq::<char>::empty()
    });
    proof {
        assert(out@ =~= marked);
    }
    push_char(&mut out, ((97 + m.to.file()) as u8) as char);
    push_char(&mut out, ((49 + m.to.rank()) as u8) as char);
    match m.promotion {
        None => (),
        Some(PieceKind::Queen) => out.append("=Q"),
        Some(PieceKind::Rook) => out.append("=R"),
        Some(PieceKind::Bishop) => out.append("=B"),
        Some(PieceKind::Knight) => out.append("=N"),
        Some(PieceKind::Pawn) => out.append("="),
        Some(PieceKind::King) => out.append("="),
    }
    let ghost promoted = marked + square_chars(m.to) + san_promotion_chars(m.promotion);
    proof {
        assert(out@ =~= promoted);
    }
    let after = board_apply(b, m);
    if board_checkers(&after) != 0 {
        match board_status(&after) {
            BoardState::Checkmate => out.append("#"),
            _ => out.append("+"),
        }
    }
    proof {
        assert(out@ =~= promoted + san_check_chars(after_of(*b, *m)));
        assert(out@ =~= san_chars(*b, *m));
    }
    out
}

/// Scan the enumerated legal moves for rivals of `m`: whether any other
/// same-kind move reaches the same destination, and whether one of those
/// shares the origin file.
fn ambiguity_flags(b: &chess::Board, m: &Move) -> (r: (bool, bool))
    requires
        m.wf(),
    ensures
        r.0 == ambiguous(*b, *m),
        r.1 == file_shared(*b, *m),
{
    let pk = board_piece_on(b, m.from);
    let legal = board_legal_moves(b);
    let mut other = false;
    let mut shares_file = false;
    let mut j: usize = 0;
    while j < legal.len()
        invariant
            j <= legal@.len(),
            m.wf(),
            pk == piece_at(*b, m.from),
            forall|i: int| 0 <= i < legal@.len() ==> (#[trigger] legal@[i]).wf(),
            forall|mm: Move| #[trigger] legal@.contains(mm) <==> legal_of(*b).contains(mm),
            other <==> exists|k: int| 0 <= k < j && rival(*b, *m, #[trigger] legal@[k]),
            shares_file <==> exists|k: int|
                0 <= k < j && rival(*b, *m, #[trigger] legal@[k]) && legal@[k].from.spec_file()
                    == m.from.spec_file(),
        decreases legal@.len() - j,
    {
        let o = legal[j];
        if o.to == m.to && !(o.from == m.from) && same_piece_opt(board_piece_on(b, o.from), pk) {
            proof {
                assert(rival(*b, *m, legal@[j as int]));
            }
            other = true;
            if o.from.file() == m.from.file() {
                shares_file = true;
            }
        }
        j = j + 1;
    }
    proof {
        lemma_rival_search(*b, *m, legal@, other, shares_file);
    }
    (other, shares_file)
}

/// `o` is a rival of `m`: a different origin, the same destination, and the
/// same kind of piece moving.
pub open spec fn rival(b: chess::Board, m: Move, o: Move) -> bool {
    o.to == m.to && o.from != m.from && piece_at(b, o.from) == piece_at(b, m.from)
}

/// Bridge a scan of the enumerated legal moves to the set-level ambiguity
/// predicates.
proof fn lemma_rival_search(b: chess::Board, m: Move, legal: Seq<Move>, other: bool, shares: bool)
    requires
        forall|mm: Move| #[trigger] legal.contains(mm) <==> legal_of(b).contains(mm),
        other <==> exists|k: int| 0 <= k < legal.len() && rival(b, m, #[trigger] legal[k]),
        shares <==> exists|k: int|
            0 <= k < legal.len() && rival(b, m, #[trigger] legal[k]) && legal[k].from.spec_file()
                == m.from.spec_file(),
    ensures
        other == ambiguous(b, m),
        shares == file_shared(b, m),
{
    if other {
        let k = choose|k: int| 0 <= k < legal.len() && rival(b, m, legal[k]);
        assert(legal.contains(legal[k]));
        assert(ambiguous(b, m));
    }
    if ambiguous(b, m) {
        let o = choose|o: Move|
            legal_of(b).contains(o) && o.to == m.to && o.from != m.from && piece_at(b, o.from)
                == piece_at(b, m.from);
        assert(legal.contains(o));
        let k = choose|k: int| 0 <= k < legal.len() && legal[k] == o;
        assert(rival(b, m, legal[k]));
        assert(other);
    }
    if shares {
        let k = choose|k: int|
            0 <= k < legal.len() && rival(b, m, legal[k]) && legal[k].from.spec_file()
                == m.from.spec_file();
        assert(legal.contains(legal[k]));
        assert(file_shared(b, m));
    }
    if file_shared(b, m) {
        let o = choose|o: Move|
            legal_of(b).contains(o) && o.to == m.to && o.from != m.from && piece_at(b, o.from)
                == piece_at(b, m.from) && o.from.spec_file() == m.from.spec_file();
        assert(legal.contains(o));
        let k = choose|k: int| 0 <= k < legal.len() && legal[k] == o;
        assert(rival(b, m, legal[k]) && legal[k].from.spec_file() == m.from.spec_file());
        assert(shares);
    }
}

/// The position reached by replaying the first `n` moves from `b`, applying
/// each as the rules engine does: a move that is not legal where it arises
/// is skipped and the position stands.
pub open spec fn replay(b: chess::Board, moves: Seq<Move>, n: int) -> chess::Board
    decreases n,
{
    if n <= 0 {
        b
    } else {
        let prev = replay(b, moves, n - 1);
        if legal_of(prev).contains(moves[n - 1]) {
            after_of(prev, moves[n - 1])
        } else {
            prev
        }
    }
}

/// The notation recorded for move `n` of a line: algebraic notation against
/// the replayed position, or bare coordinate text if the move is not legal
/// there (a history desynchronized by redo).
pub open spec fn san_at(b: chess::Board, moves: Seq<Move>, n: int) -> Seq<char> {
    let pos = replay(b, moves, n);
    if legal_of(pos).contains(moves[n]) {
        san_chars(pos, moves[n])
    } else {
        move_chars(moves[n])
    }
}

/// Render move `index` of a line in algebraic notation by replaying the
/// moves before it from `b`.
pub fn san_of_line(b: &chess::Board, moves: &Vec<Move>, index: usize) -> (r: String)
    requires
        index < moves@.len(),
    ensures
        r@ == san_at(*b, moves@, index as int),
{
    let mut cur: chess::Board = *b;
    let mut k: usize = 0;
    while k < index
        invariant
            k <= index < moves@.len(),
            cur == replay(*b, moves@, k as int),
        decreases index - k,
    {
        let mv = moves[k];
        if move_is_legal(&cur, &mv) {
            cur = board_apply(&cur, &mv);
        }
        k = k + 1;
    }
    let mv = moves[index];
    if move_is_legal(&cur, &mv) {
        algebraic_notation(&cur, &mv)
    } else {
        move_text(&mv)
    }
}

} // verus!

