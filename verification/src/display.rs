//! Text the session shows the player: the game-over message, the help
//! screen, the legal-move listing, the FEN breakdown, and the board grid.
//! Everything is a pure function of what the rules oracle reports.

use vstd::prelude::*;

use crate::oracle::{checkers_of, color_at, piece_at, side_of};
use crate::parse::{move_chars, move_text};
use crate::text::{dec_spec, split_ws, split_ws_spec, str_eq, u64_text};
use crate::types::{GameOutcome, Move, PieceKind, Side, Square};

verus! {

/// The message announcing how the game ended, from the human's standpoint.
pub open spec fn result_message_chars(outcome: GameOutcome, human: Side) -> Seq<char> {
    match outcome {
        GameOutcome::WhiteCheckmates => if human == Side::White {
            "Congratulations! You won by checkmate!"@
        } else {
            "Computer wins by checkmate!"@
        },
        GameOutcome::BlackCheckmates => if human == Side::Black {
            "Congratulations! You won by checkmate!"@
        } else {
            "Computer wins by checkmate!"@
        },
        GameOutcome::WhiteResigns => "White resigns!"@,
        GameOutcome::BlackResigns => "Black resigns!"@,
        GameOutcome::Stalemate => "Game ended in stalemate - it's a draw!"@,
        GameOutcome::DrawAccepted => "Game ended in a draw!"@,
        GameOutcome::DrawDeclared => "Game ended in a draw (insufficient material or repetition)!"@,
    }
}

/// Announce a finished game.
pub fn result_message(outcome: GameOutcome, human: Side) -> (r: String)
    ensures
        r@ == result_message_chars(outcome, human),
{
    let mut out = String::new();
    match outcome {
        GameOutcome::WhiteCheckmates => {
            if human == Side::White {
                out.append("Congratulations! You won by checkmate!");
            } else {
                out.append("Computer wins by checkmate!");
            }
        },
        GameOutcome::BlackCheckmates => {
            if human == Side::Black {
                out.append("Congratulations! You won by checkmate!");
            } else {
                out.append("Computer wins by checkmate!");
            }
        },
        GameOutcome::WhiteResigns => out.append("White resigns!"),
        GameOutcome::BlackResigns => out.append("Black resigns!"),
        GameOutcome::Stalemate => out.append("Game ended in stalemate - it's a draw!"),
        GameOutcome::DrawAccepted => out.append("Game ended in a draw!"),
        GameOutcome::DrawDeclared => out.append(
            "Game ended in a draw (insufficient material or repetition)!",
        ),
    }
    out
}

/// The help screen.
pub open spec fn help_chars() -> Seq<char> {
    "=== Chess CLI Help ===\nCommands:\n  - Enter moves in coordinate notation: g1f3, e2e4, etc.\n  - For promotions, add the piece: e7e8q (queen), e7e8r (rook), etc.\n  - 'moves' - Show all legal moves\n  - 'history' - Show move history\n  - 'show' or 'board' - Redisplay the current board\n  - 'fen' - Show the current position as FEN\n  - 'undo' or 'u' - Undo your last move\n  - 'redo' or 're' - Redo an undone move\n  - 'h' or 'help' - Show this help\n  - 'q' or 'quit' - Quit the game\n\nMove format examples:\n  - e2e4    - Move pawn from e2 to e4\n  - g1f3    - Move knight from g1 to f3 (NOT Ng1f3)\n  - e7e8q   - Promote pawn to queen\n  - e1g1    - Castle kingside\n  - e1c1    - Castle queenside\n\nIMPORTANT: Use coordinate notation (from-square + to-square)\nNOT standard algebraic notation (no piece letters like N, B, R, Q, K)\n\nSquares are labeled from a1 (bottom-left) to h8 (top-right)\nWhite pieces: ♔♕♖♗♘♙  Black pieces: ♚♛♜♝♞♟\n====================\n"@
}

/// The help screen, as the `help` command prints it.
pub fn help_text() -> (r: String)
    ensures
        r@ == help_chars(),
{
    let mut out = String::new();
    out.append(
        "=== Chess CLI Help ===\nCommands:\n  - Enter moves in coordinate notation: g1f3, e2e4, etc.\n  - For promotions, add the piece: e7e8q (queen), e7e8r (rook), etc.\n  - 'moves' - Show all legal moves\n  - 'history' - Show move history\n  - 'show' or 'board' - Redisplay the current board\n  - 'fen' - Show the current position as FEN\n  - 'undo' or 'u' - Undo your last move\n  - 'redo' or 're' - Redo an undone move\n  - 'h' or 'help' - Show this help\n  - 'q' or 'quit' - Quit the game\n\nMove format examples:\n  - e2e4    - Move pawn from e2 to e4\n  - g1f3    - Move knight from g1 to f3 (NOT Ng1f3)\n  - e7e8q   - Promote pawn to queen\n  - e1g1    - Castle kingside\n  - e1c1    - Castle queenside\n\nIMPORTANT: Use coordinate notation (from-square + to-square)\nNOT standard algebraic notation (no piece letters like N, B, R, Q, K)\n\nSquares are labeled from a1 (bottom-left) to h8 (top-right)\nWhite pieces: ♔♕♖♗♘♙  Black pieces: ♚♛♜♝♞♟\n====================\n",
    );
    out
}

/// One move of the listing: its coordinate text, a space, and a line break
/// after every eighth move.
pub open spec fn move_list_piece(moves: Seq<Move>, i: int) -> Seq<char> {
    move_chars(moves[i]) + " "@ + if (i + 1) % 8 == 0 {
        "\n"@
    } else {
        Seq::empty()
    }
}

/// The first `n` moves of the listing.
pub open spec fn move_list_lines(moves: Seq<Move>, n: int) -> Seq<char>
    decreases n,
{
    if n <= 0 {
        Seq::empty()
    } else {
        move_list_lines(moves, n - 1) + move_list_piece(moves, n - 1)
    }
}

/// The legal-move listing, as the `moves` command prints it.
pub open spec fn move_list_chars(moves: Seq<Move>) -> Seq<char> {
    "Legal moves:\n"@ + move_list_lines(moves, moves.len() as int) + "\n"@
}

/// Render a list of moves eight to a line.
pub fn move_list_text(moves: &Vec<Move>) -> (r: String)
    ensures
        r@ == move_list_chars(moves@),
{
    let mut out = String::new();
    out.append("Legal moves:\n");
    let n = moves.len();
    let mut i: usize = 0;
    while i < n
        invariant
            i <= n,
            n == moves@.len(),
            out@ =~= "Legal moves:\n"@ + move_list_lines(moves@, i as int),
        decreases n - i,
    {
        let t = move_text(&moves[i]);
        out.append(t.as_str());
        out.append(" ");
        if (i + 1) % 8 == 0 {
            out.append("\n");
        }
        i = i + 1;
        proof {
            assert(out@ =~= "Legal moves:\n"@ + move_list_lines(moves@, i as int));
        }
    }
    out.append("\n");
    out
}

/// The labeled field-by-field breakdown shown with a position's FEN text.
/// The six whitespace-separated fields are piece placement, active color,
/// castling availability, en-passant target, half-move clock and full-move
/// number; a FEN with fewer fields is shown bare.
pub open spec fn fen_fields_chars(parts: Seq<Seq<char>>) -> Seq<char> {
    "\nFEN Breakdown:\nPosition:       "@ + parts[0] + "\nActive color:   "@ + parts[1] + " ("@ + (
    if parts[1] == "w"@ {
        "White to move"@
    } else {
        "Black to move"@
    }) + ")\nCastling:       "@ + parts[2] + " ("@ + (if parts[2] == "-"@ {
        "No castling available"@
    } else {
        "K=White kingside, Q=White queenside, k=Black kingside, q=Black queenside"@
    }) + ")\nEn passant:     "@ + parts[3] + " ("@ + (if parts[3] == "-"@ {
        "No en passant target"@
    } else {
        "En passant target square"@
    }) + ")\nHalfmove clock: "@ + parts[4]
        + " (moves since last pawn move or capture)\nFullmove:       "@ + parts[5]
        + " (increments after Black's move)\n"@
}

pub open spec fn fen_breakdown_chars(fen: Seq<char>) -> Seq<char> {
    let parts = split_ws_spec(fen);
    "=== Current Position FEN ===\n"@ + fen + "\n"@ + (if parts.len() >= 6 {
        fen_fields_chars(parts)
    } else {
        Seq::empty()
    }) + "=============================\n"@
}

/// Render a position's FEN text with its field breakdown.
/// The labeled fields themselves, given at least the six FEN fields.
#[verifier::rlimit(60)]
fn fen_fields_text(parts: &Vec<String>) -> (r: String)
    requires
        parts@.len() >= 6,
    ensures
        r@ == fen_fields_chars(parts@.map_values(|t: String| t@)),
{
    let ghost ps = parts@.map_values(|t: String| t@);
    let mut out = String::new();
    out.append("\nFEN Breakdown:\nPosition:       ");
    out.append(parts[0].as_str());
    out.append("\nActive color:   ");
    out.append(parts[1].as_str());
    out.append(" (");
    if str_eq(parts[1].as_str(), "w") {
        out.append("White to move");
    } else {
        out.append("Black to move");
    }
    proof {
        assert(out@ =~= "\nFEN Breakdown:\nPosition:       "@ + ps[0] + "\nActive color:   "@
            + ps[1] + " ("@ + (if ps[1] == "w"@ {
            "White to move"@
        } else {
            "Black to move"@
        }));
    }
    let ghost mid1 = out@;
    out.append(")\nCastling:       ");
    out.append(parts[2].as_str());
    out.append(" (");
    if str_eq(parts[2].as_str(), "-") {
        out.append("No castling available");
    } else {
        out.append("K=White kingside, Q=White queenside, k=Black kingside, q=Black queenside");
    }
    proof {
        assert(out@ =~= mid1 + (")\nCastling:       "@ + ps[2] + " ("@ + (if ps[2] == "-"@ {
            "No castling available"@
        } else {
            "K=White kingside, Q=White queenside, k=Black kingside, q=Black queenside"@
        })));
    }
    let ghost mid2 = out@;
    out.append(")\nEn passant:     ");
    out.append(parts[3].as_str());
    out.append(" (");
    if str_eq(parts[3].as_str(), "-") {
        out.append("No en passant target");
    } else {
        out.append("En passant target square");
    }
    out.append(")\nHalfmove clock: ");
    out.append(parts[4].as_str());
    out.append(" (moves since last pawn move or capture)\nFullmove:       ");
    out.append(parts[5].as_str());
    out.append(" (increments after Black's move)\n");
    proof {
        assert(out@ =~= mid2 + (")\nEn passant:     "@ + ps[3] + " ("@ + (if ps[3] == "-"@ {
            "No en passant target"@
        } else {
            "En passant target square"@
        }) + ")\nHalfmove clock: "@ + ps[4]
            + " (moves since last pawn move or capture)\nFullmove:       "@ + ps[5]
            + " (increments after Black's move)\n"@));
        assert(out@ =~= fen_fields_chars(ps));
    }
    out
}

pub fn fen_breakdown_text(fen: &str) -> (r: String)
    ensures
        r@ == fen_breakdown_chars(fen@),
{
    let mut out = String::new();
    out.append("=== Current Position FEN ===\n");
    out.append(fen);
    out.append("\n");
    let parts = split_ws(fen);
    if parts.len() >= 6 {
        proof {
            assert(parts@.map_values(|t: String| t@) =~= split_ws_spec(fen@));
        }
        let fields = fen_fields_text(&parts);
        out.append(fields.as_str());
    }
    out.append("=============================\n");
    proof {
        assert(out@ =~= fen_breakdown_chars(fen@));
    }
    out
}

/// The glyph drawn in a board cell: the piece's chess symbol, or a space
/// for an empty square or a square whose occupant the oracle reports
/// inconsistently.
pub open spec fn glyph(pk: Option<PieceKind>, pc: Option<Side>) -> char {
    match (pk, pc) {
        (Some(PieceKind::King), Some(Side::White)) => '♔',
        (Some(PieceKind::Queen), Some(Side::White)) => '♕',
        (Some(PieceKind::Rook), Some(Side::White)) => '♖',
        (Some(PieceKind::Bishop), Some(Side::White)) => '♗',
        (Some(PieceKind::Knight), Some(Side::White)) => '♘',
        (Some(PieceKind::Pawn), Some(Side::White)) => '♙',
        (Some(PieceKind::King), Some(Side::Black)) => '♚',
        (Some(PieceKind::Queen), Some(Side::Black)) => '♛',
        (Some(PieceKind::Rook), Some(Side::Black)) => '♜',
        (Some(PieceKind::Bishop), Some(Side::Black)) => '♝',
        (Some(PieceKind::Knight), Some(Side::Black)) => '♞',
        (Some(PieceKind::Pawn), Some(Side::Black)) => '♟',
        _ => ' ',
    }
}

/// The cells of one rank from `file` rightward, each drawn as
/// `space, glyph, space, bar`.
pub open spec fn grid_cells(b: chess::Board, rank: int, file: int) -> Seq<char>
    decreases 8 - file,
{
    if file < 0 || file >= 8 {
        Seq::empty()
    } else {
        let sq = Square::spec_make(file as u8, rank as u8);
        " "@ + seq![glyph(piece_at(b, sq), color_at(b, sq))] + " │"@ + grid_cells(
            b,
            rank,
            file + 1,
        )
    }
}

/// One rank's row: its number, the cells, and the number again.
pub open spec fn grid_row(b: chess::Board, rank: int) -> Seq<char> {
    dec_spec(rank + 1) + " │"@ + grid_cells(b, rank, 0) + " "@ + dec_spec(rank + 1)
}

/// The rows from `rank` down to rank 0, with a ruled separator between
/// neighbouring rows.
pub open spec fn grid_rows(b: chess::Board, rank: int) -> Seq<char>
    decreases rank + 1,
{
    if rank < 0 {
        Seq::empty()
    } else {
        grid_row(b, rank) + (if rank > 0 {
            "\n  ├───┼───┼───┼───┼───┼───┼───┼───┤\n"@
        } else {
            Seq::empty()
        }) + grid_rows(b, rank - 1)
    }
}

/// The name of a side.
pub open spec fn side_name_of(s: Side) -> Seq<char> {
    if s == Side::White {
        "White"@
    } else {
        "Black"@
    }
}

/// The whole board display: the file legend and top border, the ruled grid
/// from rank 8 down to rank 1, the bottom border and the legend again,
/// whose turn it is, and a warning when the side to move is in check.
pub open spec fn board_grid_chars(b: chess::Board) -> Seq<char> {
    "    a   b   c   d   e   f   g   h\n  ┌───┬───┬───┬───┬───┬───┬───┬───┐\n"@ + grid_rows(b, 7)
        + "\n  └───┴───┴───┴───┴───┴───┴───┴───┘\n    a   b   c   d   e   f   g   h\n\n"@
        + side_name_of(side_of(b)) + "'s turn to move\n"@ + (if checkers_of(b) != 0 {
        "⚠️  "@ + side_name_of(side_of(b)) + " is in check!\n"@
    } else {
        Seq::empty()
    })
}

fn glyph_char(pk: Option<PieceKind>, pc: Option<Side>) -> (r: char)
    ensures
        r == glyph(pk, pc),
{
    match (pk, pc) {
        (Some(PieceKind::King), Some(Side::White)) => '♔',
        (Some(PieceKind::Queen), Some(Side::White)) => '♕',
        (Some(PieceKind::Rook), Some(Side::White)) => '♖',
        (Some(PieceKind::Bishop), Some(Side::White)) => '♗',
        (Some(PieceKind::Knight), Some(Side::White)) => '♘',
        (Some(PieceKind::Pawn), Some(Side::White)) => '♙',
        (Some(PieceKind::King), Some(Side::Black)) => '♚',
        (Some(PieceKind::Queen), Some(Side::Black)) => '♛',
        (Some(PieceKind::Rook), Some(Side::Black)) => '♜',
        (Some(PieceKind::Bishop), Some(Side::Black)) => '♝',
        (Some(PieceKind::Knight), Some(Side::Black)) => '♞',
        (Some(PieceKind::Pawn), Some(Side::Black)) => '♟',
        _ => ' ',
    }
}

/// One rank's row of the grid.
fn grid_row_text(b: &chess::Board, rank: u8) -> (r: String)
    requires
        rank < 8,
    ensures
        r@ == grid_row(*b, rank as int),
{
    let mut out = String::new();
    let digits = u64_text((rank + 1) as u64);
    out.append(digits.as_str());
    out.append(" │");
    let mut file: u8 = 0;
    while file < 8
        invariant
            file <= 8,
            rank < 8,
            out@ + grid_cells(*b, rank as int, file as int) =~= dec_spec(rank as int + 1) + " │"@
                + grid_cells(*b, rank as int, 0),
        decreases 8 - file,
    {
        let sq = Square::make(file, rank);
        let pk = crate::oracle::board_piece_on(b, sq);
        let pc = crate::oracle::board_color_on(b, sq);
        out.append(" ");
        crate::text::push_char(&mut out, glyph_char(pk, pc));
        out.append(" │");
        file = file + 1;
        proof {
            assert(out@ + grid_cells(*b, rank as int, file as int) =~= dec_spec(rank as int + 1)
                + " │"@ + grid_cells(*b, rank as int, 0));
        }
    }
    out.append(" ");
    out.append(digits.as_str());
    proof {
        assert(out@ =~= grid_row(*b, rank as int));
    }
    out
}

/// Render the board the way the `show` command draws it.
pub fn board_text(b: &chess::Board) -> (r: String)
    ensures
        r@ == board_grid_chars(*b),
{
    let ghost header = "    a   b   c   d   e   f   g   h\n  ┌───┬───┬───┬───┬───┬───┬───┬───┐\n"@;
    let mut out = String::new();
    out.append("    a   b   c   d   e   f   g   h\n  ┌───┬───┬───┬───┬───┬───┬───┬───┐\n");
    let mut r: u8 = 8;
    while r > 0
        invariant
            r <= 8,
            header == "    a   b   c   d   e   f   g   h\n  ┌───┬───┬───┬───┬───┬───┬───┬───┐\n"@,
            out@ + grid_rows(*b, r as int - 1) =~= header + grid_rows(*b, 7),
        decreases r,
    {
        let row = grid_row_text(b, r - 1);
        out.append(row.as_str());
        if r - 1 > 0 {
            out.append("\n  ├───┼───┼───┼───┼───┼───┼───┼───┤\n");
        }
        r = r - 1;
        proof {
            assert(out@ + grid_rows(*b, r as int - 1) =~= header + grid_rows(*b, 7));
        }
    }
    out.append("\n  └───┴───┴───┴───┴───┴───┴───┴───┘\n    a   b   c   d   e   f   g   h\n\n");
    let side = crate::oracle::board_side(b);
    let name = if side == Side::White {
        "White"
    } else {
        "Black"
    };
    out.append(name);
    out.append("'s turn to move\n");
    if crate::oracle::board_checkers(b) != 0 {
        out.append("⚠️  ");
        out.append(name);
        out.append(" is in check!\n");
    }
    proof {
        assert(out@ =~= board_grid_chars(*b));
    }
    out
}

} // verus!
