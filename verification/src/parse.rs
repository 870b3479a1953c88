//! Move text and command vocabulary. A move is written as origin square plus
//! destination square (`e2e4`), with an optional promotion letter (`e7e8q`);
//! everything else a player types is either a known command word or is
//! reported as a malformed move.

use vstd::prelude::*;

use crate::text::{dec_spec, lower_spec, push_char, str_eq, to_ascii_lower, trim, trim_spec,
    u64_text};
use crate::types::{Command, Move, MoveTextError, PieceKind, Square};

verus! {

/// The file index named by a coordinate character `a`..`h`.
pub open spec fn file_of_char(c: char) -> Option<u8> {
    if 97 <= c as u32 && c as u32 <= 104 {
        Some(((c as u32) - 97) as u8)
    } else {
        None
    }
}

/// The rank index named by a coordinate character `1`..`8`.
pub open spec fn rank_of_char(c: char) -> Option<u8> {
    if 49 <= c as u32 && c as u32 <= 56 {
        Some(((c as u32) - 49) as u8)
    } else {
        None
    }
}

/// The square named by a file character and a rank character.
pub open spec fn square_of_chars(cf: char, cr: char) -> Option<Square> {
    match (file_of_char(cf), rank_of_char(cr)) {
        (Some(f), Some(r)) => Some(Square::spec_make(f, r)),
        _ => None,
    }
}

/// The promotion piece named by a letter, restricted to `q`, `r`, `b`, `n`.
pub open spec fn promotion_of_char(c: char) -> Option<PieceKind> {
    if c == 'q' {
        Some(PieceKind::Queen)
    } else if c == 'r' {
        Some(PieceKind::Rook)
    } else if c == 'b' {
        Some(PieceKind::Bishop)
    } else if c == 'n' {
        Some(PieceKind::Knight)
    } else {
        None
    }
}

/// How a line of text reads as a move: four characters are two squares,
/// five add a promotion letter, and any other length is malformed. Each
/// error names the first part that failed.
pub open spec fn parse_move_spec(s: Seq<char>) -> Result<Move, MoveTextError> {
    if s.len() != 4 && s.len() != 5 {
        Err(MoveTextError::Length)
    } else if square_of_chars(s[0], s[1]) is None {
        Err(MoveTextError::FromSquare)
    } else if square_of_chars(s[2], s[3]) is None {
        Err(MoveTextError::ToSquare)
    } else if s.len() == 5 && promotion_of_char(s[4]) is None {
        Err(MoveTextError::Promotion)
    } else {
        Ok(
            Move {
                from: square_of_chars(s[0], s[1])->Some_0,
                to: square_of_chars(s[2], s[3])->Some_0,
                promotion: if s.len() == 5 {
                    Some(promotion_of_char(s[4])->Some_0)
                } else {
                    None
                },
            },
        )
    }
}

fn square_of(cf: char, cr: char) -> (r: Option<Square>)
    ensures
        r == square_of_chars(cf, cr),
        r is Some ==> r->Some_0.wf(),
{
    let f = cf as u32;
    let rk = cr as u32;
    if 97 <= f && f <= 104 && 49 <= rk && rk <= 56 {
        Some(Square::make((f - 97) as u8, (rk - 49) as u8))
    } else {
        None
    }
}

/// Parse a move written as from-square, to-square and optional promotion
/// letter.
pub fn parse_move_text(s: &str) -> (r: Result<Move, MoveTextError>)
    ensures
        r == parse_move_spec(s@),
        r is Ok ==> r->Ok_0.wf(),
{
    let n = s.unicode_len();
    if n != 4 && n != 5 {
        return Err(MoveTextError::Length);
    }
    let from = match square_of(s.get_char(0), s.get_char(1)) {
        Some(sq) => sq,
        None => {
            return Err(MoveTextError::FromSquare);
        },
    };
    let to = match square_of(s.get_char(2), s.get_char(3)) {
        Some(sq) => sq,
        None => {
            return Err(MoveTextError::ToSquare);
        },
    };
    let promotion = if n == 5 {
        let c = s.get_char(4);
        if c == 'q' {
            Some(PieceKind::Queen)
        } else if c == 'r' {
            Some(PieceKind::Rook)
        } else if c == 'b' {
            Some(PieceKind::Bishop)
        } else if c == 'n' {
            Some(PieceKind::Knight)
        } else {
            return Err(MoveTextError::Promotion);
        }
    } else {
        None
    };
    Ok(Move { from, to, promotion })
}

/// The coordinate character of a file index.
pub open spec fn file_char(f: u8) -> char {
    ((97 + f) as u8) as char
}

/// The coordinate character of a rank index.
pub open spec fn rank_char(r: u8) -> char {
    ((49 + r) as u8) as char
}

/// A square written as file and rank characters.
pub open spec fn square_chars(sq: Square) -> Seq<char> {
    seq![file_char(sq.spec_file()), rank_char(sq.spec_rank())]
}

/// A move written the way it is parsed: squares, then promotion letter.
pub open spec fn move_chars(m: Move) -> Seq<char> {
    square_chars(m.from) + square_chars(m.to) + match m.promotion {
        Some(PieceKind::Queen) => seq!['q'],
        Some(PieceKind::Rook) => seq!['r'],
        Some(PieceKind::Bishop) => seq!['b'],
        Some(PieceKind::Knight) => seq!['n'],
        Some(PieceKind::Pawn) => seq!['p'],
        Some(PieceKind::King) => seq!['k'],
        None => Seq::empty(),
    }
}

fn push_square(out: &mut String, sq: Square)
    ensures
        final(out)@ == old(out)@ + square_chars(sq),
{
    push_char(out, ((97 + sq.file()) as u8) as char);
    push_char(out, ((49 + sq.rank()) as u8) as char);
    proof {
        assert(final(out)@ =~= old(out)@ + square_chars(sq));
    }
}

/// Write a square as coordinate text.
pub fn square_text(sq: Square) -> (r: String)
    ensures
        r@ == square_chars(sq),
{
    let mut out = String::new();
    push_square(&mut out, sq);
    proof {
        assert(out@ =~= square_chars(sq));
    }
    out
}

/// Write a move as coordinate text.
pub fn move_text(m: &Move) -> (r: String)
    ensures
        r@ == move_chars(*m),
{
    let mut out = String::new();
    push_square(&mut out, m.from);
    push_square(&mut out, m.to);
    match m.promotion {
        Some(PieceKind::Queen) => push_char(&mut out, 'q'),
        Some(PieceKind::Rook) => push_char(&mut out, 'r'),
        Some(PieceKind::Bishop) => push_char(&mut out, 'b'),
        Some(PieceKind::Knight) => push_char(&mut out, 'n'),
        Some(PieceKind::Pawn) => push_char(&mut out, 'p'),
        Some(PieceKind::King) => push_char(&mut out, 'k'),
        None => (),
    }
    proof {
        assert(out@ =~= move_chars(*m));
    }
    out
}

/// The in-session command named by a normalized input line; anything not in
/// the vocabulary is an attempted move.
pub open spec fn classify_spec(s: Seq<char>) -> Command {
    if s == "q"@ || s == "quit"@ {
        Command::Quit
    } else if s == "h"@ || s == "help"@ {
        Command::Help
    } else if s == "moves"@ {
        Command::Moves
    } else if s == "history"@ {
        Command::History
    } else if s == "show"@ || s == "showboard"@ || s == "board"@ {
        Command::Show
    } else if s == "fen"@ {
        Command::Fen
    } else if s == "undo"@ || s == "u"@ {
        Command::Undo
    } else if s == "redo"@ || s == "re"@ {
        Command::Redo
    } else {
        Command::Play
    }
}

/// Classify a normalized input line against the command vocabulary.
pub fn classify_command(s: &str) -> (r: Command)
    ensures
        r == classify_spec(s@),
{
    if str_eq(s, "q") || str_eq(s, "quit") {
        Command::Quit
    } else if str_eq(s, "h") || str_eq(s, "help") {
        Command::Help
    } else if str_eq(s, "moves") {
        Command::Moves
    } else if str_eq(s, "history") {
        Command::History
    } else if str_eq(s, "show") || str_eq(s, "showboard") || str_eq(s, "board") {
        Command::Show
    } else if str_eq(s, "fen") {
        Command::Fen
    } else if str_eq(s, "undo") || str_eq(s, "u") {
        Command::Undo
    } else if str_eq(s, "redo") || str_eq(s, "re") {
        Command::Redo
    } else {
        Command::Play
    }
}

/// Trim and lowercase a raw input line, as every turn handler does before
/// classifying it.
pub fn normalize_input(s: &str) -> (r: String)
    ensures
        r@ == lower_spec(trim_spec(s@)),
{
    let t = trim(s);
    to_ascii_lower(t.as_str())
}

/// A natural number written in decimal.
pub fn usize_text(n: usize) -> (r: String)
    ensures
        r@ == dec_spec(n as int),
{
    u64_text(n as u64)
}

} // verus!
