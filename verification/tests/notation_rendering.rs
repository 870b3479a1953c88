use std::str::FromStr;

use chess_cli::notation::{algebraic_notation, describe_move, move_is_legal};
use chess_cli::oracle::initial_board;
use chess_cli::parse::parse_move_text;
use chess_cli::session::GameSession;
use chess_cli::types::Side;

fn session_after(moves: &[&str]) -> GameSession {
    let mut s = GameSession::new(initial_board(), Side::White);
    for text in moves {
        s.submit_move_text(text).unwrap();
    }
    s
}

#[test]
fn pawn_move_renders_as_destination() {
    let s = session_after(&["e2e4"]);
    assert_eq!(s.to_algebraic_notation(0), "e4");
}

#[test]
fn knight_move_renders_with_piece_letter() {
    let s = session_after(&["e2e4", "e7e5", "g1f3"]);
    assert_eq!(s.to_algebraic_notation(2), "Nf3");
}

#[test]
fn kingside_castle_renders_as_zeros() {
    let s = session_after(&["e2e4", "e7e5", "g1f3", "b8c6", "f1c4", "f8c5", "e1g1"]);
    assert_eq!(s.to_algebraic_notation(6), "0-0");
}

#[test]
fn capture_renders_with_x() {
    let s = session_after(&["e2e4", "d7d5", "e4d5"]);
    assert_eq!(s.to_algebraic_notation(2), "exd5");
}

#[test]
fn pawn_capture_carries_origin_file() {
    let s = session_after(&["e2e4", "d7d5"]);
    let board = *s.current_board();
    let m = parse_move_text("e4d5").unwrap();
    assert!(move_is_legal(&board, &m));
    assert_eq!(algebraic_notation(&board, &m), "exd5");
}

#[test]
fn checkmate_renders_with_mate_marker() {
    let s = session_after(&["f2f3", "e7e5", "g2g4", "d8h4"]);
    assert_eq!(s.to_algebraic_notation(3), "Qh4#");
}

#[test]
fn check_renders_with_plus_marker() {
    let s = session_after(&["d2d4", "e7e6", "h2h3", "f8b4"]);
    assert_eq!(s.to_algebraic_notation(3), "Bb4+");
}

#[test]
fn two_knights_disambiguate_by_file() {
    let board = chess::Board::from_str("k7/8/8/6N1/8/2N5/8/K7 w - - 0 1").unwrap();
    let from_c3 = parse_move_text("c3e4").unwrap();
    let from_g5 = parse_move_text("g5e4").unwrap();
    assert!(move_is_legal(&board, &from_c3));
    assert!(move_is_legal(&board, &from_g5));
    assert_eq!(algebraic_notation(&board, &from_c3), "Nce4");
    assert_eq!(algebraic_notation(&board, &from_g5), "Nge4");
}

#[test]
fn knights_sharing_a_file_disambiguate_by_rank() {
    let board = chess::Board::from_str("k7/8/8/5N2/8/5N2/8/K7 w - - 0 1").unwrap();
    let lower = parse_move_text("f3d4").unwrap();
    let upper = parse_move_text("f5d4").unwrap();
    assert!(move_is_legal(&board, &lower));
    assert!(move_is_legal(&board, &upper));
    assert_eq!(algebraic_notation(&board, &lower), "N3d4");
    assert_eq!(algebraic_notation(&board, &upper), "N5d4");
}

#[test]
fn lone_knight_needs_no_qualifier() {
    let board = chess::Board::from_str("k7/8/8/8/8/2N5/8/K7 w - - 0 1").unwrap();
    let m = parse_move_text("c3e4").unwrap();
    assert_eq!(algebraic_notation(&board, &m), "Ne4");
}

#[test]
fn promotion_renders_with_equals_suffix() {
    let board = chess::Board::from_str("k7/4P3/8/8/8/8/8/K7 w - - 0 1").unwrap();
    let m = parse_move_text("e7e8q").unwrap();
    assert!(move_is_legal(&board, &m));
    let san = algebraic_notation(&board, &m);
    assert!(san.starts_with("e8=Q"), "got {san}");
}

#[test]
fn promotion_with_capture_through_the_session() {
    let mut s = session_after(&["a2a4", "b7b5", "a4b5", "a7a6", "b5a6", "c7c6", "a6a7", "c6c5"]);
    s.submit_move_text("a7b8q").unwrap();
    assert_eq!(s.to_algebraic_notation(8), "axb8=Q");
    assert_eq!(
        s.history_entry(8).description,
        "White (You): P a7->b8 captures Knight promotes to Queen"
    );
}

#[test]
fn describe_move_names_piece_and_squares() {
    let board = initial_board();
    let m = parse_move_text("e2e4").unwrap();
    assert_eq!(describe_move(&board, &m), "P e2->e4");
    let n = parse_move_text("g1f3").unwrap();
    assert_eq!(describe_move(&board, &n), "N g1->f3");
}

#[test]
fn describe_move_reports_castling() {
    let board =
        chess::Board::from_str("rnbqk2r/pppp1ppp/5n2/2b1p3/2B1P3/5N2/PPPP1PPP/RNBQK2R w KQkq - 4 4")
            .unwrap();
    let m = parse_move_text("e1g1").unwrap();
    assert_eq!(describe_move(&board, &m), "K castles kingside");
}

#[test]
fn describe_move_reports_promotion() {
    let board = chess::Board::from_str("k7/4P3/8/8/8/8/8/K7 w - - 0 1").unwrap();
    let m = parse_move_text("e7e8r").unwrap();
    assert_eq!(describe_move(&board, &m), "P e7->e8 promotes to Rook");
}

#[test]
fn history_text_lists_moves_and_details() {
    let s = session_after(&["e2e4", "e7e5", "g1f3"]);
    let text = s.history_text();
    assert!(text.starts_with("=== Move History (Algebraic Notation) ===\n"));
    assert!(text.contains("1. e4 e5\n"));
    assert!(text.contains("2. Nf3 "));
    assert!(text.contains("1. White (You): P e2->e4\n"));
    assert!(text.contains("3. White (You): N g1->f3\n"));
    let empty = GameSession::new(initial_board(), Side::White);
    assert_eq!(empty.history_text(), "No moves played yet.");
}
