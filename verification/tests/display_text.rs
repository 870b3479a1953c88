use std::str::FromStr;

use chess_cli::display::{board_text, fen_breakdown_text, help_text, move_list_text, result_message};
use chess_cli::oracle::initial_board;
use chess_cli::parse::parse_move_text;
use chess_cli::types::{GameOutcome, Side};

#[test]
fn result_messages_follow_the_human_color() {
    assert_eq!(
        result_message(GameOutcome::WhiteCheckmates, Side::White),
        "Congratulations! You won by checkmate!"
    );
    assert_eq!(
        result_message(GameOutcome::WhiteCheckmates, Side::Black),
        "Computer wins by checkmate!"
    );
    assert_eq!(
        result_message(GameOutcome::BlackCheckmates, Side::Black),
        "Congratulations! You won by checkmate!"
    );
    assert_eq!(
        result_message(GameOutcome::BlackCheckmates, Side::White),
        "Computer wins by checkmate!"
    );
    assert_eq!(result_message(GameOutcome::WhiteResigns, Side::White), "White resigns!");
    assert_eq!(result_message(GameOutcome::BlackResigns, Side::White), "Black resigns!");
    assert_eq!(
        result_message(GameOutcome::Stalemate, Side::White),
        "Game ended in stalemate - it's a draw!"
    );
    assert_eq!(result_message(GameOutcome::DrawAccepted, Side::White), "Game ended in a draw!");
    assert_eq!(
        result_message(GameOutcome::DrawDeclared, Side::White),
        "Game ended in a draw (insufficient material or repetition)!"
    );
}

#[test]
fn help_text_lists_the_vocabulary() {
    let text = help_text();
    assert!(text.starts_with("=== Chess CLI Help ==="));
    assert!(text.contains("'moves' - Show all legal moves"));
    assert!(text.contains("'q' or 'quit' - Quit the game"));
    assert!(text.contains("e7e8q"));
    assert!(text.contains("White pieces: ♔♕♖♗♘♙  Black pieces: ♚♛♜♝♞♟"));
}

#[test]
fn move_list_wraps_every_eight_moves() {
    let moves: Vec<_> = ["e2e4", "d2d4", "g1f3"]
        .iter()
        .map(|t| parse_move_text(t).unwrap())
        .collect();
    assert_eq!(move_list_text(&moves), "Legal moves:\ne2e4 d2d4 g1f3 \n");
    let nine: Vec<_> = std::iter::repeat(parse_move_text("e2e4").unwrap()).take(9).collect();
    let text = move_list_text(&nine);
    // One break in the header, one after the eighth move, one at the end.
    assert_eq!(text.matches('\n').count(), 3);
}

#[test]
fn fen_breakdown_labels_the_fields() {
    let text = fen_breakdown_text("rnbqkbnr/pppppppp/8/8/8/8/PPPPPPPP/RNBQKBNR w KQkq - 0 1");
    assert!(text.starts_with("=== Current Position FEN ===\n"));
    assert!(text.contains("Position:       rnbqkbnr/pppppppp/8/8/8/8/PPPPPPPP/RNBQKBNR\n"));
    assert!(text.contains("Active color:   w (White to move)\n"));
    assert!(text.contains("Castling:       KQkq (K=White kingside"));
    assert!(text.contains("En passant:     - (No en passant target)\n"));
    assert!(text.contains("Halfmove clock: 0 (moves since last pawn move or capture)\n"));
    assert!(text.contains("Fullmove:       1 (increments after Black's move)\n"));
    assert!(text.ends_with("=============================\n"));
}

#[test]
fn fen_breakdown_black_to_move() {
    let text = fen_breakdown_text("8/8/8/8/8/8/8/k6K b - e3 5 42");
    assert!(text.contains("Active color:   b (Black to move)\n"));
    assert!(text.contains("Castling:       - (No castling available)\n"));
    assert!(text.contains("En passant:     e3 (En passant target square)\n"));
}

#[test]
fn fen_breakdown_with_too_few_fields_is_shown_bare() {
    let text = fen_breakdown_text("only three fields");
    assert_eq!(
        text,
        "=== Current Position FEN ===\nonly three fields\n=============================\n"
    );
}

#[test]
fn board_text_draws_the_initial_position() {
    let text = board_text(&initial_board());
    let ruler = "  ├───┼───┼───┼───┼───┼───┼───┼───┤\n";
    let mut expected = String::new();
    expected.push_str("    a   b   c   d   e   f   g   h\n");
    expected.push_str("  ┌───┬───┬───┬───┬───┬───┬───┬───┐\n");
    expected.push_str("8 │ ♜ │ ♞ │ ♝ │ ♛ │ ♚ │ ♝ │ ♞ │ ♜ │ 8\n");
    expected.push_str(ruler);
    expected.push_str("7 │ ♟ │ ♟ │ ♟ │ ♟ │ ♟ │ ♟ │ ♟ │ ♟ │ 7\n");
    expected.push_str(ruler);
    expected.push_str("6 │   │   │   │   │   │   │   │   │ 6\n");
    expected.push_str(ruler);
    expected.push_str("5 │   │   │   │   │   │   │   │   │ 5\n");
    expected.push_str(ruler);
    expected.push_str("4 │   │   │   │   │   │   │   │   │ 4\n");
    expected.push_str(ruler);
    expected.push_str("3 │   │   │   │   │   │   │   │   │ 3\n");
    expected.push_str(ruler);
    expected.push_str("2 │ ♙ │ ♙ │ ♙ │ ♙ │ ♙ │ ♙ │ ♙ │ ♙ │ 2\n");
    expected.push_str(ruler);
    expected.push_str("1 │ ♖ │ ♘ │ ♗ │ ♕ │ ♔ │ ♗ │ ♘ │ ♖ │ 1\n");
    expected.push_str("  └───┴───┴───┴───┴───┴───┴───┴───┘\n");
    expected.push_str("    a   b   c   d   e   f   g   h\n\n");
    expected.push_str("White's turn to move\n");
    assert_eq!(text, expected);
}

#[test]
fn board_text_warns_on_check() {
    let board = chess::Board::from_str("rnb1kbnr/pppp1ppp/8/4p3/6P1/5P2/PPPPP2P/RNBQKBNR w KQkq - 1 3")
        .unwrap();
    // Not in check yet.
    assert!(!board_text(&board).contains("is in check!"));
    let checked = chess::Board::from_str("rnb1kbnr/pppp1ppp/8/4p3/6Pq/5P2/PPPPP2P/RNBQKBNR w KQkq - 1 3")
        .unwrap();
    let text = board_text(&checked);
    assert!(text.contains("⚠️  White is in check!\n"));
}
