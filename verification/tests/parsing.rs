use chess_cli::parse::{classify_command, move_text, normalize_input, parse_move_text, square_text,
    usize_text};
use chess_cli::text::{split_ws, starts_with, str_eq, to_ascii_lower, trim, u64_text};
use chess_cli::types::{Command, Move, MoveTextError, PieceKind, Square};

#[test]
fn parses_plain_move() {
    let m = parse_move_text("e2e4").unwrap();
    assert_eq!(m.from, Square { idx: 12 });
    assert_eq!(m.to, Square { idx: 28 });
    assert_eq!(m.promotion, None);
}

#[test]
fn parses_promotion_move() {
    let m = parse_move_text("e7e8q").unwrap();
    assert_eq!(m.from, Square { idx: 52 });
    assert_eq!(m.to, Square { idx: 60 });
    assert_eq!(m.promotion, Some(PieceKind::Queen));
    assert_eq!(parse_move_text("a2a1n").unwrap().promotion, Some(PieceKind::Knight));
}

#[test]
fn rejects_wrong_length() {
    assert_eq!(parse_move_text("e2"), Err(MoveTextError::Length));
    assert_eq!(parse_move_text(""), Err(MoveTextError::Length));
    assert_eq!(parse_move_text("e2e4q9"), Err(MoveTextError::Length));
}

#[test]
fn rejects_bad_squares() {
    assert_eq!(parse_move_text("z2e4"), Err(MoveTextError::FromSquare));
    assert_eq!(parse_move_text("e9e4"), Err(MoveTextError::FromSquare));
    assert_eq!(parse_move_text("e2i4"), Err(MoveTextError::ToSquare));
    assert_eq!(parse_move_text("e2e0"), Err(MoveTextError::ToSquare));
}

#[test]
fn rejects_bad_promotion_letter() {
    assert_eq!(parse_move_text("e7e8k"), Err(MoveTextError::Promotion));
    assert_eq!(parse_move_text("e7e8p"), Err(MoveTextError::Promotion));
}

#[test]
fn move_text_round_trips() {
    for text in ["e2e4", "g1f3", "e7e8q", "a7a8r", "h2h1b", "b7b8n"] {
        let m = parse_move_text(text).unwrap();
        assert_eq!(move_text(&m), text);
    }
}

#[test]
fn square_text_names_corners() {
    assert_eq!(square_text(Square { idx: 0 }), "a1");
    assert_eq!(square_text(Square { idx: 63 }), "h8");
    assert_eq!(square_text(Square { idx: 12 }), "e2");
}

#[test]
fn classifies_commands() {
    assert_eq!(classify_command("q"), Command::Quit);
    assert_eq!(classify_command("quit"), Command::Quit);
    assert_eq!(classify_command("h"), Command::Help);
    assert_eq!(classify_command("help"), Command::Help);
    assert_eq!(classify_command("moves"), Command::Moves);
    assert_eq!(classify_command("history"), Command::History);
    assert_eq!(classify_command("show"), Command::Show);
    assert_eq!(classify_command("showboard"), Command::Show);
    assert_eq!(classify_command("board"), Command::Show);
    assert_eq!(classify_command("fen"), Command::Fen);
    assert_eq!(classify_command("undo"), Command::Undo);
    assert_eq!(classify_command("u"), Command::Undo);
    assert_eq!(classify_command("redo"), Command::Redo);
    assert_eq!(classify_command("re"), Command::Redo);
    assert_eq!(classify_command("e2e4"), Command::Play);
    assert_eq!(classify_command("resign"), Command::Play);
}

#[test]
fn normalizes_input() {
    assert_eq!(normalize_input("  E2E4 \n"), "e2e4");
    assert_eq!(normalize_input("\tQUIT\r\n"), "quit");
    assert_eq!(normalize_input(""), "");
}

#[test]
fn renders_decimals() {
    assert_eq!(u64_text(0), "0");
    assert_eq!(u64_text(7), "7");
    assert_eq!(u64_text(20), "20");
    assert_eq!(u64_text(105), "105");
    assert_eq!(usize_text(12), "12");
}

#[test]
fn text_utilities() {
    assert_eq!(trim("  hi \n"), "hi");
    assert_eq!(trim("\r\n"), "");
    assert_eq!(to_ascii_lower("BeStMove"), "bestmove");
    assert!(starts_with("bestmove e2e4", "bestmove"));
    assert!(!starts_with("info bestmove", "bestmove"));
    assert!(str_eq("abc", "abc"));
    assert!(!str_eq("abc", "abd"));
    let parts = split_ws("  one  two\tthree \n");
    assert_eq!(parts, vec!["one".to_string(), "two".to_string(), "three".to_string()]);
}

#[test]
fn promotion_letters_cover_the_set() {
    let m = Move { from: Square { idx: 52 }, to: Square { idx: 60 }, promotion: Some(PieceKind::Rook) };
    assert_eq!(move_text(&m), "e7e8r");
}
