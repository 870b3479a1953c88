use chess_cli::oracle::initial_board;
use chess_cli::parse::parse_move_text;
use chess_cli::session::GameSession;
use chess_cli::types::{GameOutcome, HistoryError, MoveError, MoveTextError, Phase, Side};

fn fresh(human: Side) -> GameSession {
    GameSession::new(initial_board(), human)
}

fn play(s: &mut GameSession, text: &str) {
    s.submit_move_text(text).unwrap();
}

#[test]
fn new_session_shape() {
    let s = fresh(Side::White);
    assert_eq!(s.snapshot_count(), 1);
    assert_eq!(s.history_count(), 0);
    assert_eq!(s.cursor_index(), 0);
    assert_eq!(s.human_color(), Side::White);
    assert_eq!(s.side_to_move(), Side::White);
}

#[test]
fn snapshots_stay_one_ahead_of_history_while_playing() {
    let mut s = fresh(Side::White);
    for text in ["e2e4", "e7e5", "g1f3", "b8c6", "f1c4"] {
        play(&mut s, text);
        assert_eq!(s.snapshot_count(), s.history_count() + 1);
        assert_eq!(s.cursor_index(), s.history_count());
    }
}

#[test]
fn illegal_move_rejected_without_state_change() {
    let mut s = fresh(Side::White);
    let fen_before = s.fen_text();
    // Structurally valid, but a pawn cannot reach e5 in one step.
    assert_eq!(s.submit_move_text("e2e5"), Err(MoveError::Illegal));
    assert_eq!(s.snapshot_count(), 1);
    assert_eq!(s.history_count(), 0);
    assert_eq!(s.cursor_index(), 0);
    assert_eq!(s.fen_text(), fen_before);
}

#[test]
fn malformed_move_rejected_without_state_change() {
    let mut s = fresh(Side::White);
    assert_eq!(
        s.submit_move_text("e2"),
        Err(MoveError::Format(MoveTextError::Length))
    );
    assert_eq!(
        s.submit_move_text("z2e4"),
        Err(MoveError::Format(MoveTextError::FromSquare))
    );
    assert_eq!(s.snapshot_count(), 1);
    assert_eq!(s.cursor_index(), 0);
}

#[test]
fn engine_move_is_validated_by_the_session() {
    let mut s = fresh(Side::Black);
    let illegal = parse_move_text("e2e5").unwrap();
    assert_eq!(s.submit_engine_move(illegal), Err(MoveError::Illegal));
    assert_eq!(s.cursor_index(), 0);
    let legal = parse_move_text("e2e4").unwrap();
    assert_eq!(s.submit_engine_move(legal), Ok(()));
    assert_eq!(s.cursor_index(), 1);
    assert_eq!(s.snapshot_count(), 2);
}

#[test]
fn undo_on_engine_turn_removes_one_ply() {
    // Human is White; after the human's move it is the engine's turn.
    let mut s = fresh(Side::White);
    play(&mut s, "e2e4");
    assert_eq!(s.side_to_move(), Side::Black);
    let popped = s.undo().unwrap();
    assert_eq!(popped.len(), 1);
    assert_eq!(s.cursor_index(), 0);
    assert_eq!(s.history_count(), 0);
    // Snapshots are retained for redo.
    assert_eq!(s.snapshot_count(), 2);
    assert_eq!(s.side_to_move(), Side::White);
}

#[test]
fn undo_on_human_turn_removes_two_plies() {
    let mut s = fresh(Side::White);
    play(&mut s, "e2e4");
    let reply = parse_move_text("e7e5").unwrap();
    s.submit_engine_move(reply).unwrap();
    assert_eq!(s.cursor_index(), 2);
    assert_eq!(s.side_to_move(), Side::White);
    let popped = s.undo().unwrap();
    assert_eq!(popped.len(), 2);
    // Newest first: the engine's reply, then the human's move.
    assert_eq!(popped[0].mover, Side::Black);
    assert_eq!(popped[1].mover, Side::White);
    assert_eq!(s.cursor_index(), 0);
    assert_eq!(s.history_count(), 0);
    assert_eq!(s.snapshot_count(), 3);
    assert_eq!(s.side_to_move(), Side::White);
}

#[test]
fn undo_fails_at_the_beginning() {
    let mut s = fresh(Side::White);
    assert!(matches!(s.undo(), Err(HistoryError::PastBeginning)));
    assert_eq!(s.cursor_index(), 0);
}

#[test]
fn undo_then_redo_restores_position() {
    let mut s = fresh(Side::White);
    play(&mut s, "e2e4");
    let reply = parse_move_text("e7e5").unwrap();
    s.submit_engine_move(reply).unwrap();
    let cursor_before = s.cursor_index();
    let fen_before = s.fen_text();
    s.undo().unwrap();
    assert_ne!(s.cursor_index(), cursor_before);
    let advanced = s.redo().unwrap();
    assert_eq!(advanced, 2);
    assert_eq!(s.cursor_index(), cursor_before);
    assert_eq!(s.fen_text(), fen_before);
}

#[test]
fn undo_then_redo_restores_position_after_single_ply() {
    let mut s = fresh(Side::White);
    play(&mut s, "e2e4");
    let cursor_before = s.cursor_index();
    let fen_before = s.fen_text();
    s.undo().unwrap();
    let advanced = s.redo().unwrap();
    assert_eq!(advanced, 1);
    assert_eq!(s.cursor_index(), cursor_before);
    assert_eq!(s.fen_text(), fen_before);
}

#[test]
fn redo_fails_at_latest_snapshot() {
    let mut s = fresh(Side::White);
    assert_eq!(s.redo(), Err(HistoryError::AtLatest));
    play(&mut s, "e2e4");
    assert_eq!(s.redo(), Err(HistoryError::AtLatest));
}

#[test]
fn new_move_after_undo_discards_the_branch() {
    let mut s = fresh(Side::White);
    play(&mut s, "e2e4");
    let reply = parse_move_text("e7e5").unwrap();
    s.submit_engine_move(reply).unwrap();
    assert_eq!(s.snapshot_count(), 3);
    s.undo().unwrap();
    assert_eq!(s.cursor_index(), 0);
    assert_eq!(s.snapshot_count(), 3);
    play(&mut s, "d2d4");
    // The two snapshots beyond the cursor were discarded before the append.
    assert_eq!(s.snapshot_count(), 2);
    assert_eq!(s.cursor_index(), 1);
    assert_eq!(s.history_count(), 1);
    // The discarded branch can no longer be redone.
    assert_eq!(s.redo(), Err(HistoryError::AtLatest));
    assert_eq!(s.snapshot_count(), s.history_count() + 1);
}

#[test]
fn phase_follows_turns_and_outcome() {
    let mut s = fresh(Side::White);
    assert_eq!(s.phase(), Phase::HumanTurn);
    play(&mut s, "f2f3");
    assert_eq!(s.phase(), Phase::EngineTurn);
    s.submit_engine_move(parse_move_text("e7e5").unwrap()).unwrap();
    play(&mut s, "g2g4");
    s.submit_engine_move(parse_move_text("d8h4").unwrap()).unwrap();
    // White is checkmated.
    assert_eq!(s.phase(), Phase::Over(GameOutcome::BlackCheckmates));
}

#[test]
fn history_entries_record_mover_and_description() {
    let mut s = fresh(Side::White);
    play(&mut s, "e2e4");
    s.submit_engine_move(parse_move_text("e7e5").unwrap()).unwrap();
    let first = s.history_entry(0);
    assert_eq!(first.mover, Side::White);
    assert_eq!(first.description, "White (You): P e2->e4");
    let second = s.history_entry(1);
    assert_eq!(second.mover, Side::Black);
    assert_eq!(second.description, "Black (Computer): p e7->e5");
}

#[test]
fn capture_shows_in_description() {
    let mut s = fresh(Side::White);
    play(&mut s, "e2e4");
    s.submit_engine_move(parse_move_text("d7d5").unwrap()).unwrap();
    play(&mut s, "e4d5");
    assert_eq!(s.history_entry(2).description, "White (You): P e4->d5 captures Pawn");
}

#[test]
fn legal_move_listing_has_twenty_opening_moves() {
    let s = fresh(Side::White);
    let moves = s.legal_moves();
    assert_eq!(moves.len(), 20);
}

#[test]
fn fen_of_initial_position() {
    let s = fresh(Side::White);
    assert_eq!(s.fen_text(), "rnbqkbnr/pppppppp/8/8/8/8/PPPPPPPP/RNBQKBNR w KQkq - 0 1");
}

#[test]
fn fen_tracks_the_applied_move() {
    let mut s = fresh(Side::White);
    play(&mut s, "e2e4");
    assert_eq!(s.fen_text(), "rnbqkbnr/pppppppp/8/8/4P3/8/PPPP1PPP/RNBQKBNR b KQkq - 0 1");
}

#[test]
fn redo_restores_positions_but_not_history_entries() {
    let mut s = fresh(Side::White);
    play(&mut s, "e2e4");
    s.submit_engine_move(parse_move_text("e7e5").unwrap()).unwrap();
    s.undo().unwrap();
    s.redo().unwrap();
    // The cursor is back at the latest position, but the entries popped by
    // the undo are not reconstructed.
    assert_eq!(s.cursor_index(), 2);
    assert_eq!(s.history_count(), 0);
    // A later undo from this state has no entries left to pop.
    let popped = s.undo().unwrap();
    assert_eq!(popped.len(), 0);
    assert_eq!(s.cursor_index(), 0);
}
