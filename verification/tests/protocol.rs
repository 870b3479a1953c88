use chess_cli::engine::{await_step, go_command, isready_command, position_command, ready_ack_token,
    search_step, skill_command, uci_ack_token, uci_command, AwaitStep, EngineProtocolError,
    SearchStep};
use chess_cli::parse::parse_move_text;

#[test]
fn handshake_commands_and_tokens() {
    assert_eq!(uci_command(), "uci");
    assert_eq!(uci_ack_token(), "uciok");
    assert_eq!(isready_command(), "isready");
    assert_eq!(ready_ack_token(), "readyok");
}

#[test]
fn skill_command_clamps_the_level() {
    assert_eq!(skill_command(5), "setoption name Skill Level value 5");
    assert_eq!(skill_command(0), "setoption name Skill Level value 1");
    assert_eq!(skill_command(20), "setoption name Skill Level value 20");
    assert_eq!(skill_command(99), "setoption name Skill Level value 20");
}

#[test]
fn search_commands() {
    assert_eq!(position_command("some fen here"), "position fen some fen here");
    assert_eq!(go_command(), "go depth 10");
}

#[test]
fn handshake_waits_through_unsolicited_lines() {
    assert_eq!(await_step("uciok", Some("info string hello")), AwaitStep::KeepWaiting);
    assert_eq!(await_step("uciok", Some("uciok\n")), AwaitStep::Satisfied);
    assert_eq!(await_step("uciok", Some("  uciok  ")), AwaitStep::Satisfied);
    assert_eq!(await_step("readyok", Some("uciok")), AwaitStep::KeepWaiting);
    assert_eq!(await_step("readyok", None), AwaitStep::Closed);
}

#[test]
fn search_finds_the_best_move_line() {
    assert_eq!(search_step(Some("info depth 1 score cp 10")), SearchStep::KeepWaiting);
    let expected = parse_move_text("e2e4").unwrap();
    assert_eq!(
        search_step(Some("bestmove e2e4 ponder e7e5")),
        SearchStep::Found(expected)
    );
}

#[test]
fn closed_stream_is_a_protocol_failure() {
    // The subprocess closed its output stream before a best-move line came.
    assert_eq!(
        search_step(None),
        SearchStep::Failed(EngineProtocolError::StreamClosed)
    );
}

#[test]
fn malformed_move_token_is_a_protocol_failure() {
    assert_eq!(
        search_step(Some("bestmove zz99")),
        SearchStep::Failed(EngineProtocolError::BadMoveToken)
    );
    assert_eq!(
        search_step(Some("bestmove (none)")),
        SearchStep::Failed(EngineProtocolError::BadMoveToken)
    );
}

#[test]
fn keyword_line_without_token_is_discarded() {
    assert_eq!(search_step(Some("bestmove")), SearchStep::KeepWaiting);
    assert_eq!(search_step(Some("bestmove   ")), SearchStep::KeepWaiting);
}

#[test]
fn promotion_tokens_parse_from_search_lines() {
    let expected = parse_move_text("e7e8q").unwrap();
    assert_eq!(search_step(Some("bestmove e7e8q")), SearchStep::Found(expected));
}
