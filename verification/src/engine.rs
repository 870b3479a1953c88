//! The line-oriented protocol to the move-search subprocess: the commands
//! the session sends, and the decisions taken on each line the process
//! emits. The process I/O itself lives outside the library; callers feed
//! each received line (or the end of the stream) into a step function and
//! act on the verdict, so every protocol decision is made here.

use vstd::prelude::*;

use crate::parse::{parse_move_spec, parse_move_text};
use crate::text::{dec_spec, is_prefix, split_ws, split_ws_spec, starts_with, str_eq, trim,
    trim_spec, u64_text};
use crate::types::Move;

verus! {

/// Why a search request failed.
#[derive(Clone, Copy, PartialEq, Eq, Structural, Debug)]
pub enum EngineProtocolError {
    /// The process closed its output stream before a best-move line came.
    StreamClosed,
    /// The best-move line's move token is not a syntactically valid move.
    BadMoveToken,
}

/// The verdict on one line while awaiting an acknowledgement token.
#[derive(Clone, Copy, PartialEq, Eq, Structural, Debug)]
pub enum AwaitStep {
    /// The awaited token arrived.
    Satisfied,
    /// An unsolicited line; keep reading.
    KeepWaiting,
    /// The stream ended without the token.
    Closed,
}

/// The verdict on one line while awaiting the best-move report.
#[derive(Clone, Copy, PartialEq, Eq, Structural, Debug)]
pub enum SearchStep {
    /// The best-move line arrived and its move token parsed.
    Found(Move),
    /// An informational line; keep reading.
    KeepWaiting,
    /// The search cannot deliver a move.
    Failed(EngineProtocolError),
}

/// The capability-negotiation command opening the handshake.
pub fn uci_command() -> (r: String)
    ensures
        r@ == "uci"@,
{
    let mut r = String::new();
    r.append("uci");
    r
}

/// The acknowledgement token awaited after the negotiation command.
pub fn uci_ack_token() -> (r: String)
    ensures
        r@ == "uciok"@,
{
    let mut r = String::new();
    r.append("uciok");
    r
}

/// The readiness-check command, the handshake's second step.
pub fn isready_command() -> (r: String)
    ensures
        r@ == "isready"@,
{
    let mut r = String::new();
    r.append("isready");
    r
}

/// The acknowledgement token awaited after the readiness check.
pub fn ready_ack_token() -> (r: String)
    ensures
        r@ == "readyok"@,
{
    let mut r = String::new();
    r.append("readyok");
    r
}

/// A strength level forced into the valid range.
pub open spec fn clamp_level(level: u8) -> u8 {
    if level < 1 {
        1
    } else if level > 20 {
        20
    } else {
        level
    }
}

/// The configuration command setting the engine's strength, with the level
/// clamped to its valid range; fire-and-forget, no acknowledgement awaited.
pub fn skill_command(level: u8) -> (r: String)
    ensures
        r@ == "setoption name Skill Level value "@ + dec_spec(clamp_level(level) as int),
{
    let clamped: u8 = if level < 1 {
        1
    } else if level > 20 {
        20
    } else {
        level
    };
    let mut r = String::new();
    r.append("setoption name Skill Level value ");
    let digits = u64_text(clamped as u64);
    r.append(digits.as_str());
    r
}

/// The command placing a position, given its serialized (FEN) text.
pub fn position_command(fen: &str) -> (r: String)
    ensures
        r@ == "position fen "@ + fen@,
{
    let mut r = String::new();
    r.append("position fen ");
    r.append(fen);
    r
}

/// The search command, with the fixed depth budget every request uses.
pub fn go_command() -> (r: String)
    ensures
        r@ == "go depth 10"@,
{
    let mut r = String::new();
    r.append("go depth 10");
    r
}

/// The view of a possibly absent line.
pub open spec fn opt_line_view(line: Option<&str>) -> Option<Seq<char>> {
    match line {
        None => None,
        Some(l) => Some(l@),
    }
}

/// The verdict on one line while awaiting an acknowledgement: the token
/// must stand alone on its line up to surrounding whitespace; other lines
/// are discarded; end of stream is failure.
pub open spec fn await_step_spec(expected: Seq<char>, line: Option<Seq<char>>) -> AwaitStep {
    match line {
        None => AwaitStep::Closed,
        Some(l) => if trim_spec(l) == expected {
            AwaitStep::Satisfied
        } else {
            AwaitStep::KeepWaiting
        },
    }
}

/// Judge one handshake line against the awaited token.
pub fn await_step(expected: &str, line: Option<&str>) -> (r: AwaitStep)
    ensures
        r == await_step_spec(expected@, opt_line_view(line)),
{
    match line {
        None => AwaitStep::Closed,
        Some(l) => {
            let t = trim(l);
            if str_eq(t.as_str(), expected) {
                AwaitStep::Satisfied
            } else {
                AwaitStep::KeepWaiting
            }
        },
    }
}

/// The verdict on one line while awaiting the search result: a line
/// carrying the best-move keyword ends the wait — its second token is the
/// move, and a malformed token is a protocol failure — any other line is
/// discarded, and end of stream is a protocol failure. A keyword line with
/// no second token is discarded like an informational line.
pub open spec fn search_step_spec(line: Option<Seq<char>>) -> SearchStep {
    match line {
        None => SearchStep::Failed(EngineProtocolError::StreamClosed),
        Some(l) => if !is_prefix("bestmove"@, l) {
            SearchStep::KeepWaiting
        } else {
            let toks = split_ws_spec(l);
            if toks.len() < 2 {
                SearchStep::KeepWaiting
            } else {
                match parse_move_spec(toks[1]) {
                    Ok(m) => SearchStep::Found(m),
                    Err(_) => SearchStep::Failed(EngineProtocolError::BadMoveToken),
                }
            }
        },
    }
}

/// Judge one line of search output.
pub fn search_step(line: Option<&str>) -> (r: SearchStep)
    ensures
        r == search_step_spec(opt_line_view(line)),
{
    match line {
        None => SearchStep::Failed(EngineProtocolError::StreamClosed),
        Some(l) => {
            if !starts_with(l, "bestmove") {
                return SearchStep::KeepWaiting;
            }
            let toks = split_ws(l);
            if toks.len() < 2 {
                return SearchStep::KeepWaiting;
            }
            match parse_move_text(toks[1].as_str()) {
                Ok(m) => SearchStep::Found(m),
                Err(_) => SearchStep::Failed(EngineProtocolError::BadMoveToken),
            }
        },
    }
}

/// What a whole search wait yields over the lines the process emits before
/// closing its stream: the verdict of the first line that is not discarded,
/// or `StreamClosed` if every line is discarded or none comes at all.
pub open spec fn search_outcome(lines: Seq<Seq<char>>) -> SearchStep
    decreases lines.len(),
{
    if lines.len() == 0 {
        SearchStep::Failed(EngineProtocolError::StreamClosed)
    } else {
        match search_step_spec(Some(lines[0])) {
            SearchStep::KeepWaiting => search_outcome(lines.drop_first()),
            verdict => verdict,
        }
    }
}

/// Law: when the subprocess closes its output stream without ever emitting
/// a best-move line, the search fails with a protocol error — it neither
/// hangs nor invents a move.
pub proof fn lemma_closed_stream_fails(lines: Seq<Seq<char>>)
    requires
        forall|i: int| 0 <= i < lines.len() ==> !is_prefix("bestmove"@, #[trigger] lines[i]),
    ensures
        search_outcome(lines) == SearchStep::Failed(EngineProtocolError::StreamClosed),
    decreases lines.len(),
{
    if lines.len() > 0 {
        assert(search_step_spec(Some(lines[0])) is KeepWaiting);
        assert(forall|i: int|
            0 <= i < lines.drop_first().len() ==> !is_prefix(
                "bestmove"@,
                #[trigger] lines.drop_first()[i],
            ));
        lemma_closed_stream_fails(lines.drop_first());
    }
}

} // verus!
