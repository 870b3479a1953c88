//! Core of an interactive chess session against an external move-search
//! engine: move-text parsing, session state with snapshot history and
//! undo/redo, notation rendering, and the line-oriented engine protocol.
//!
//! The rules engine (legal-move enumeration, move application, terminal
//! detection) is the `chess` crate, consumed through a narrow trusted
//! interface in [`oracle`]; everything layered on top of it is verified.

pub mod display;
pub mod engine;
pub mod laws;
pub mod notation;
pub mod oracle;
pub mod parse;
pub mod session;
pub mod text;
pub mod types;
