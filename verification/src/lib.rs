//! CorgiTerm: the terminal model (cells, grid, selection, escape-sequence
//! handling), keyboard hints, inline images, configuration data and the
//! supporting pieces of the terminal front end, with their contracts.

pub mod cell;
pub mod ansi;
pub mod grid;
pub mod emulator;
pub mod terminal;
pub mod engine;
pub mod parser;
pub mod selection;
pub mod text;
pub mod hints;
pub mod fonts;
pub mod ascii_art;
pub mod ssh;
pub mod order;
pub mod clock;
pub mod snippets;
pub mod themes;
pub mod images;
pub mod plugins;
pub mod models;
pub mod model_lists;
pub mod providers;
pub mod pty;
pub mod error;

use vstd::prelude::*;
use crate::error::CoreError;

verus! {

/// Starts the core engine with its default settings; it always succeeds.
pub fn init() -> (r: Result<(), CoreError>)
    ensures
        r is Ok,
{
    Ok(())
}

} // verus!
pub mod learning;
pub mod history;
pub mod tally;
pub mod ai_history;
pub mod safe_mode;
pub mod ids;
pub mod session;
pub mod recording;
pub mod ai;
pub mod ai_learning;
pub mod conversation;
pub mod mcp;
pub mod shortcuts;
pub mod config;
