//! A streaming chat client and the logic of its terminal front end.
//!
//! `llm` holds the message model and the error vocabulary. `openai` holds
//! the provider client: the two wires, the framing and decoding of
//! server-sent events, wire selection with fallback, and the supervisor
//! that retries, watches for idleness and ends the stream. `tui` holds the
//! state of the front end and every decision it takes. Transport, files and
//! the terminal are the caller's part.

pub mod clusters;
pub mod find;
pub mod llm;
pub mod num;
pub mod openai;
pub mod text;
pub mod tui;

use vstd::prelude::*;

verus! {

/// Liveness marker of the core.
pub fn ping() -> (r: &'static str)
    ensures
        r@ == "core-ok"@,
{
    "core-ok"
}

} // verus!
