//! Streaming passthrough for the OpenAI chat-completions dialect.
//!
//! This client dialect already expects upstream-shaped delta chunks, so the
//! transcoder never parses JSON: it strips the SSE `data: ` framing and
//! re-emits the bare payload (including the `[DONE]` sentinel) one event per
//! line.  Blank lines are skipped; a non-blank line without the prefix is
//! surfaced as unexpected and produces no event.

use vstd::prelude::*;
use crate::text::{blank, is_blank, is_prefix_of, str_strip_prefix};

verus! {

/// The SSE payload of a line, when the line carries the `data: ` framing.
pub open spec fn data_payload(line: Seq<char>) -> Option<Seq<char>> {
    if is_prefix_of("data: "@, line) {
        Some(line.subrange("data: "@.len() as int, line.len() as int))
    } else {
        None
    }
}

/// Result of translating one upstream SSE line for the passthrough dialect.
#[derive(Debug, PartialEq)]
pub enum ChatSseLineOutput {
    /// A bare payload string ready to re-emit as one SSE data event.
    Data(String),
    /// The line was blank: nothing to emit.
    Skip,
    /// The line was not a `data: ` line and not blank; no event is emitted.
    Unexpected(String),
}

/// Translate one upstream SSE line for the chat-completions passthrough.
pub fn translate_sse_line(line: &str) -> (r: ChatSseLineOutput)
    ensures
        match data_payload(line@) {
            Some(p) => r matches ChatSseLineOutput::Data(s) && s@ == p,
            None => if blank(line@) {
                r is Skip
            } else {
                r matches ChatSseLineOutput::Unexpected(s) && s@ == line@
            },
        },
{
    match str_strip_prefix(line, "data: ") {
        Some(payload) => ChatSseLineOutput::Data(payload.to_owned()),
        None => {
            if is_blank(line) {
                ChatSseLineOutput::Skip
            } else {
                ChatSseLineOutput::Unexpected(line.to_owned())
            }
        },
    }
}

} // verus!
