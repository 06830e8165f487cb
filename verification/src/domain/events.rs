//! Live events of a turn for clients that watch the agent work.
use vstd::prelude::*;

verus! {

/// One event emitted during a turn.
#[derive(Debug)]
pub enum TurnEvent {
    /// A tool call is about to run.
    ToolStarted {
        /// The turn's ledger sequence for this call (`-1` when there is none).
        seq: i64,
        name: String,
        /// Redacted arguments.
        args: String,
    },
    /// A tool call finished.
    ToolFinished {
        seq: i64,
        name: String,
        ok: bool,
        /// Short result preview, or the error message.
        summary: String,
    },
}

/// Sink for [`TurnEvent`]s.
pub trait ToolEventSink {
    fn emit(&self, event: TurnEvent);
}

} // verus!
