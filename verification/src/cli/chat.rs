//! The chat at a terminal.
use crate::system;
use crate::text;
use vstd::prelude::*;

verus! {

/// What a line at the prompt means.
#[derive(Debug)]
pub enum ReplStep {
    /// An empty line: prompt again.
    Ignore,
    /// Start a fresh session.
    NewSession,
    /// Run a turn.
    Send(String),
}

/// What a line at the prompt means; the space around it does not count.
pub fn read_line(line: &str) -> (r: ReplStep)
    ensures
        match r {
            ReplStep::Ignore => text::trimmed(line@).len() == 0,
            ReplStep::NewSession => text::trimmed(line@) == "/new"@ || text::trimmed(line@)
                == "/clear"@,
            ReplStep::Send(input) => {
                &&& input@ == text::trimmed(line@)
                &&& input@.len() > 0
                &&& input@ != "/new"@
                &&& input@ != "/clear"@
            },
        },
{
    let input = text::trim(line);
    proof {
        reveal_strlit("/new");
        reveal_strlit("/clear");
    }
    if input.is_empty() {
        ReplStep::Ignore
    } else if text::same(input, "/new") || text::same(input, "/clear") {
        ReplStep::NewSession
    } else {
        ReplStep::Send(input.to_owned())
    }
}

/// A fresh session id: ids are the program's own business.
pub fn new_session_id() -> (r: String)
    ensures
        system::is_hyphenated(r@),
        system::is_issued(r@),
{
    system::issue_id()
}

/// What is said at the start of a chat, in this process or through a running gateway.
pub fn greeting(session: &str, remote: bool) -> (r: String)
    ensures
        r@ == if remote {
            "Shion v0.1 — connected to the running gateway (session `"@ + session@
                + "`, trusted). Type /new to start a fresh session, Ctrl-C or Ctrl-D to quit.\n"@
        } else {
            "Shion v0.1 — session `"@ + session@
                + "`. Type /new (or /clear) to start a fresh session, Ctrl-C or Ctrl-D to quit.\n"@
        },
{
    if remote {
        text::between(
            "Shion v0.1 — connected to the running gateway (session `",
            session,
            "`, trusted). Type /new to start a fresh session, Ctrl-C or Ctrl-D to quit.\n",
        )
    } else {
        text::between(
            "Shion v0.1 — session `",
            session,
            "`. Type /new (or /clear) to start a fresh session, Ctrl-C or Ctrl-D to quit.\n",
        )
    }
}

/// What is said of a fresh session.
pub fn started(session: &str) -> (r: String)
    ensures
        r@ == "Started new session `"@ + session@ + "`.\n"@,
{
    text::between("Started new session `", session, "`.\n")
}

/// What is shown of a turn: its reply, or why it failed. A failed turn does not end the
/// chat.
pub fn outcome(turn: Result<&str, &str>) -> (r: String)
    ensures
        r@ == match turn {
            Ok(reply) => "Agent: "@ + reply@ + "\n"@,
            Err(error) => "Error: "@ + error@ + "\n"@,
        },
{
    match turn {
        Ok(reply) => text::between("Agent: ", reply, "\n"),
        Err(error) => text::between("Error: ", error, "\n"),
    }
}

} // verus!
