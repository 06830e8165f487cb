//! A router by keywords.
use crate::casing;
use crate::domain::message::{Message, Role, Session};
use crate::domain::planner::{Plan, Planner};
use crate::text;
use vstd::prelude::*;

verus! {

/// Whether a folded message asks for the time.
pub open spec fn asks_for_time(lower: Seq<char>) -> bool {
    text::has_part(lower, "time"@) || text::has_part(lower, "时间"@) || text::has_part(
        lower,
        "now"@,
    )
}

/// The plan for a session, where `lower` is its last user message folded to small
/// letters: call the `time` tool when that asks for the time, else respond.
pub fn plan_for(lower: Option<&str>) -> (r: Plan)
    ensures
        match lower {
            Some(t) if asks_for_time(t@) => r matches Plan::CallTool { tool_name, input }
                && tool_name@ == "time"@ && input@.len() == 0,
            _ => r is RespondDirectly,
        },
{
    if let Some(t) = lower {
        if text::contains(t, "time") || text::contains(t, "时间") || text::contains(t, "now") {
            return Plan::CallTool { tool_name: "time".to_owned(), input: String::new() };
        }
    }
    Plan::RespondDirectly
}

/// The last message of the user.
pub open spec fn last_of_user(messages: Seq<Message>) -> Option<Seq<char>>
    decreases messages.len(),
{
    if messages.len() == 0 {
        None
    } else if messages.last().role == Role::User {
        Some(messages.last().content@)
    } else {
        last_of_user(messages.drop_last())
    }
}

/// Routes by trigger words in the last user message.
pub struct KeywordPlanner;

impl Planner for KeywordPlanner {
    /// Calls for the `time` tool where the last message of the user asks for the time.
    fn plan(&self, session: &Session) -> (r: Plan)
        ensures
            match last_of_user(session.messages@) {
                Some(t) if asks_for_time(casing::lowercase(t)) => r matches Plan::CallTool {
                    tool_name,
                    input,
                } && tool_name@ == "time"@ && input@.len() == 0,
                _ => r is RespondDirectly,
            },
    {
        let messages = &session.messages;
        let mut n: usize = messages.len();
        assert(messages@.take(messages@.len() as int) =~= messages@);
        while n > 0
            invariant
                n <= messages.len(),
                *messages == session.messages,
                last_of_user(messages@) == last_of_user(messages@.take(n as int)),
            decreases n,
        {
            let m = &messages[n - 1];
            assert(messages@.take(n as int).last() == m);
            if m.role == Role::User {
                let lower = m.content.as_str().to_lowercase();
                return plan_for(Some(&lower));
            }
            assert(messages@.take(n as int).drop_last() =~= messages@.take(n - 1));
            n = n - 1;
        }
        plan_for(None)
    }
}

} // verus!
