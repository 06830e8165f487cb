//! Messages and the sessions they belong to.
use vstd::prelude::*;

verus! {

/// Who speaks.
#[derive(Debug, Clone, Copy, PartialEq, Eq, Structural)]
pub enum Role {
    System,
    User,
    Assistant,
    Tool,
}

impl Role {
    /// The word that stands for it.
    pub open spec fn word(self) -> Seq<char> {
        match self {
            Role::System => "system"@,
            Role::User => "user"@,
            Role::Assistant => "assistant"@,
            Role::Tool => "tool"@,
        }
    }

    pub fn as_str(&self) -> (r: &'static str)
        ensures
            r@ == self.word(),
    {
        match self {
            Role::System => "system",
            Role::User => "user",
            Role::Assistant => "assistant",
            Role::Tool => "tool",
        }
    }
}

/// One message of a conversation.
#[derive(Debug)]
pub struct Message {
    pub role: Role,
    pub content: String,
}

impl Message {
    /// A message of the user.
    pub fn user(content: String) -> (r: Self)
        ensures
            r == (Message { role: Role::User, content }),
    {
        Message { role: Role::User, content }
    }

    /// A message of the agent.
    pub fn assistant(content: String) -> (r: Self)
        ensures
            r == (Message { role: Role::Assistant, content }),
    {
        Message { role: Role::Assistant, content }
    }
}

/// A conversation.
#[derive(Debug)]
pub struct Session {
    pub id: String,
    pub messages: Vec<Message>,
    pub created_at: i64,
}

} // verus!
