//! Failures of tools and what may be done about them.
use vstd::prelude::*;

verus! {

/// Whether a failed call may be retried, as its source knows it.
#[derive(Debug, Clone, Copy, PartialEq, Eq, Structural)]
pub enum RetryHint {
    /// The request provably never reached the server. Safe to retry.
    Connection,
    /// Whether it landed is unknown. Retry only an idempotent tool.
    Ambiguous,
}

/// An error that classifies its own retry-safety.
#[derive(Debug)]
pub struct TransientError {
    pub hint: RetryHint,
    pub message: String,
}

impl TransientError {
    pub fn new(hint: RetryHint, message: &str) -> (r: Self)
        ensures
            r.hint == hint,
            r.message@ == message@,
    {
        TransientError { hint, message: message.to_owned() }
    }

    /// The message of the error.
    pub fn text(&self) -> (r: String)
        ensures
            r@ == self.message@,
    {
        self.message.clone()
    }
}

/// Errors of the domain.
#[derive(Debug)]
pub enum DomainError {
    ToolNotFound(String),
}

impl DomainError {
    /// The message of the error.
    pub fn text(&self) -> (r: String)
        ensures
            match *self {
                DomainError::ToolNotFound(name) => r@ == "tool not found: "@ + name@,
            },
    {
        match self {
            DomainError::ToolNotFound(name) => {
                let mut m = "tool not found: ".to_owned();
                m.push_str(name);
                m
            },
        }
    }
}

} // verus!
