//! Consent at a terminal.
use crate::casing;
use crate::domain::approval::{ApprovalRequest, Risk};
use crate::text;
use vstd::prelude::*;

verus! {

/// What the user answered at the approval prompt.
#[derive(Debug, Clone, Copy, PartialEq, Eq, Structural)]
pub enum Answer {
    /// Allow this one action only.
    Once,
    /// Allow this action and remember its scope key for the rest of the session.
    Session,
    Deny,
}

/// The answer that a folded line stands for; what is not understood denies.
pub open spec fn answer_of(lower: Seq<char>) -> Answer {
    if lower == "y"@ || lower == "yes"@ {
        Answer::Once
    } else if lower == "s"@ || lower == "session"@ {
        Answer::Session
    } else {
        Answer::Deny
    }
}

/// The answer that a folded line stands for.
pub fn read_answer(lower: &str) -> (r: Answer)
    ensures
        r == answer_of(lower@),
{
    if text::same(lower, "y") || text::same(lower, "yes") {
        Answer::Once
    } else if text::same(lower, "s") || text::same(lower, "session") {
        Answer::Session
    } else {
        Answer::Deny
    }
}

/// The answer that a line stands for, whatever its case and the space around it.
pub fn parse_answer(input: &str) -> (r: Answer)
    ensures
        r == answer_of(casing::lowercase(text::trimmed(input@))),
{
    let lower = text::trim(input).to_lowercase();
    read_answer(&lower)
}

/// The prompt at the terminal.
pub open spec fn prompt_text(request: ApprovalRequest) -> Seq<char> {
    if request.risk == Risk::Dangerous {
        let head = "\n🛑 DANGEROUS — request to "@ + request.summary@;
        let body = match request.detail {
            Some(d) => head + "\n   ("@ + d@ + ")"@,
            None => head,
        };
        body + "\n   Approve? [y]es once / [s]ession / [N]o "@
    } else {
        "\n⚠  Approve request to "@ + request.summary@ + "? [y]es once / [s]ession / [N]o "@
    }
}

/// The prompt at the terminal.
pub fn prompt(request: &ApprovalRequest) -> (r: String)
    ensures
        r@ == prompt_text(*request),
{
    if request.risk == Risk::Dangerous {
        let mut out = "\n🛑 DANGEROUS — request to ".to_owned();
        out.push_str(&request.summary);
        if let Some(detail) = &request.detail {
            out.push_str("\n   (");
            out.push_str(detail);
            out.push_str(")");
        }
        out.push_str("\n   Approve? [y]es once / [s]ession / [N]o ");
        out
    } else {
        let mut out = "\n⚠  Approve request to ".to_owned();
        out.push_str(&request.summary);
        out.push_str("? [y]es once / [s]ession / [N]o ");
        out
    }
}

/// Interactive approver: safe actions run without a prompt, and an action that was
/// allowed for the session is not asked about again.
pub struct CliApprover {
    session_allowed: Vec<String>,
}

impl CliApprover {
    /// The scope keys allowed for the session.
    pub closed spec fn allowed(self) -> Set<Seq<char>> {
        text::views(self.session_allowed@).to_set()
    }

    pub fn new() -> (r: Self)
        ensures
            r.allowed() == Set::<Seq<char>>::empty(),
    {
        let r = CliApprover { session_allowed: Vec::new() };
        assert(r.allowed() =~= Set::<Seq<char>>::empty());
        r
    }

    /// Allows a scope key for the rest of the session.
    pub fn allow(&mut self, key: &str)
        ensures
            final(self).allowed() == old(self).allowed().insert(key@),
    {
        let ghost before = text::views(self.session_allowed@);
        text::append_line(&mut self.session_allowed, key.to_owned());
        proof {
            let after = text::views(self.session_allowed@);
            assert forall|k: Seq<char>| after.contains(k) == (before.contains(k) || k == key@) by {
                if before.contains(k) {
                    let i = choose|i: int| 0 <= i < before.len() && before[i] == k;
                    assert(after[i] == k);
                }
                assert(after[before.len() as int] == key@);
            }
            assert(self.allowed() =~= old(self).allowed().insert(key@));
        }
    }

    /// Whether a request is allowed without a prompt.
    pub open spec fn skips_prompt(self, request: ApprovalRequest) -> bool {
        request.risk == Risk::Safe || (request.scope_key is Some && self.allowed().contains(
            request.scope_key->Some_0@,
        ))
    }

    /// Whether a request needs the prompt of [`prompt`].
    pub fn needs_prompt(&self, request: &ApprovalRequest) -> (r: bool)
        ensures
            r == !self.skips_prompt(*request),
    {
        if request.risk == Risk::Safe {
            return false;
        }
        match &request.scope_key {
            Some(key) => !text::listed(&self.session_allowed, key),
            None => true,
        }
    }

    /// What is said of a request that the session allows: nothing of a safe one, which
    /// needs no consent, nor of one that is asked about.
    pub fn notice(&self, request: &ApprovalRequest) -> (r: Option<String>)
        ensures
            text::opt_text(r) == if request.risk != Risk::Safe && self.skips_prompt(*request) {
                Some("✓ auto-approved (session): "@ + request.summary@)
            } else {
                None
            },
    {
        if request.risk == Risk::Safe || self.needs_prompt(request) {
            None
        } else {
            Some(text::prefixed("✓ auto-approved (session): ", &request.summary))
        }
    }

    /// Decides a request. `answer` is the line read at the prompt, none where none could
    /// be read; it counts only where the prompt was needed.
    pub fn approve(&mut self, request: &ApprovalRequest, answer: Option<&str>) -> (r: bool)
        ensures
            r == (old(self).skips_prompt(*request) || (answer matches Some(a) && answer_of(
                casing::lowercase(text::trimmed(a@)),
            ) != Answer::Deny)),
            final(self).allowed() == if !old(self).skips_prompt(*request) && (answer matches Some(
                a,
            ) && answer_of(casing::lowercase(text::trimmed(a@))) == Answer::Session)
                && request.scope_key is Some {
                old(self).allowed().insert(request.scope_key->Some_0@)
            } else {
                old(self).allowed()
            },
    {
        if !self.needs_prompt(request) {
            return true;
        }
        let line = match answer {
            Some(line) => line,
            None => return false,
        };
        match parse_answer(line) {
            Answer::Once => true,
            Answer::Session => {
                if let Some(key) = &request.scope_key {
                    self.allow(key);
                }
                true
            },
            Answer::Deny => false,
        }
    }
}

impl Default for CliApprover {
    fn default() -> (r: Self)
        ensures
            r.allowed() == Set::<Seq<char>>::empty(),
    {
        CliApprover::new()
    }
}

/// Approver for contexts without a user: every gated action is denied, even a safe one.
pub struct DenyApprover;

impl DenyApprover {
    pub fn approve(&self, request: &ApprovalRequest) -> (r: bool)
        ensures
            !r,
    {
        let _ = request;
        false
    }
}

} // verus!
