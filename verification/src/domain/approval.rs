//! Requests for consent to a side-effecting action.
use vstd::prelude::*;

verus! {

/// Risk level of an action, used to decide how prominently to warn the user.
#[derive(Debug, Clone, Copy, PartialEq, Eq, Structural)]
pub enum Risk {
    /// Read-only or otherwise harmless action. An interactive approver may
    /// allow these without prompting; non-interactive approvers still deny.
    Safe,
    Normal,
    Dangerous,
}

/// A structured, machine-matchable description of the action being approved.
///
/// It carries the resource (the command, path, URL or service), so that the
/// permission policy matches on the resource and not on the summary.
#[derive(Debug)]
pub enum ActionRef {
    /// A shell command, matched against the full command line.
    Shell { command: String },
    /// A filesystem access, matched against the path.
    File { path: String, write: bool },
    /// An outbound network fetch, matched against the URL's host.
    Network { url: String },
    /// A Home Assistant service call, matched as `domain.service`.
    Service { domain: String, service: String },
}

impl Clone for ActionRef {
    fn clone(&self) -> (r: Self)
        ensures
            r == *self,
    {
        match self {
            ActionRef::Shell { command } => ActionRef::Shell { command: command.clone() },
            ActionRef::File { path, write } => ActionRef::File { path: path.clone(), write: *write },
            ActionRef::Network { url } => ActionRef::Network { url: url.clone() },
            ActionRef::Service { domain, service } => ActionRef::Service {
                domain: domain.clone(),
                service: service.clone(),
            },
        }
    }
}

/// A request for the user to approve a side-effecting action.
#[derive(Debug)]
pub struct ApprovalRequest {
    /// Human-readable description of the action, e.g. `run shell command: ls`.
    pub summary: String,
    pub risk: Risk,
    /// Optional extra context, e.g. why a command was flagged dangerous.
    pub detail: Option<String>,
    /// Stable key identifying the kind of action. An approver can remember an
    /// "allow for this session" answer under this key.
    pub scope_key: Option<String>,
    /// Structured resource the permission policy matches on.
    pub action: Option<ActionRef>,
}

impl ApprovalRequest {
    /// A request with nothing but a summary and a risk.
    pub open spec fn is_plain(self, summary: Seq<char>, risk: Risk) -> bool {
        &&& self.summary@ == summary
        &&& self.risk == risk
        &&& self.detail is None
        &&& self.scope_key is None
        &&& self.action is None
    }

    pub fn safe(summary: &str) -> (r: Self)
        ensures
            r.is_plain(summary@, Risk::Safe),
    {
        ApprovalRequest {
            summary: summary.to_owned(),
            risk: Risk::Safe,
            detail: None,
            scope_key: None,
            action: None,
        }
    }

    pub fn normal(summary: &str) -> (r: Self)
        ensures
            r.is_plain(summary@, Risk::Normal),
    {
        ApprovalRequest {
            summary: summary.to_owned(),
            risk: Risk::Normal,
            detail: None,
            scope_key: None,
            action: None,
        }
    }

    pub fn dangerous(summary: &str, detail: &str) -> (r: Self)
        ensures
            r.summary@ == summary@,
            r.risk == Risk::Dangerous,
            r.detail is Some,
            r.detail->0@ == detail@,
            r.scope_key is None,
            r.action is None,
    {
        ApprovalRequest {
            summary: summary.to_owned(),
            risk: Risk::Dangerous,
            detail: Some(detail.to_owned()),
            scope_key: None,
            action: None,
        }
    }

    /// Attach a session-scope key.
    pub fn with_scope_key(self, key: &str) -> (r: Self)
        ensures
            r.scope_key is Some,
            r.scope_key->0@ == key@,
            r == (ApprovalRequest { scope_key: r.scope_key, ..self }),
    {
        ApprovalRequest {
            summary: self.summary,
            risk: self.risk,
            detail: self.detail,
            scope_key: Some(key.to_owned()),
            action: self.action,
        }
    }

    /// Attach the structured resource that the policy matches on.
    pub fn with_action(self, action: ActionRef) -> (r: Self)
        ensures
            r == (ApprovalRequest { action: Some(action), ..self }),
    {
        ApprovalRequest {
            summary: self.summary,
            risk: self.risk,
            detail: self.detail,
            scope_key: self.scope_key,
            action: Some(action),
        }
    }
}

} // verus!
