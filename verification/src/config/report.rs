//! Redacted configuration diagnostics: load issues and value provenance.
//!
//! The report never holds secret values, only whether a credential is present
//! and where each resolved value came from.
use crate::config::provider::Provider;
use vstd::prelude::*;

verus! {

/// Where a resolved value came from (lowest to highest priority).
#[derive(Debug, Clone, Copy, PartialEq, Eq, Structural)]
pub enum Origin {
    /// Built-in default (including per-provider model defaults).
    Default,
    /// `config.toml`.
    File,
    /// An environment variable.
    Env,
}

/// How bad a [`ConfigIssue`] is.
#[derive(Debug, Clone, Copy, PartialEq, Eq, Structural)]
pub enum IssueSeverity {
    /// The gateway (or an agent turn) cannot start with this problem.
    Fatal,
    /// Worth surfacing but safe to run with.
    Warning,
}

/// One problem found while resolving configuration.
#[derive(Debug)]
pub struct ConfigIssue {
    /// Dotted config path the issue is about (e.g. `channels.telegram`).
    pub path: &'static str,
    pub severity: IssueSeverity,
    pub message: String,
}

/// What an issue says.
pub ghost struct Issue {
    pub path: Seq<char>,
    pub severity: IssueSeverity,
    pub message: Seq<char>,
}

impl ConfigIssue {
    pub open spec fn issue(self) -> Issue {
        Issue { path: self.path@, severity: self.severity, message: self.message@ }
    }
}

/// What the issues of a list say, in order.
pub open spec fn issues_of(v: Seq<ConfigIssue>) -> Seq<Issue> {
    Seq::new(v.len(), |i: int| v[i].issue())
}

/// Adds one issue at the end.
pub fn record(issues: &mut Vec<ConfigIssue>, path: &'static str, severity: IssueSeverity, message: String)
    ensures
        issues_of(final(issues)@) == issues_of(old(issues)@).push(
            (Issue { path: path@, severity, message: message@ }),
        ),
{
    issues.push(ConfigIssue { path, severity, message });
    assert(issues_of(issues@) =~= issues_of(old(issues)@).push(
        (Issue { path: path@, severity, message: message@ }),
    ));
}

/// Redacted diagnostics accompanying a configuration snapshot.
#[derive(Debug)]
pub struct ConfigReport {
    /// Every problem found during resolution, in resolution order.
    pub issues: Vec<ConfigIssue>,
    /// Where the active provider came from.
    pub provider_origin: Origin,
    /// Where the active model id came from.
    pub model_origin: Origin,
    /// Environment-key presence per provider (never the key itself). Codex
    /// reports `false`: its OAuth file is checked elsewhere.
    pub provider_key_present: Vec<(Provider, bool)>,
}

/// The first fatal issue, from `i` on.
pub open spec fn first_fatal(issues: Seq<Issue>, i: int) -> Option<int>
    decreases issues.len() - i,
{
    if i < 0 || i >= issues.len() {
        None
    } else if issues[i].severity == IssueSeverity::Fatal {
        Some(i)
    } else {
        first_fatal(issues, i + 1)
    }
}

impl ConfigReport {
    /// Whether `provider`'s key is reported as present.
    pub open spec fn has_key(self, provider: Provider) -> bool {
        self.provider_key_present@.contains((provider, true))
    }

    /// The first fatal issue, if any.
    pub fn fatal(&self) -> (r: Option<&ConfigIssue>)
        ensures
            match (r, first_fatal(issues_of(self.issues@), 0)) {
                (Some(x), Some(k)) => 0 <= k < self.issues@.len() && *x == self.issues@[k],
                (None, None) => true,
                _ => false,
            },
    {
        let mut i: usize = 0;
        while i < self.issues.len()
            invariant
                i <= self.issues.len(),
                first_fatal(issues_of(self.issues@), 0) == first_fatal(
                    issues_of(self.issues@),
                    i as int,
                ),
            decreases self.issues.len() - i,
        {
            if self.issues[i].severity == IssueSeverity::Fatal {
                return Some(&self.issues[i]);
            }
            i = i + 1;
        }
        None
    }

    /// The first fatal issue that `relevant` accepts. Only fatal issues are put to it.
    pub fn fatal_matching<F: Fn(&ConfigIssue) -> bool>(&self, relevant: F) -> (r: Option<
        &ConfigIssue,
    >)
        requires
            forall|k: int|
                0 <= k < self.issues@.len() && (#[trigger] self.issues@[k]).severity
                    == IssueSeverity::Fatal ==> call_requires(relevant, (&self.issues@[k],)),
        ensures
            match r {
                Some(x) => exists|k: int|
                    {
                        &&& 0 <= k < self.issues@.len()
                        &&& *x == #[trigger] self.issues@[k]
                        &&& x.severity == IssueSeverity::Fatal
                        &&& call_ensures(relevant, (x,), true)
                        &&& forall|j: int|
                            0 <= j < k && (#[trigger] self.issues@[j]).severity
                                == IssueSeverity::Fatal ==> call_ensures(
                                relevant,
                                (&self.issues@[j],),
                                false,
                            )
                    },
                None => forall|j: int|
                    0 <= j < self.issues@.len() && (#[trigger] self.issues@[j]).severity
                        == IssueSeverity::Fatal ==> call_ensures(
                        relevant,
                        (&self.issues@[j],),
                        false,
                    ),
            },
    {
        let mut i: usize = 0;
        while i < self.issues.len()
            invariant
                i <= self.issues.len(),
                forall|k: int|
                    0 <= k < self.issues@.len() && (#[trigger] self.issues@[k]).severity
                        == IssueSeverity::Fatal ==> call_requires(relevant, (&self.issues@[k],)),
                forall|j: int|
                    0 <= j < i && (#[trigger] self.issues@[j]).severity == IssueSeverity::Fatal
                        ==> call_ensures(relevant, (&self.issues@[j],), false),
            decreases self.issues.len() - i,
        {
            let issue = &self.issues[i];
            if issue.severity == IssueSeverity::Fatal {
                if relevant(issue) {
                    return Some(issue);
                }
            }
            i = i + 1;
        }
        None
    }

    /// Whether `provider`'s environment API key is present.
    pub fn key_present(&self, provider: Provider) -> (r: bool)
        ensures
            r == self.has_key(provider),
    {
        let mut i: usize = 0;
        while i < self.provider_key_present.len()
            invariant
                i <= self.provider_key_present.len(),
                forall|k: int|
                    0 <= k < i ==> #[trigger] self.provider_key_present@[k] != (provider, true),
            decreases self.provider_key_present.len() - i,
        {
            let entry = self.provider_key_present[i];
            if entry.0 == provider && entry.1 {
                assert(self.provider_key_present@[i as int] == (provider, true));
                return true;
            }
            i = i + 1;
        }
        false
    }
}

} // verus!
