//! Consent over chat: what needs asking, what was answered, and the control commands
//! a message can hold.
use crate::casing;
use crate::domain::approval::{ApprovalRequest, Risk};
use crate::domain::context::SessionContext;
use crate::table::Table;
use crate::text;
use vstd::prelude::*;

verus! {

/// How many seconds an approval prompt waits for a reply before it is denied.
pub const APPROVAL_TIMEOUT_SECS: u64 = 300;

/// What the chat is told once a prompt was not answered in time.
pub const TIMEOUT_NOTE: &'static str = "审批超时，已自动拒绝。";

/// The user's answer to an approval prompt.
#[derive(Clone, Copy, PartialEq, Eq, Debug, Structural)]
pub enum Decision {
    /// Allow this one action.
    Once,
    /// Allow this action and remember its scope key for the rest of the session.
    Session,
    Deny,
}

/// The human-facing description of a pending approval, for surfaces that render the
/// prompt out of band.
#[derive(Debug)]
pub struct PendingApproval {
    pub summary: String,
    pub detail: Option<String>,
    /// `normal` or `dangerous`; a safe action never prompts.
    pub risk: String,
}

impl Clone for PendingApproval {
    fn clone(&self) -> (r: Self)
        ensures
            r == *self,
    {
        PendingApproval {
            summary: self.summary.clone(),
            detail: text::clone_opt(&self.detail),
            risk: self.risk.clone(),
        }
    }
}

impl PendingApproval {
    /// Whether `self` describes a request.
    pub open spec fn describes(self, request: ApprovalRequest) -> bool {
        &&& self.summary@ == request.summary@
        &&& text::opt_text(self.detail) == text::opt_text(request.detail)
        &&& self.risk@ == if request.risk == Risk::Dangerous {
            "dangerous"@
        } else {
            "normal"@
        }
    }

    pub fn from_request(request: &ApprovalRequest) -> (r: Self)
        ensures
            r.describes(*request),
    {
        PendingApproval {
            summary: request.summary.clone(),
            detail: text::clone_opt(&request.detail),
            risk: match request.risk {
                Risk::Dangerous => "dangerous".to_owned(),
                _ => "normal".to_owned(),
            },
        }
    }
}

/// Approval state by session: the prompt that waits for a reply, and the scope keys
/// that the user approved for the session.
pub struct ApprovalState {
    pending: Table<PendingApproval>,
    approved: Table<Vec<String>>,
}

impl ApprovalState {
    /// The prompts that wait for a reply.
    pub closed spec fn waiting(self) -> Map<Seq<char>, PendingApproval> {
        self.pending@
    }

    /// The scope keys approved for a session.
    pub closed spec fn approved_for(self, session: Seq<char>) -> Set<Seq<char>> {
        if self.approved@.dom().contains(session) {
            text::views(self.approved@[session]@).to_set()
        } else {
            Set::empty()
        }
    }

    /// No prompt waits and nothing is approved.
    pub fn new() -> (r: Self)
        ensures
            r.waiting() == Map::<Seq<char>, PendingApproval>::empty(),
            forall|s: Seq<char>| #[trigger] r.approved_for(s) == Set::<Seq<char>>::empty(),
    {
        ApprovalState { pending: Table::new(), approved: Table::new() }
    }

    /// Registers a prompt for `session`; it takes the place of one that still waits.
    pub fn register(&mut self, session: &str, info: PendingApproval)
        ensures
            final(self).waiting() == old(self).waiting().insert(session@, info),
            forall|s: Seq<char>| #[trigger]
                final(self).approved_for(s) == old(self).approved_for(s),
    {
        self.pending.put(session, info);
    }

    /// Takes the prompt of `session` off the list to deliver a decision to whoever
    /// waits. Returns whether a prompt was waiting.
    pub fn resolve(&mut self, session: &str) -> (r: bool)
        ensures
            r == old(self).waiting().dom().contains(session@),
            final(self).waiting() == old(self).waiting().remove(session@),
            forall|s: Seq<char>| #[trigger]
                final(self).approved_for(s) == old(self).approved_for(s),
    {
        self.pending.take(session).is_some()
    }

    /// The prompt that waits in `session`, if any.
    pub fn pending_info(&self, session: &str) -> (r: Option<PendingApproval>)
        ensures
            match r {
                Some(p) => self.waiting().dom().contains(session@) && p == self.waiting()[session@],
                None => !self.waiting().dom().contains(session@),
            },
    {
        match self.pending.get(session) {
            Some(p) => Some(p.clone()),
            None => None,
        }
    }

    /// Drops the prompt of `session` unanswered; whoever waits reads that as a denial.
    pub fn forget_pending(&mut self, session: &str)
        ensures
            final(self).waiting() == old(self).waiting().remove(session@),
            forall|s: Seq<char>| #[trigger]
                final(self).approved_for(s) == old(self).approved_for(s),
    {
        let _ = self.pending.take(session);
    }

    pub fn is_session_approved(&self, session: &str, scope_key: &str) -> (r: bool)
        ensures
            r == self.approved_for(session@).contains(scope_key@),
    {
        match self.approved.get(session) {
            Some(keys) => text::listed(keys, scope_key),
            None => false,
        }
    }

    /// Approves a scope key for the rest of `session`.
    pub fn remember(&mut self, session: &str, scope_key: &str)
        ensures
            final(self).waiting() == old(self).waiting(),
            final(self).approved_for(session@) == old(self).approved_for(session@).insert(
                scope_key@,
            ),
            forall|s: Seq<char>|
                s != session@ ==> #[trigger] final(self).approved_for(s) == old(self).approved_for(s),
    {
        broadcast use text::lemma_views_push;

        let mut keys = match self.approved.take(session) {
            Some(keys) => keys,
            None => Vec::new(),
        };
        let ghost before = text::views(keys@);
        keys.push(scope_key.to_owned());
        proof {
            let after = text::views(keys@);
            assert(after == before.push(scope_key@));
            assert forall|k: Seq<char>| after.contains(k) == (before.contains(k) || k
                == scope_key@) by {
                if before.contains(k) {
                    let i = choose|i: int| 0 <= i < before.len() && before[i] == k;
                    assert(after[i] == k);
                }
                assert(after[before.len() as int] == scope_key@);
            }
            assert(after.to_set() =~= before.to_set().insert(scope_key@));
            if !old(self).approved@.dom().contains(session@) {
                assert(before =~= Seq::empty());
                assert(before.to_set() =~= Set::empty());
            }
        }
        self.approved.put(session, keys);
    }

    /// Forgets all of `session`: its prompt and what was approved for it.
    pub fn clear(&mut self, session: &str)
        ensures
            final(self).waiting() == old(self).waiting().remove(session@),
            final(self).approved_for(session@) == Set::<Seq<char>>::empty(),
            forall|s: Seq<char>|
                s != session@ ==> #[trigger] final(self).approved_for(s) == old(self).approved_for(s),
    {
        let _ = self.pending.take(session);
        let _ = self.approved.take(session);
    }
}

impl Default for ApprovalState {
    fn default() -> (r: Self)
        ensures
            r.waiting() == Map::<Seq<char>, PendingApproval>::empty(),
            forall|s: Seq<char>| #[trigger] r.approved_for(s) == Set::<Seq<char>>::empty(),
    {
        ApprovalState::new()
    }
}

/// How the wait for a reply to a prompt ended.
#[derive(Clone, Copy, PartialEq, Eq, Debug, Structural)]
pub enum Outcome {
    Decided(Decision),
    /// The prompt was dropped: another took its place, or the session was cleared.
    Dropped,
    TimedOut,
}

/// What an approver makes of a request.
#[derive(Debug)]
pub enum Consent {
    Allowed,
    Refused,
    /// Send this prompt to the chat and wait for the reply.
    Ask(String),
}

/// Whether a request is settled without asking, and how. Safe actions run; without a
/// session, or with nobody in it to answer, the rest is refused; a trusted session, or a
/// scope key approved before, is allowed.
pub open spec fn settled(
    request: ApprovalRequest,
    ctx: Option<SessionContext>,
    approved: Set<Seq<char>>,
) -> Option<bool> {
    if request.risk == Risk::Safe {
        Some(true)
    } else {
        match ctx {
            None => Some(false),
            Some(c) => if c.auto_approve {
                Some(true)
            } else if !c.interactive {
                Some(false)
            } else {
                match request.scope_key {
                    Some(key) => if approved.contains(key@) {
                        Some(true)
                    } else {
                        None
                    },
                    None => None,
                }
            },
        }
    }
}

/// The prompt that a chat sees.
pub open spec fn prompt_text(request: ApprovalRequest) -> Seq<char> {
    let head = if request.risk == Risk::Dangerous {
        "🛑 需要审批（危险操作）："@ + request.summary@
    } else {
        "⚠️ 需要审批："@ + request.summary@
    };
    let body = match request.detail {
        Some(d) => head + "\n（"@ + d@ + "）"@,
        None => head,
    };
    body + "\n回复 /approve 批准本次 · /approve session 批准本会话内同类操作 · /deny 拒绝"@
}

/// The prompt that a chat sees.
pub fn prompt(request: &ApprovalRequest) -> (r: String)
    ensures
        r@ == prompt_text(*request),
{
    let mut s = match request.risk {
        Risk::Dangerous => "🛑 需要审批（危险操作）：".to_owned(),
        _ => "⚠️ 需要审批：".to_owned(),
    };
    s.push_str(&request.summary);
    if let Some(detail) = &request.detail {
        s.push_str("\n（");
        s.push_str(detail);
        s.push_str("）");
    }
    s.push_str("\n回复 /approve 批准本次 · /approve session 批准本会话内同类操作 · /deny 拒绝");
    s
}

/// What the wait for a reply decides.
pub open spec fn outcome_allows(outcome: Outcome) -> bool {
    outcome == Outcome::Decided(Decision::Once) || outcome == Outcome::Decided(Decision::Session)
}

/// Approver for chat channels: asks in the conversation and waits for the reply.
pub struct ChatApprover {
    pub state: ApprovalState,
}

impl ChatApprover {
    pub fn new(state: ApprovalState) -> (r: Self)
        ensures
            r.state == state,
    {
        ChatApprover { state }
    }

    /// Decides a request, or says what to ask.
    pub fn approve(&self, request: &ApprovalRequest, ctx: Option<&SessionContext>) -> (r: Consent)
        ensures
            match ctx {
                Some(c) => match settled(
                    *request,
                    Some(*c),
                    self.state.approved_for(c.session_id@),
                ) {
                    Some(true) => r is Allowed,
                    Some(false) => r is Refused,
                    None => r matches Consent::Ask(p) && p@ == prompt_text(*request),
                },
                None => match settled(*request, None, Set::empty()) {
                    Some(true) => r is Allowed,
                    _ => r is Refused,
                },
            },
    {
        if request.risk == Risk::Safe {
            return Consent::Allowed;
        }
        let c = match ctx {
            Some(c) => c,
            None => return Consent::Refused,
        };
        if c.auto_approve {
            return Consent::Allowed;
        }
        if !c.interactive {
            return Consent::Refused;
        }
        if let Some(key) = &request.scope_key {
            if self.state.is_session_approved(&c.session_id, key) {
                return Consent::Allowed;
            }
        }
        Consent::Ask(prompt(request))
    }

    /// Registers the prompt that `approve` asked to send.
    pub fn begin(&mut self, session: &str, request: &ApprovalRequest)
        ensures
            final(self).state.waiting().dom() == old(self).state.waiting().dom().insert(session@),
            final(self).state.waiting()[session@].describes(*request),
            forall|s: Seq<char>|
                s != session@ && old(self).state.waiting().dom().contains(s) ==> final(self).state.waiting()[s] == old(self).state.waiting()[s],
            forall|s: Seq<char>| #[trigger]
                final(self).state.approved_for(s) == old(self).state.approved_for(s),
    {
        self.state.register(session, PendingApproval::from_request(request));
    }

    /// Decides a request by how the wait for the reply ended.
    pub fn conclude(&mut self, session: &str, request: &ApprovalRequest, outcome: Outcome) -> (r:
        bool)
        ensures
            r == outcome_allows(outcome),
            final(self).state.waiting() == if outcome == Outcome::TimedOut {
                old(self).state.waiting().remove(session@)
            } else {
                old(self).state.waiting()
            },
            final(self).state.approved_for(session@) == match request.scope_key {
                Some(key) => if outcome == Outcome::Decided(Decision::Session) {
                    old(self).state.approved_for(session@).insert(key@)
                } else {
                    old(self).state.approved_for(session@)
                },
                None => old(self).state.approved_for(session@),
            },
            forall|s: Seq<char>|
                s != session@ ==> #[trigger] final(self).state.approved_for(s) == old(self).state.approved_for(s),
    {
        match outcome {
            Outcome::Decided(Decision::Once) => true,
            Outcome::Decided(Decision::Session) => {
                if let Some(key) = &request.scope_key {
                    self.state.remember(session, key);
                }
                true
            },
            Outcome::Decided(Decision::Deny) => false,
            Outcome::Dropped => false,
            Outcome::TimedOut => {
                self.state.forget_pending(session);
                false
            },
        }
    }
}

/// A safe action is never asked about, and without a session nothing else runs.
pub proof fn nobody_to_ask_means_denied(request: ApprovalRequest, approved: Set<Seq<char>>)
    ensures
        settled(request, None, approved) == Some(request.risk == Risk::Safe),
{
}

/// An action that is asked about once and approved for the session is not asked about
/// again in it, whatever else was approved.
pub proof fn approved_scopes_are_not_asked_again(
    request: ApprovalRequest,
    ctx: SessionContext,
    approved: Set<Seq<char>>,
)
    requires
        request.scope_key is Some,
        settled(request, Some(ctx), approved) is None,
    ensures
        settled(request, Some(ctx), approved.insert(request.scope_key->Some_0@)) == Some(true),
{
}

/// Silence, a dropped prompt and a denial all mean no.
pub proof fn only_an_approval_allows(outcome: Outcome)
    ensures
        outcome_allows(outcome) ==> outcome is Decided,
        !outcome_allows(Outcome::TimedOut),
        !outcome_allows(Outcome::Dropped),
        !outcome_allows(Outcome::Decided(Decision::Deny)),
{
}

// ---- Commands ----

/// The sub-action of a `/pair` command.
#[derive(Debug, PartialEq, Eq)]
pub enum PairAction {
    List,
    Approve(String),
    Revoke(String),
    /// Not understood: reply with the usage.
    Usage,
}

/// A control command, or plain text for the agent.
#[derive(Debug, PartialEq, Eq)]
pub enum Command {
    /// Start a fresh session.
    New,
    /// Resolve a pending approval.
    Approve(Decision),
    Deny,
    /// Make this chat the home channel for proactive output.
    SetHome,
    /// Provision the WeChat channel by QR code, delivered to this chat.
    WechatLogin,
    /// Approve, list or revoke pairings.
    Pair(PairAction),
    /// Ordinary message: run a turn.
    Plain(String),
}

/// Whether a folded message is a `/pair` command.
pub open spec fn is_pair(lower: Seq<char>) -> bool {
    lower == "/pair"@ || text::has_prefix(lower, "/pair "@)
}

/// The word at `i` of a message.
pub open spec fn word_at(message: Seq<char>, i: int) -> Option<Seq<char>> {
    let w = text::words(text::trimmed(message));
    if i < w.len() {
        Some(w[i])
    } else {
        None
    }
}

/// Whether `a` is what a `/pair` command asks, from its folded verb and its argument.
pub open spec fn pair_reads(
    a: PairAction,
    verb: Option<Seq<char>>,
    arg: Option<Seq<char>>,
) -> bool {
    match verb {
        None => a is List,
        Some(v) => if v == "list"@ {
            a is List
        } else if v == "approve"@ && arg is Some {
            a matches PairAction::Approve(code) && Some(code@) == arg
        } else if v == "revoke"@ && arg is Some {
            a matches PairAction::Revoke(id) && Some(id@) == arg
        } else {
            a is Usage
        },
    }
}

/// Whether `c` is what a message says, where `lower` is the trimmed message and `verb`
/// its second word, both folded to small letters.
pub open spec fn reads(
    c: Command,
    message: Seq<char>,
    lower: Seq<char>,
    verb: Option<Seq<char>>,
) -> bool {
    if is_pair(lower) {
        c matches Command::Pair(a) && pair_reads(a, verb, word_at(message, 2))
    } else if lower == "/new"@ || lower == "/clear"@ || lower == "/reset"@ {
        c is New
    } else if lower == "/approve"@ || lower == "/yes"@ || lower == "/y"@ || lower == "/ok"@ {
        c == Command::Approve(Decision::Once)
    } else if lower == "/approve session"@ || lower == "/approve all"@ {
        c == Command::Approve(Decision::Session)
    } else if lower == "/deny"@ || lower == "/no"@ || lower == "/n"@ {
        c is Deny
    } else if lower == "/sethome"@ || lower == "/home"@ {
        c is SetHome
    } else if lower == "/wechat"@ || lower == "/wechat login"@ || lower == "/weixin"@ {
        c is WechatLogin
    } else {
        c matches Command::Plain(s) && s@ == message
    }
}

/// What a message says, where `lower` is the trimmed message and `verb` its second word,
/// both folded to small letters. A code or an id keeps its case.
pub fn read_command(message: &str, lower: &str, verb: Option<&str>) -> (r: Command)
    ensures
        reads(r, message@, lower@, text::opt_view(verb)),
{
    if text::same(lower, "/pair") || text::starts_with(lower, "/pair ") {
        let words = text::split_words(text::trim(message));
        assert(words@.len() == text::views(words@).len());
        let verb = match verb {
            None => return Command::Pair(PairAction::List),
            Some(v) => v,
        };
        if text::same(verb, "list") {
            return Command::Pair(PairAction::List);
        }
        if words.len() > 2 {
            assert(text::views(words@)[2] == words@[2]@);
            if text::same(verb, "approve") {
                return Command::Pair(PairAction::Approve(words[2].clone()));
            }
            if text::same(verb, "revoke") {
                return Command::Pair(PairAction::Revoke(words[2].clone()));
            }
        }
        return Command::Pair(PairAction::Usage);
    }
    if text::same(lower, "/new") || text::same(lower, "/clear") || text::same(lower, "/reset") {
        Command::New
    } else if text::same(lower, "/approve") || text::same(lower, "/yes") || text::same(lower, "/y")
        || text::same(lower, "/ok") {
        Command::Approve(Decision::Once)
    } else if text::same(lower, "/approve session") || text::same(lower, "/approve all") {
        Command::Approve(Decision::Session)
    } else if text::same(lower, "/deny") || text::same(lower, "/no") || text::same(lower, "/n") {
        Command::Deny
    } else if text::same(lower, "/sethome") || text::same(lower, "/home") {
        Command::SetHome
    } else if text::same(lower, "/wechat") || text::same(lower, "/wechat login") || text::same(
        lower,
        "/weixin",
    ) {
        Command::WechatLogin
    } else {
        Command::Plain(message.to_owned())
    }
}

/// The folded second word of a message.
pub open spec fn verb_of(message: Seq<char>) -> Option<Seq<char>> {
    match word_at(message, 1) {
        Some(w) => Some(casing::lowercase(w)),
        None => None,
    }
}

/// What an inbound message says. Commands match whatever their case.
pub fn classify(message: &str) -> (r: Command)
    ensures
        reads(r, message@, casing::lowercase(text::trimmed(message@)), verb_of(message@)),
{
    let trimmed = text::trim(message);
    let lower = trimmed.to_lowercase();
    let words = text::split_words(trimmed);
    assert(words@.len() == text::views(words@).len());
    if words.len() > 1 {
        assert(text::views(words@)[1] == words@[1]@);
        let verb = words[1].as_str().to_lowercase();
        read_command(message, &lower, Some(&verb))
    } else {
        read_command(message, &lower, None)
    }
}

/// Plain text reaches the agent as it was sent.
pub proof fn plain_is_the_message(
    c: Command,
    message: Seq<char>,
    lower: Seq<char>,
    verb: Option<Seq<char>>,
)
    requires
        reads(c, message, lower, verb),
        c is Plain,
    ensures
        c->Plain_0@ == message,
{
}

/// A message that does not begin with a slash, once folded, is plain text as it stands.
pub proof fn plain_text_stays_plain(
    c: Command,
    message: Seq<char>,
    lower: Seq<char>,
    verb: Option<Seq<char>>,
)
    requires
        reads(c, message, lower, verb),
        lower.len() == 0 || lower[0] != '/',
    ensures
        c matches Command::Plain(s) && s@ == message,
{
    reveal_strlit("/pair");
    reveal_strlit("/pair ");
    reveal_strlit("/new");
    reveal_strlit("/clear");
    reveal_strlit("/reset");
    reveal_strlit("/approve");
    reveal_strlit("/yes");
    reveal_strlit("/y");
    reveal_strlit("/ok");
    reveal_strlit("/approve session");
    reveal_strlit("/approve all");
    reveal_strlit("/deny");
    reveal_strlit("/no");
    reveal_strlit("/n");
    reveal_strlit("/sethome");
    reveal_strlit("/home");
    reveal_strlit("/wechat");
    reveal_strlit("/wechat login");
    reveal_strlit("/weixin");
    assert("/pair"@[0] == '/' && "/pair "@[0] == '/' && "/new"@[0] == '/' && "/clear"@[0] == '/'
        && "/reset"@[0] == '/' && "/approve"@[0] == '/' && "/yes"@[0] == '/' && "/y"@[0] == '/'
        && "/ok"@[0] == '/' && "/approve session"@[0] == '/' && "/approve all"@[0] == '/'
        && "/deny"@[0] == '/' && "/no"@[0] == '/' && "/n"@[0] == '/' && "/sethome"@[0] == '/'
        && "/home"@[0] == '/' && "/wechat"@[0] == '/' && "/wechat login"@[0] == '/'
        && "/weixin"@[0] == '/');
    assert(text::has_prefix(lower, "/pair "@) ==> lower[0] == "/pair "@[0]);
}

} // verus!
