//! The desktop client's side of the gateway's API.
use crate::agent::interaction::PendingApproval;
use crate::json;
use crate::number;
use crate::request;
use crate::request::{chat_reply, count_in, flag_in, one_text, write_chat_body, Request};
use crate::text;
use vstd::prelude::*;

verus! {

/// Seconds that a request may take: a turn may wait for a person's answer.
pub const REQUEST_TIMEOUT_SECS: u64 = 600;

/// Seconds that a health probe may take.
pub const PROBE_TIMEOUT_SECS: u64 = 2;

/// How a chat turn runs.
#[derive(Clone, Copy, PartialEq, Eq, Debug, Structural)]
pub enum ChatMode {
    /// Ask for approval and answers, and wait for them.
    Interactive,
    /// Approve side effects without asking.
    Trusted,
}

/// The gateway's status.
#[derive(Debug)]
pub struct StatusSnapshot {
    pub ok: bool,
    pub version: String,
    pub channels: Vec<String>,
    pub home_chat: Option<String>,
    pub open_tasks: usize,
    pub sessions: usize,
}

impl Default for StatusSnapshot {
    fn default() -> (r: Self)
        ensures
            !r.ok,
            r.version@.len() == 0,
            r.channels@.len() == 0,
            r.home_chat is None,
            r.open_tasks == 0,
            r.sessions == 0,
    {
        StatusSnapshot {
            ok: false,
            version: String::new(),
            channels: Vec::new(),
            home_chat: None,
            open_tasks: 0,
            sessions: 0,
        }
    }
}

/// What a suspended turn waits on.
#[derive(Debug)]
pub struct Interactions {
    pub approval: Option<PendingApproval>,
    pub question: Option<String>,
}

impl Interactions {
    pub fn is_empty(&self) -> (r: bool)
        ensures
            r == (self.approval is None && self.question is None),
    {
        self.approval.is_none() && self.question.is_none()
    }
}

impl Default for Interactions {
    fn default() -> (r: Self)
        ensures
            r.approval is None,
            r.question is None,
    {
        Interactions { approval: None, question: None }
    }
}

/// A connection to a gateway.
#[derive(Debug)]
pub struct ApiClient {
    pub base: String,
    pub key: String,
}

/// What is said of an answer that lacks a field.
pub fn missing_field(key: &str) -> (r: String)
    ensures
        r@ == "response missing `"@ + key@ + "` field"@,
{
    text::between("response missing `", key, "` field")
}

impl ApiClient {
    /// The probe of a gateway.
    pub fn is_healthy(&self) -> (r: Request)
        ensures
            r.gets(self.base@, "/health"@),
    {
        Request::get(&self.base, "/health")
    }

    pub fn status(&self) -> (r: Request)
        ensures
            r.gets(self.base@, "/api/status"@),
    {
        Request::get(&self.base, "/api/status")
    }

    pub fn tasks(&self) -> (r: Request)
        ensures
            r.gets(self.base@, "/api/tasks"@),
    {
        Request::get(&self.base, "/api/tasks")
    }

    pub fn memories(&self, status: Option<&str>) -> (r: Request)
        ensures
            r.gets(
                self.base@,
                match status {
                    Some(s) => "/api/memories?status="@ + s@,
                    None => "/api/memories"@,
                },
            ),
    {
        match status {
            Some(s) => Request::get(&self.base, &text::prefixed("/api/memories?status=", s)),
            None => Request::get(&self.base, "/api/memories"),
        }
    }

    pub fn runs(&self, limit: usize) -> (r: Request)
        ensures
            r.gets(self.base@, "/api/runs?limit="@ + number::decimal(limit as nat)),
    {
        Request::get(&self.base, &text::prefixed("/api/runs?limit=", &number::write_size(limit)))
    }

    pub fn run(&self, id: &str) -> (r: Request)
        ensures
            r.gets(self.base@, "/api/runs/"@ + id@),
    {
        Request::get(&self.base, &text::prefixed("/api/runs/", id))
    }

    pub fn sessions(&self) -> (r: Request)
        ensures
            r.gets(self.base@, "/api/sessions"@),
    {
        Request::get(&self.base, "/api/sessions")
    }

    pub fn session_messages(&self, id: &str) -> (r: Request)
        ensures
            r.gets(self.base@, "/api/sessions/"@ + id@ + "/messages"@),
    {
        Request::get(&self.base, &text::between("/api/sessions/", id, "/messages"))
    }

    pub fn reminders(&self) -> (r: Request)
        ensures
            r.gets(self.base@, "/api/reminders"@),
    {
        Request::get(&self.base, "/api/reminders")
    }

    pub fn skills(&self) -> (r: Request)
        ensures
            r.gets(self.base@, "/api/skills"@),
    {
        Request::get(&self.base, "/api/skills")
    }

    pub fn skill_audit(&self, name: &str) -> (r: Request)
        ensures
            r.gets(self.base@, "/api/skills/"@ + name@ + "/audit"@),
    {
        Request::get(&self.base, &text::between("/api/skills/", name, "/audit"))
    }

    pub fn pairings(&self) -> (r: Request)
        ensures
            r.gets(self.base@, "/api/pairings"@),
    {
        Request::get(&self.base, "/api/pairings")
    }

    /// The dry run of a dream cycle.
    pub fn dream_preview(&self) -> (r: Request)
        ensures
            r.gets(self.base@, "/api/dream"@),
    {
        Request::get(&self.base, "/api/dream")
    }

    /// What a suspended turn of a session waits on.
    pub fn interactions(&self, session: &str) -> (r: Request)
        ensures
            r.gets(self.base@, "/api/interactions/"@ + session@),
    {
        Request::get(&self.base, &text::prefixed("/api/interactions/", session))
    }

    fn act(&self, path: &str) -> (r: Request)
        ensures
            r.posts(self.base@, path@, Seq::empty(), Some("{}"@)),
    {
        Request::post(&self.base, path, Some("{}".to_owned()))
    }

    pub fn memory_transition(&self, id: &str, action: &str) -> (r: Request)
        ensures
            r.posts(
                self.base@,
                "/api/memories/"@ + id@ + "/"@ + action@,
                Seq::empty(),
                Some("{}"@),
            ),
    {
        let mut path = text::between("/api/memories/", id, "/");
        path.push_str(action);
        self.act(&path)
    }

    /// Whether a change of a memory or the approval of a code was taken: the answer is an
    /// object.
    pub fn accepted(answer: &str) -> (r: Result<(), String>)
        ensures
            match json::object_fault(answer@) {
                Some(e) => r matches Err(x) && x@ == e,
                None => r is Ok,
            },
    {
        json::check_object(answer)
    }

    pub fn prune_runs(&self, cutoff: i64) -> (r: Request)
        ensures
            r.posts(
                self.base@,
                "/api/runs/prune?cutoff="@ + number::signed(cutoff as int),
                Seq::empty(),
                Some("{}"@),
            ),
    {
        self.act(&text::prefixed("/api/runs/prune?cutoff=", &number::write_signed(cutoff)))
    }

    pub fn clean_sessions(&self) -> (r: Request)
        ensures
            r.posts(self.base@, "/api/sessions/clean"@, Seq::empty(), Some("{}"@)),
    {
        self.act("/api/sessions/clean")
    }

    /// How many were removed, from the answer to a prune or a clean-up.
    pub fn removed(answer: &str) -> (r: Result<u64, String>)
        ensures
            match json::object_fault(answer@) {
                Some(e) => r matches Err(x) && x@ == e,
                None => r matches Ok(n) && n == match json::json_count_at(
                    answer@,
                    "/removed"@,
                ) {
                    Some(k) => k,
                    None => 0u64,
                },
            },
    {
        count_in(answer, "/removed")
    }

    pub fn pair_approve(&self, code: &str) -> (r: Request)
        ensures
            r.posts(
                self.base@,
                "/api/pairings/approve"@,
                Seq::empty(),
                Some(
                    "{"@ + json::json_quoted("code"@) + ":"@ + json::json_quoted(code@) + "}"@,
                ),
            ),
    {
        Request::post(&self.base, "/api/pairings/approve", Some(one_text("code", code)))
    }

    pub fn pair_revoke(&self, id: &str) -> (r: Request)
        ensures
            r.posts(
                self.base@,
                "/api/pairings/"@ + id@ + "/revoke"@,
                Seq::empty(),
                Some("{}"@),
            ),
    {
        self.act(&text::between("/api/pairings/", id, "/revoke"))
    }

    /// Whether a pairing was revoked, from the answer.
    pub fn revoked(answer: &str) -> (r: Result<bool, String>)
        ensures
            match json::object_fault(answer@) {
                Some(e) => r matches Err(x) && x@ == e,
                None => r matches Ok(b) && b == (json::json_flag_at(answer@, "/revoked"@) == Some(
                    true,
                )),
            },
    {
        flag_in(answer, "/revoked")
    }

    pub fn dream_apply(&self) -> (r: Request)
        ensures
            r.posts(self.base@, "/api/dream/apply"@, Seq::empty(), Some("{}"@)),
    {
        self.act("/api/dream/apply")
    }

    /// How many memories a dream cycle promoted and archived, from the answer.
    pub fn dreamed(answer: &str) -> (r: Result<(u64, u64), String>)
        ensures
            match json::object_fault(answer@) {
                Some(e) => r matches Err(x) && x@ == e,
                None => r matches Ok(p) && p.0 == match json::json_count_at(
                    answer@,
                    "/promoted"@,
                ) {
                    Some(k) => k,
                    None => 0u64,
                } && p.1 == match json::json_count_at(answer@, "/archived"@) {
                    Some(k) => k,
                    None => 0u64,
                },
            },
    {
        let promoted: u64 = match count_in(answer, "/promoted") {
            Ok(n) => n,
            Err(e) => return Err(e),
        };
        match count_in(answer, "/archived") {
            Ok(n) => Ok((promoted, n)),
            Err(e) => Err(e),
        }
    }

    pub fn resume_run(&self, id: &str) -> (r: Request)
        ensures
            r.posts(self.base@, "/api/runs/"@ + id@ + "/resume"@, Seq::empty(), Some("{}"@)),
    {
        self.act(&text::between("/api/runs/", id, "/resume"))
    }

    /// Resolves the pending approval of a session: `once`, `session` or `deny`.
    pub fn resolve_approval(&self, session: &str, decision: &str) -> (r: Request)
        ensures
            r.posts(
                self.base@,
                "/api/interactions/"@ + session@ + "/approval"@,
                Seq::empty(),
                Some(
                    "{"@ + json::json_quoted("decision"@) + ":"@ + json::json_quoted(decision@)
                        + "}"@,
                ),
            ),
    {
        Request::post(
            &self.base,
            &text::between("/api/interactions/", session, "/approval"),
            Some(one_text("decision", decision)),
        )
    }

    /// Answers the pending question of a session.
    pub fn answer_question(&self, session: &str, answer: &str) -> (r: Request)
        ensures
            r.posts(
                self.base@,
                "/api/interactions/"@ + session@ + "/answer"@,
                Seq::empty(),
                Some("{"@ + json::json_quoted("text"@) + ":"@ + json::json_quoted(answer@) + "}"@),
            ),
    {
        Request::post(
            &self.base,
            &text::between("/api/interactions/", session, "/answer"),
            Some(one_text("text", answer)),
        )
    }

    /// Whether an approval or an answer was taken, from the reply.
    pub fn resolved(answer: &str) -> (r: Result<bool, String>)
        ensures
            match json::object_fault(answer@) {
                Some(e) => r matches Err(x) && x@ == e,
                None => r matches Ok(b) && b == (json::json_flag_at(answer@, "/resolved"@)
                    == Some(true)),
            },
    {
        flag_in(answer, "/resolved")
    }

    /// One chat turn of a session.
    pub fn chat(&self, session: &str, message: &str, mode: ChatMode) -> (r: Request)
        ensures
            r.posts(
                self.base@,
                "/v1/chat/completions"@,
                seq![
                    ("X-Komo-Session-Id"@, session@),
                    (
                        match mode {
                            ChatMode::Interactive => "X-Komo-Interactive"@,
                            ChatMode::Trusted => "X-Komo-Trusted"@,
                        },
                        "1"@,
                    ),
                ],
                Some(request::chat_body("komo"@, message@)),
            ),
    {
        let plain = Request::post(
            &self.base,
            "/v1/chat/completions",
            Some(write_chat_body("komo", message)),
        );
        let named = plain.with_header("X-Komo-Session-Id", session);
        let r = match mode {
            ChatMode::Interactive => named.with_header("X-Komo-Interactive", "1"),
            ChatMode::Trusted => named.with_header("X-Komo-Trusted", "1"),
        };
        assert(request::headers_of(r.headers@) =~= seq![
            ("X-Komo-Session-Id"@, session@),
            (
                match mode {
                    ChatMode::Interactive => "X-Komo-Interactive"@,
                    ChatMode::Trusted => "X-Komo-Trusted"@,
                },
                "1"@,
            ),
        ]);
        r
    }

    /// The reply of a chat turn.
    pub fn chat_answer(answer: &str) -> (r: Result<String, String>)
        ensures
            match json::json_fault(answer@) {
                Some(e) => r matches Err(x) && x@ == e,
                None => r matches Ok(s) && s@ == match json::json_string_at(
                    answer@,
                    "/choices/0/message/content"@,
                ) {
                    Some(t) => t,
                    None => Seq::empty(),
                },
            },
    {
        chat_reply(answer)
    }
}

} // verus!
