//! The command line's side of the gateway's API.
use crate::json;
use crate::number;
use crate::request;
use crate::request::{chat_reply, write_chat_body, Request};
use crate::text;
use vstd::prelude::*;

verus! {

/// Seconds that a request may take.
pub const REQUEST_TIMEOUT_SECS: u64 = 300;

/// Seconds that the probe may take: a stale advertisement must fail fast.
pub const PROBE_TIMEOUT_SECS: u64 = 2;

/// A connection to a gateway.
#[derive(Debug)]
pub struct GatewayClient {
    pub base: String,
    pub key: String,
}

/// What is said of an answer that lacks a field.
pub fn missing_field(key: &str) -> (r: String)
    ensures
        r@ == "gateway response missing `"@ + key@ + "`"@,
{
    text::between("gateway response missing `", key, "`")
}

impl GatewayClient {
    /// A connection to a gateway that answered its probe; none to one that did not, so
    /// that the caller opens the store instead.
    pub fn try_connect(base: String, key: String, healthy: bool) -> (r: Option<GatewayClient>)
        ensures
            r == if healthy {
                Some(GatewayClient { base, key })
            } else {
                None
            },
    {
        if healthy {
            Some(GatewayClient { base, key })
        } else {
            None
        }
    }

    /// The address of a path.
    pub fn url(&self, path: &str) -> (r: String)
        ensures
            r@ == self.base@ + path@,
    {
        text::prefixed(&self.base, path)
    }

    pub fn memories(&self) -> (r: Request)
        ensures
            r.gets(self.base@, "/api/memories"@),
    {
        Request::get(&self.base, "/api/memories")
    }

    pub fn tasks(&self) -> (r: Request)
        ensures
            r.gets(self.base@, "/api/tasks"@),
    {
        Request::get(&self.base, "/api/tasks")
    }

    pub fn runs(&self, limit: usize) -> (r: Request)
        ensures
            r.gets(self.base@, "/api/runs?limit="@ + number::decimal(limit as nat)),
    {
        Request::get(&self.base, &text::prefixed("/api/runs?limit=", &number::write_size(limit)))
    }

    pub fn run(&self, id: &str) -> (r: Request)
        ensures
            r.gets(self.base@, "/api/runs/"@ + id@),
    {
        Request::get(&self.base, &text::prefixed("/api/runs/", id))
    }

    /// Resumes an interrupted run, as a trusted turn.
    pub fn resume(&self, id: &str) -> (r: Request)
        ensures
            r.posts(
                self.base@,
                "/api/runs/"@ + id@ + "/resume"@,
                seq![("X-Shion-Trusted"@, "1"@)],
                None,
            ),
    {
        let r = Request::post(&self.base, &text::between("/api/runs/", id, "/resume"), None)
            .with_header("X-Shion-Trusted", "1");
        assert(request::headers_of(r.headers@) =~= seq![("X-Shion-Trusted"@, "1"@)]);
        r
    }

    /// What stands against a resumed run, by the status of the answer; `said` is the
    /// error text in the answer.
    pub fn resume_refusal(id: &str, status: u16, said: Option<String>) -> (r: Option<String>)
        ensures
            text::opt_text(r) == if status == 404 {
                Some("no run with id `"@ + id@ + "`"@)
            } else if status == 409 {
                Some(
                    match said {
                        Some(s) => s@,
                        None => "run is not recoverable"@,
                    },
                )
            } else {
                None
            },
    {
        if status == 404 {
            Some(text::between("no run with id `", id, "`"))
        } else if status == 409 {
            match said {
                Some(s) => Some(s),
                None => Some("run is not recoverable".to_owned()),
            }
        } else {
            None
        }
    }

    /// The error text in an answer, if it holds one.
    pub fn error_text(answer: &str) -> (r: Option<String>)
        ensures
            text::opt_text(r) == json::json_string_at(answer@, "/error"@),
    {
        json::string_at(answer, "/error")
    }

    pub fn sessions(&self) -> (r: Request)
        ensures
            r.gets(self.base@, "/api/sessions"@),
    {
        Request::get(&self.base, "/api/sessions")
    }

    pub fn reminders(&self) -> (r: Request)
        ensures
            r.gets(self.base@, "/api/reminders"@),
    {
        Request::get(&self.base, "/api/reminders")
    }

    /// Which turns loaded a skill.
    pub fn skill_audit(&self, name: &str) -> (r: Request)
        ensures
            r.gets(self.base@, "/api/skills/"@ + name@ + "/audit"@),
    {
        Request::get(&self.base, &text::between("/api/skills/", name, "/audit"))
    }

    pub fn pairings(&self) -> (r: Request)
        ensures
            r.gets(self.base@, "/api/pairings"@),
    {
        Request::get(&self.base, "/api/pairings")
    }

    /// The home channel chosen at run time.
    pub fn home_override(&self) -> (r: Request)
        ensures
            r.gets(self.base@, "/api/home"@),
    {
        Request::get(&self.base, "/api/home")
    }

    /// The dry run of a dream cycle.
    pub fn dream_preview(&self) -> (r: Request)
        ensures
            r.gets(self.base@, "/api/dream"@),
    {
        Request::get(&self.base, "/api/dream")
    }

    /// A transition of a memory: `promote`, `reject` or `pin`.
    pub fn memory_transition(&self, id: &str, action: &str) -> (r: Request)
        ensures
            r.posts(
                self.base@,
                "/api/memories/"@ + id@ + "/"@ + action@,
                Seq::empty(),
                None,
            ),
    {
        let mut path = text::between("/api/memories/", id, "/");
        path.push_str(action);
        Request::post(&self.base, &path, None)
    }

    /// What stands against a transition, by the status of the answer.
    pub fn transition_refusal(id: &str, status: u16) -> (r: Option<String>)
        ensures
            text::opt_text(r) == if status == 404 {
                Some("no memory with id `"@ + id@ + "`"@)
            } else {
                None
            },
    {
        if status == 404 {
            Some(text::between("no memory with id `", id, "`"))
        } else {
            None
        }
    }

    /// One chat turn of a session, trusted.
    pub fn chat(&self, session: &str, message: &str) -> (r: Request)
        ensures
            r.posts(
                self.base@,
                "/v1/chat/completions"@,
                seq![("X-Shion-Session-Id"@, session@), ("X-Shion-Trusted"@, "1"@)],
                Some(request::chat_body("shion"@, message@)),
            ),
    {
        let r = Request::post(
            &self.base,
            "/v1/chat/completions",
            Some(write_chat_body("shion", message)),
        ).with_header("X-Shion-Session-Id", session).with_header("X-Shion-Trusted", "1");
        assert(request::headers_of(r.headers@) =~= seq![
            ("X-Shion-Session-Id"@, session@),
            ("X-Shion-Trusted"@, "1"@),
        ]);
        r
    }

    /// The reply of a chat turn.
    pub fn chat_answer(answer: &str) -> (r: Result<String, String>)
        ensures
            match json::json_fault(answer@) {
                Some(e) => r matches Err(x) && x@ == e,
                None => r matches Ok(s) && s@ == match json::json_string_at(
                    answer@,
                    "/choices/0/message/content"@,
                ) {
                    Some(t) => t,
                    None => Seq::empty(),
                },
            },
    {
        chat_reply(answer)
    }
}

/// Refuses a command that needs the store while a gateway holds it.
pub fn refuse_if_gateway_running(action: &str, running: bool) -> (r: Result<(), String>)
    ensures
        match r {
            Ok(_) => !running,
            Err(e) => running && e@ == "the gateway is running and holds the db lock, so `"@
                + action@
                + "` can't open it.\nStop it with `shion gateway stop` to run this (or do it from chat where supported, e.g. `/pair …`)."@,
        },
{
    if running {
        Err(
            text::between(
                "the gateway is running and holds the db lock, so `",
                action,
                "` can't open it.\nStop it with `shion gateway stop` to run this (or do it from chat where supported, e.g. `/pair …`).",
            ),
        )
    } else {
        Ok(())
    }
}

/// Whether a gateway is healthy: advertised, and answering its probe.
pub fn health(advertised: Option<(u32, &str)>, answering: bool, file: &str) -> (r: Result<
    String,
    String,
>)
    ensures
        match advertised {
            None => r matches Err(e) && e@ == "unhealthy: no gateway advertised at "@ + file@
                + " (not running, or it crashed before writing the rendezvous file)"@,
            Some((pid, base)) => if answering {
                r matches Ok(s) && s@ == "healthy: gateway pid "@ + number::decimal(pid as nat)
                    + " answering at "@ + base@
            } else {
                r matches Err(e) && e@ == "unhealthy: gateway advertised at "@ + base@ + " (pid "@
                    + number::decimal(pid as nat) + ") but /health does not answer"@
            },
        },
{
    match advertised {
        None => Err(
            text::between(
                "unhealthy: no gateway advertised at ",
                file,
                " (not running, or it crashed before writing the rendezvous file)",
            ),
        ),
        Some((pid, base)) => {
            let pid = number::write_unsigned(pid as u64);
            if answering {
                let mut out = text::between("healthy: gateway pid ", &pid, " answering at ");
                out.push_str(base);
                Ok(out)
            } else {
                let mut out = text::between("unhealthy: gateway advertised at ", base, " (pid ");
                out.push_str(&pid);
                out.push_str(") but /health does not answer");
                Err(out)
            }
        },
    }
}

} // verus!
