//! What holds of what the window asks and shows, in terms of what goes in and comes out.
use crate::gui::api::{ApiClient, ChatMode};
use crate::gui::md;
use crate::gui::md::Piece;
use crate::json;
use crate::request;
use crate::request::{Method, Request};
use crate::text;
use vstd::prelude::*;

verus! {

/// Whether a request reads, from a place below the gateway's address, and sends nothing.
pub open spec fn reads_from(r: Request, base: Seq<char>, place: Seq<char>) -> bool {
    &&& r.method == Method::Get
    &&& r.url@ == base + place
    &&& r.headers@.len() == 0
    &&& r.body is None
}

/// Whether a request asks for a change at a place below the gateway's address.
pub open spec fn changes_at(r: Request, base: Seq<char>, place: Seq<char>) -> bool {
    r.method == Method::Post && r.url@ == base + place && r.headers@.len() == 0
}

proof fn lemma_no_headers(r: Request)
    ensures
        request::headers_of(r.headers@) == Seq::<(Seq<char>, Seq<char>)>::empty()
            <==> r.headers@.len() == 0,
{
    if r.headers@.len() == 0 {
        assert(request::headers_of(r.headers@) =~= Seq::<(Seq<char>, Seq<char>)>::empty());
    } else {
        assert(request::headers_of(r.headers@).len() == r.headers@.len());
    }
}

/// What the window shows it reads, each from its own place, and a run or a session by its
/// own id.
pub proof fn the_window_reads(
    api: &ApiClient,
    id: &str,
    health: Request,
    status: Request,
    tasks: Request,
    sessions: Request,
    reminders: Request,
    skills: Request,
    pairings: Request,
    dream: Request,
    one_run: Request,
    messages: Request,
    waiting: Request,
)
    requires
        call_ensures(ApiClient::is_healthy, (api,), health),
        call_ensures(ApiClient::status, (api,), status),
        call_ensures(ApiClient::tasks, (api,), tasks),
        call_ensures(ApiClient::sessions, (api,), sessions),
        call_ensures(ApiClient::reminders, (api,), reminders),
        call_ensures(ApiClient::skills, (api,), skills),
        call_ensures(ApiClient::pairings, (api,), pairings),
        call_ensures(ApiClient::dream_preview, (api,), dream),
        call_ensures(ApiClient::run, (api, id), one_run),
        call_ensures(ApiClient::session_messages, (api, id), messages),
        call_ensures(ApiClient::interactions, (api, id), waiting),
    ensures
        reads_from(health, api.base@, "/health"@),
        reads_from(status, api.base@, "/api/status"@),
        reads_from(tasks, api.base@, "/api/tasks"@),
        reads_from(sessions, api.base@, "/api/sessions"@),
        reads_from(reminders, api.base@, "/api/reminders"@),
        reads_from(skills, api.base@, "/api/skills"@),
        reads_from(pairings, api.base@, "/api/pairings"@),
        reads_from(dream, api.base@, "/api/dream"@),
        reads_from(one_run, api.base@, "/api/runs/"@ + id@),
        reads_from(messages, api.base@, "/api/sessions/"@ + id@ + "/messages"@),
        reads_from(waiting, api.base@, "/api/interactions/"@ + id@),
{
    lemma_no_headers(health);
    lemma_no_headers(status);
    lemma_no_headers(tasks);
    lemma_no_headers(sessions);
    lemma_no_headers(reminders);
    lemma_no_headers(skills);
    lemma_no_headers(pairings);
    lemma_no_headers(dream);
    lemma_no_headers(one_run);
    lemma_no_headers(messages);
    lemma_no_headers(waiting);
}

/// What the window changes it asks for by a post to the thing's own place; a decision or an
/// answer goes to its own session, with what was decided or said.
pub proof fn the_window_changes(
    api: &ApiClient,
    id: &str,
    said: &str,
    moved: Request,
    cleaned: Request,
    applied: Request,
    resumed: Request,
    revoked: Request,
    approved: Request,
    decided: Request,
    answered: Request,
)
    requires
        call_ensures(ApiClient::memory_transition, (api, id, said), moved),
        call_ensures(ApiClient::clean_sessions, (api,), cleaned),
        call_ensures(ApiClient::dream_apply, (api,), applied),
        call_ensures(ApiClient::resume_run, (api, id), resumed),
        call_ensures(ApiClient::pair_revoke, (api, id), revoked),
        call_ensures(ApiClient::pair_approve, (api, said), approved),
        call_ensures(ApiClient::resolve_approval, (api, id, said), decided),
        call_ensures(ApiClient::answer_question, (api, id, said), answered),
    ensures
        changes_at(moved, api.base@, "/api/memories/"@ + id@ + "/"@ + said@),
        changes_at(cleaned, api.base@, "/api/sessions/clean"@),
        changes_at(applied, api.base@, "/api/dream/apply"@),
        changes_at(resumed, api.base@, "/api/runs/"@ + id@ + "/resume"@),
        changes_at(revoked, api.base@, "/api/pairings/"@ + id@ + "/revoke"@),
        changes_at(approved, api.base@, "/api/pairings/approve"@),
        changes_at(decided, api.base@, "/api/interactions/"@ + id@ + "/approval"@),
        changes_at(answered, api.base@, "/api/interactions/"@ + id@ + "/answer"@),
        approved.body is Some && text::has_part(approved.body->0@, json::json_quoted(said@)),
        decided.body is Some && text::has_part(decided.body->0@, json::json_quoted(said@)),
        answered.body is Some && text::has_part(answered.body->0@, json::json_quoted(said@)),
{
    lemma_no_headers(moved);
    lemma_no_headers(cleaned);
    lemma_no_headers(applied);
    lemma_no_headers(resumed);
    lemma_no_headers(revoked);
    lemma_no_headers(approved);
    lemma_no_headers(decided);
    lemma_no_headers(answered);
    lemma_body("code"@, said@);
    lemma_body("decision"@, said@);
    lemma_body("text"@, said@);
}

proof fn lemma_body(key: Seq<char>, value: Seq<char>)
    ensures
        text::has_part(
            "{"@ + json::json_quoted(key) + ":"@ + json::json_quoted(value) + "}"@,
            json::json_quoted(value),
        ),
{
    let whole = "{"@ + json::json_quoted(key) + ":"@ + json::json_quoted(value) + "}"@;
    let front = "{"@ + json::json_quoted(key) + ":"@;
    text::lemma_part_of_itself(json::json_quoted(value));
    text::lemma_part_of_part(
        whole,
        front,
        json::json_quoted(value),
        "}"@,
        json::json_quoted(value),
    );
}

/// A chat turn names its session and says the message; it is trusted only in the trusted
/// mode.
pub proof fn chats_name_their_session(
    api: &ApiClient,
    session: &str,
    message: &str,
    mode: ChatMode,
    r: Request,
)
    requires
        call_ensures(ApiClient::chat, (api, session, message, mode), r),
    ensures
        r.method == Method::Post,
        r.url@ == api.base@ + "/v1/chat/completions"@,
        r.headers@.len() == 2,
        r.headers@[0].0@ == "X-Komo-Session-Id"@ && r.headers@[0].1@ == session@,
        r.headers@[1].0@ == "X-Komo-Trusted"@ <==> mode is Trusted,
        r.headers@[1].0@ == "X-Komo-Interactive"@ <==> mode is Interactive,
        r.headers@[1].1@ == "1"@,
        r.body is Some,
        text::has_part(r.body->0@, json::json_quoted(message@)),
{
    reveal_strlit("X-Komo-Trusted");
    reveal_strlit("X-Komo-Interactive");
    assert("X-Komo-Trusted"@.len() != "X-Komo-Interactive"@.len());
    let h = request::headers_of(r.headers@);
    assert(h.len() == r.headers@.len());
    assert(h[0] == (r.headers@[0].0@, r.headers@[0].1@));
    assert(h[1] == (r.headers@[1].0@, r.headers@[1].1@));
    let said = json::json_quoted(message@);
    let front = "{\"messages\":[{\"content\":"@;
    let back = ",\"role\":\"user\"}],\"model\":"@ + json::json_quoted("komo"@)
        + ",\"stream\":false}"@;
    assert(r.body->0@ =~= front + said + back);
    text::lemma_part_of_itself(said);
    text::lemma_part_of_part(r.body->0@, front, said, back, said);
}

/// Raw HTML in a document is shown as the text it is, and every other piece is handed on as
/// it was.
pub proof fn html_is_shown_as_text(pieces: Vec<Piece>, r: Vec<Piece>, i: int)
    requires
        call_ensures(md::neutralize, (pieces,), r),
        0 <= i < pieces@.len(),
    ensures
        r@.len() == pieces@.len(),
        !(r@[i] is Html) && !(r@[i] is InlineHtml),
        pieces@[i] matches Piece::Html(s) ==> r@[i] is Text && r@[i]->Text_0@ == s@,
        pieces@[i] matches Piece::InlineHtml(s) ==> r@[i] is Text && r@[i]->Text_0@ == s@,
        pieces@[i] matches Piece::Text(s) ==> r@[i] is Text && r@[i]->Text_0@ == s@,
        pieces@[i] is Markdown ==> r@[i] is Markdown,
{
    let a = md::pieces_of(pieces@);
    let b = md::pieces_of(r@);
    assert(a.len() == pieces@.len() && b.len() == r@.len());
    assert(b.len() == a.len());
    assert(b[i] == md::as_text(a[i]));
    assert(a[i] == pieces@[i]@ && b[i] == r@[i]@);
}

} // verus!
