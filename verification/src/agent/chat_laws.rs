//! What holds of turns, chats and approvals, in terms of what goes in and comes out.
use crate::agent::dispatcher;
use crate::agent::dispatcher::{
    Admission, GatewayDispatcher, QueuedMessage, TurnEnd,
};
use crate::agent::interaction;
use crate::agent::interaction::{
    ApprovalState, ChatApprover, Command, Consent, Decision, Outcome, PairAction, PendingApproval,
};
use crate::agent::pairing::{Gate, GateStep, KnownSender, PairingGuard};
use crate::agent::planner;
use crate::agent::planner::KeywordPlanner;
use crate::agent::runtime;
use crate::agent::runtime::{
    AgentRuntime, LoopAction, ModelStep, TurnLoop,
};
use crate::casing;
use crate::domain::approval::{ApprovalRequest, Risk};
use crate::domain::context::SessionContext;
use crate::domain::message::{Message, Role, Session};
use crate::domain::pairing::{PairingRequest, PairingStatus};
use crate::domain::planner::{Plan, Planner};
use crate::domain::run::{Run, RunStatus};
use crate::number;
use crate::text;
use vstd::prelude::*;

verus! {

// ---------------------------------------------------------------------------
// Turns
// ---------------------------------------------------------------------------

/// What a step of the model leads to: a reply ends the turn as it stands; tool calls run
/// as they are while fewer rounds ran than the budget has; after that they are answered
/// once, each under its own name and none of them run; and asking again ends the turn.
pub proof fn rounds_are_budgeted(l: &mut TurnLoop, step: ModelStep, r: LoopAction)
    requires
        call_ensures(TurnLoop::advance, (l, step), r),
        old(l).rounds <= old(l).max_turns,
        old(l).over ==> old(l).rounds == old(l).max_turns,
    ensures
        final(l).max_turns == old(l).max_turns,
        final(l).rounds <= final(l).max_turns,
        step matches ModelStep::Reply(t) ==> r == LoopAction::Finish(t),
        step matches ModelStep::ToolCalls(calls) ==> match r {
            LoopAction::Execute(run) => {
                &&& run == calls
                &&& old(l).rounds < old(l).max_turns
                &&& final(l).rounds == old(l).rounds + 1
                &&& final(l).over == old(l).over
            },
            LoopAction::Report(out) => {
                &&& old(l).rounds == old(l).max_turns
                &&& !old(l).over && final(l).over
                &&& final(l).rounds == old(l).rounds
                &&& out@.len() == calls@.len()
                &&& forall|i: int|
                    0 <= i < out@.len() ==> (#[trigger] out@[i]).id@ == calls@[i].id@
                        && out@[i].call_id == calls@[i].call_id && out@[i].content@.len() > 0
            },
            LoopAction::Finish(t) => old(l).over && t@.len() > 0,
        },
{
    reveal_strlit(
        "Tool-call budget for this turn reached; do not call any more tools. Reply to the user now using what you already have.",
    );
    reveal_strlit("(Reached the tool-call limit for this turn; answering with what I have.)");
}

/// A turn starts with its whole budget.
pub proof fn turns_start_afresh(agent: &AgentRuntime, r: TurnLoop)
    requires
        call_ensures(AgentRuntime::run_turn, (agent,), r),
    ensures
        r.rounds == 0,
        !r.over,
        r.max_turns == agent.max_turns,
{
}

/// Where sessions are looked over, they are after every turn whose number is a multiple of
/// the interval, and after every turn where the interval is zero or one.
pub proof fn sessions_are_looked_over_at_intervals(
    agent: &AgentRuntime,
    turns: usize,
    k: usize,
    r: bool,
)
    requires
        call_ensures(AgentRuntime::wants_review, (agent, turns), r),
    ensures
        !agent.reviewer ==> !r,
        agent.reviewer && agent.review_interval <= 1 ==> r,
        agent.reviewer && turns == k * agent.review_interval ==> r,
        agent.review_interval > 1 && k * agent.review_interval < turns < (k + 1)
            * agent.review_interval ==> !r,
{
    let n = agent.review_interval as int;
    if n > 1 {
        if turns == k * agent.review_interval {
            assert(turns as int % n == 0) by (nonlinear_arith)
                requires
                    turns as int == k as int * n,
                    n > 1,
            ;
        }
        if k * agent.review_interval < turns < (k + 1) * agent.review_interval {
            let d = turns as int - k as int * n;
            assert((k as int + 1) * n == k as int * n + n) by (nonlinear_arith);
            assert(turns as int % n == d) by (nonlinear_arith)
                requires
                    turns as int == k as int * n + d,
                    0 <= d < n,
            ;
        }
    } else if n == 1 {
        assert(turns as int % 1 == 0);
    }
}

/// Closing the entry of a turn says how it ended: a reply means done and leaves the error,
/// an error means failed and leaves the reply; what identifies the run stays.
pub proof fn closed_runs_say_how_they_ended(
    opened: Run,
    steps: i64,
    ended_at: i64,
    outcome: &Result<String, String>,
    r: Run,
)
    requires
        call_ensures(runtime::close_run, (opened, steps, ended_at, outcome), r),
    ensures
        outcome is Ok <==> r.status == RunStatus::Done,
        outcome is Err <==> r.status == RunStatus::Failed,
        outcome is Ok ==> r.error == opened.error,
        outcome is Err ==> r.final_output == opened.final_output,
        r.ended_at == Some(ended_at),
        r.id == opened.id,
        r.session_id == opened.session_id,
        r.started_at == opened.started_at,
        r.input == opened.input,
        r.recoverable == opened.recoverable,
        steps == 0 <==> r.plan@ == "respond"@,
{
    reveal_strlit("respond");
    reveal_strlit(" tool call(s)");
    let tail = " tool call(s)"@;
    if steps != 0 {
        assert(r.plan@[r.plan@.len() - 1] == tail[tail.len() - 1]);
        assert("respond"@[6] == 'd');
        assert(tail[12] == ')');
    }
}

/// A turn works on the session on file, or on an empty one that is to be saved.
pub proof fn sessions_open_as_they_are(
    found: Option<Session>,
    id: &str,
    now: i64,
    r: (Session, bool),
)
    requires
        call_ensures(runtime::open_session, (found, id, now), r),
    ensures
        found matches Some(s) ==> r.0 == s,
        found is None ==> r.0.messages@.len() == 0 && r.0.id@ == id@ && r.0.created_at == now,
        r.1 <==> found is None,
{
}

// ---------------------------------------------------------------------------
// Chats
// ---------------------------------------------------------------------------

/// A message starts a turn where none of its session runs, and otherwise waits behind at
/// most one other; what is turned away is handed back. No other session is touched, and
/// what waited before still does, in its order.
pub proof fn at_most_two_messages_wait<S>(
    d: &mut GatewayDispatcher<S>,
    session: &str,
    input: String,
    sink: S,
    r: Admission<S>,
)
    requires
        call_ensures(GatewayDispatcher::<S>::spawn_turn, (d, session, input, sink), r),
    ensures
        r is Start <==> !old(d)@.dom().contains(session@),
        r is Queued <==> old(d)@.dom().contains(session@) && old(d)@[session@].len() < 2,
        r is Rejected <==> old(d)@.dom().contains(session@) && old(d)@[session@].len() >= 2,
        r matches Admission::Start(m) ==> m.input == input && m.sink == sink,
        r matches Admission::Rejected(s) ==> s == sink,
        final(d)@.dom().contains(session@),
        r is Start ==> final(d)@[session@].len() == 0,
        r is Queued ==> final(d)@[session@] == old(d)@[session@].push(
            QueuedMessage { input, sink },
        ),
        r is Rejected ==> final(d)@[session@] == old(d)@[session@],
        forall|s: Seq<char>|
            s != session@ ==> (#[trigger] final(d)@.dom().contains(s) <==> old(d)@.dom().contains(s))
                && final(d)@[s] == old(d)@[s],
{
}

/// The message that waits longest runs next, and the session stays in flight; with nothing
/// waiting the session is idle. No other session is touched.
pub proof fn the_longest_waiting_runs_next<S>(
    d: &mut GatewayDispatcher<S>,
    session: &str,
    r: Option<QueuedMessage<S>>,
)
    requires
        call_ensures(GatewayDispatcher::<S>::finish_turn, (d, session), r),
        old(d)@.dom().contains(session@),
    ensures
        r is None <==> old(d)@[session@].len() == 0,
        final(d)@.dom().contains(session@) <==> r is Some,
        r matches Some(m) ==> old(d)@[session@] == seq![m] + final(d)@[session@],
        forall|s: Seq<char>|
            s != session@ ==> (#[trigger] final(d)@.dom().contains(s) <==> old(d)@.dom().contains(s))
                && final(d)@[s] == old(d)@[s],
{
    let q = old(d)@[session@];
    if q.len() > 0 {
        assert(q =~= seq![q[0]] + q.skip(1));
    }
}

/// A message that waits alone behind a turn is the one that runs when the turn ends, and
/// then the queue is as it was.
pub proof fn a_lone_waiter_runs_next<S>(
    d: &mut GatewayDispatcher<S>,
    e: &mut GatewayDispatcher<S>,
    session: &str,
    input: String,
    sink: S,
    taken: Admission<S>,
    next: Option<QueuedMessage<S>>,
)
    requires
        call_ensures(GatewayDispatcher::<S>::spawn_turn, (d, session, input, sink), taken),
        old(d)@.dom().contains(session@),
        old(d)@[session@].len() == 0,
        old(e)@ == final(d)@,
        call_ensures(GatewayDispatcher::<S>::finish_turn, (e, session), next),
    ensures
        next == Some(QueuedMessage { input, sink }),
        final(e)@ == old(d)@,
{
    let q = old(d)@[session@];
    let m = QueuedMessage { input, sink };
    assert(q.push(m)[0] == m);
    assert(q.push(m).skip(1) =~= q);
    assert(final(e)@ =~= old(d)@);
}

/// Cutting a turn off releases its session, and no other, and tells how many messages
/// were lost.
pub proof fn abandoned_sessions_are_released<S>(
    d: &mut GatewayDispatcher<S>,
    session: &str,
    r: usize,
)
    requires
        call_ensures(GatewayDispatcher::<S>::abandon, (d, session), r),
    ensures
        !final(d)@.dom().contains(session@),
        old(d)@.dom().contains(session@) ==> r == old(d)@[session@].len(),
        !old(d)@.dom().contains(session@) ==> r == 0,
        forall|s: Seq<char>|
            s != session@ ==> (#[trigger] final(d)@.dom().contains(s) <==> old(d)@.dom().contains(s))
                && final(d)@[s] == old(d)@[s],
{
}

/// The words of each command, folded to small letters.
pub open spec fn is_command_word(lower: Seq<char>) -> bool {
    ||| lower == "/pair"@ || text::has_prefix(lower, "/pair "@)
    ||| lower == "/new"@ || lower == "/clear"@ || lower == "/reset"@
    ||| lower == "/approve"@ || lower == "/yes"@ || lower == "/y"@ || lower == "/ok"@
    ||| lower == "/approve session"@ || lower == "/approve all"@
    ||| lower == "/deny"@ || lower == "/no"@ || lower == "/n"@
    ||| lower == "/sethome"@ || lower == "/home"@
    ||| lower == "/wechat"@ || lower == "/wechat login"@ || lower == "/weixin"@
}

/// A message is a command exactly where, trimmed and folded, it is one of the words for
/// it; anything else is plain text as it was sent. An approval never comes out of another
/// word, and a denial never out of an approval's.
pub proof fn commands_are_their_words(message: &str, c: Command)
    requires
        call_ensures(interaction::classify, (message,), c),
    ensures
        c is Plain <==> !is_command_word(casing::lowercase(text::trimmed(message@))),
        c matches Command::Plain(s) ==> s@ == message@,
        ({
            let lower = casing::lowercase(text::trimmed(message@));
            &&& c == Command::Approve(Decision::Once) ==> lower == "/approve"@ || lower == "/yes"@
                || lower == "/y"@ || lower == "/ok"@
            &&& c == Command::Approve(Decision::Session) ==> lower == "/approve session"@ || lower
                == "/approve all"@
            &&& c != Command::Approve(Decision::Deny)
            &&& c is Deny ==> lower == "/deny"@ || lower == "/no"@ || lower == "/n"@
            &&& c is New ==> lower == "/new"@ || lower == "/clear"@ || lower == "/reset"@
            &&& c is SetHome ==> lower == "/sethome"@ || lower == "/home"@
            &&& c is WechatLogin ==> lower == "/wechat"@ || lower == "/wechat login"@ || lower
                == "/weixin"@
            &&& c is Pair ==> lower == "/pair"@ || text::has_prefix(lower, "/pair "@)
        }),
{
}

/// A pairing command names its code or id as it was written, by the third word; an approval
/// comes only out of the word for it and with a code.
pub proof fn pairing_commands_keep_the_code(message: &str, c: Command)
    requires
        call_ensures(interaction::classify, (message,), c),
    ensures
        ({
            let w = text::words(text::trimmed(message@));
            &&& c matches Command::Pair(PairAction::Approve(code)) ==> w.len() > 2 && code@ == w[2]
                && casing::lowercase(w[1]) == "approve"@
            &&& c matches Command::Pair(PairAction::Revoke(id)) ==> w.len() > 2 && id@ == w[2]
                && casing::lowercase(w[1]) == "revoke"@
            &&& c matches Command::Pair(PairAction::List) ==> w.len() < 2 || casing::lowercase(w[1])
                == "list"@
            &&& c matches Command::Pair(PairAction::Usage) ==> w.len() > 1 && casing::lowercase(
                w[1],
            ) != "list"@
        }),
{
}

/// A turn never leaves its chat without an answer: its reply as it is, or that it failed.
pub proof fn replies_reach_the_chat(end: TurnEnd, r: String)
    requires
        call_ensures(dispatcher::turn_reply, (end,), r),
    ensures
        end matches TurnEnd::Replied(t) ==> r@ == t@,
        end matches TurnEnd::Failed(e) ==> text::has_suffix(r@, e@) && r@.len() > e@.len(),
        end is Panicked ==> r@.len() > 0,
{
    reveal_strlit("处理消息时出错了: ");
    reveal_strlit("处理消息时发生内部错误，请重试。");
    if let TurnEnd::Failed(e) = end {
        assert(r@.subrange(r@.len() - e@.len(), r@.len() as int) =~= e@);
    }
}

// ---------------------------------------------------------------------------
// Approvals
// ---------------------------------------------------------------------------

/// What an approver makes of a request: safe ones run; others are refused where nobody can
/// answer, allowed where the session is trusted or the user approved their kind for this
/// session, and asked about otherwise.
pub proof fn consent_is_given_by_someone(
    approver: &ChatApprover,
    request: &ApprovalRequest,
    ctx: Option<&SessionContext>,
    r: Consent,
)
    requires
        call_ensures(ChatApprover::approve, (approver, request, ctx), r),
    ensures
        request.risk == Risk::Safe ==> r is Allowed,
        r is Allowed && request.risk != Risk::Safe ==> ctx is Some && (ctx->0.auto_approve || (
        ctx->0.interactive && request.scope_key is Some && approver.state.approved_for(
            ctx->0.session_id@,
        ).contains(request.scope_key->0@))),
        r is Ask ==> ctx is Some && ctx->0.interactive && !ctx->0.auto_approve && request.risk
            != Risk::Safe,
        request.risk != Risk::Safe && ctx is None ==> r is Refused,
        request.risk != Risk::Safe && ctx is Some && !ctx->0.interactive && !ctx->0.auto_approve
            ==> r is Refused,
        ctx is Some && ctx->0.auto_approve ==> r is Allowed,
        ctx is Some && ctx->0.interactive && request.scope_key is Some
            && approver.state.approved_for(ctx->0.session_id@).contains(request.scope_key->0@)
            ==> r is Allowed,
        r matches Consent::Ask(p) ==> text::has_part(p@, request.summary@),
{
    if let Consent::Ask(p) = r {
        let head = if request.risk == Risk::Dangerous {
            "🛑 需要审批（危险操作）："@
        } else {
            "⚠️ 需要审批："@
        };
        assert(p@.subrange(head.len() as int, (head.len() + request.summary@.len()) as int)
            =~= request.summary@);
        assert(text::occurs_at(p@, request.summary@, head.len() as int));
    }
}

/// Only an approval allows: a denial, a dropped prompt and silence do not. What is approved
/// for the session is remembered for that session alone, and what is approved once is not.
pub proof fn only_sessions_remember(
    approver: &mut ChatApprover,
    session: &str,
    request: &ApprovalRequest,
    outcome: Outcome,
    r: bool,
)
    requires
        call_ensures(ChatApprover::conclude, (approver, session, request, outcome), r),
    ensures
        r <==> outcome == Outcome::Decided(Decision::Once) || outcome == Outcome::Decided(
            Decision::Session,
        ),
        forall|s: Seq<char>, key: Seq<char>| #[trigger]
            final(approver).state.approved_for(s).contains(key) <==> old(
                approver,
            ).state.approved_for(s).contains(key) || (s == session@ && outcome == Outcome::Decided(
                Decision::Session,
            ) && request.scope_key is Some && request.scope_key->0@ == key),
{
}

/// What the user approved for a session is not asked about again in it.
pub proof fn session_approvals_last(
    before: &mut ChatApprover,
    after: &ChatApprover,
    request: &ApprovalRequest,
    ctx: &SessionContext,
    ok: bool,
    r: Consent,
    session: &str,
)
    requires
        session@ == ctx.session_id@,
        ctx.interactive,
        request.scope_key is Some,
        call_ensures(
            ChatApprover::conclude,
            (before, session, request, Outcome::Decided(Decision::Session)),
            ok,
        ),
        *after == *final(before),
        call_ensures(ChatApprover::approve, (after, request, Some(ctx)), r),
    ensures
        ok,
        r is Allowed,
{
}

/// Clearing a session forgets its prompt and its approvals, and nothing of any other.
pub proof fn cleared_sessions_are_forgotten(state: &mut ApprovalState, session: &str)
    requires
        call_ensures(ApprovalState::clear, (state, session), ()),
    ensures
        !final(state).waiting().dom().contains(session@),
        final(state).approved_for(session@) == Set::<Seq<char>>::empty(),
        forall|s: Seq<char>|
            s != session@ ==> #[trigger] final(state).approved_for(s) == old(state).approved_for(s),
        forall|s: Seq<char>|
            s != session@ ==> (#[trigger] final(state).waiting().dom().contains(s) <==> old(
                state,
            ).waiting().dom().contains(s)),
{
}

/// A prompt that was registered can be resolved once.
pub proof fn prompts_are_resolved_once(
    a: &mut ApprovalState,
    b: &mut ApprovalState,
    c: &mut ApprovalState,
    session: &str,
    info: PendingApproval,
    first: bool,
    second: bool,
)
    requires
        call_ensures(ApprovalState::register, (a, session, info), ()),
        *old(b) == *final(a),
        call_ensures(ApprovalState::resolve, (b, session), first),
        *old(c) == *final(b),
        call_ensures(ApprovalState::resolve, (c, session), second),
    ensures
        first,
        !second,
{
}

// ---------------------------------------------------------------------------
// The pairing gate
// ---------------------------------------------------------------------------

/// A message comes through exactly where its sender is trusted by the configuration or was
/// approved; a code on file holds for an hour, and then, or on first contact, a fresh one
/// is made. Who is held off is told the code on file.
pub proof fn the_gate_opens_for_the_paired(
    guard: &PairingGuard,
    sender: &str,
    found: &Option<KnownSender>,
    now: i64,
    r: GateStep,
)
    requires
        call_ensures(PairingGuard::check, (guard, sender, found, now), r),
    ensures
        r is Decided && r->Decided_0 is Allowed <==> guard.trusted().contains(sender@) || (found
            is Some && found->0.status == PairingStatus::Approved),
        r is Mint <==> !guard.trusted().contains(sender@) && (found is None || (found->0.status
            == PairingStatus::Pending && now - found->0.created_at > 3600)),
        r matches GateStep::Decided(Gate::Denied { reply }) ==> found is Some && text::has_part(
            reply@,
            found->0.code@,
        ),
{
    if let GateStep::Decided(Gate::Denied { reply }) = r {
        let lead = "此账号尚未与 shion 配对。配对码: "@;
        let code = found->0.code@;
        assert(reply@.subrange(lead.len() as int, (lead.len() + code.len()) as int) =~= code);
        assert(text::occurs_at(reply@, code, lead.len() as int));
    }
}

// ---------------------------------------------------------------------------
// Routing and waiting
// ---------------------------------------------------------------------------

/// A message is routed to the clock exactly where it speaks of the time; without one, and
/// for any other, the model answers.
pub proof fn only_questions_of_time_go_to_the_clock(lower: Option<&str>, r: Plan)
    requires
        call_ensures(planner::plan_for, (lower,), r),
    ensures
        r is CallTool <==> lower is Some && (text::has_part(lower->0@, "time"@) || text::has_part(
            lower->0@,
            "时间"@,
        ) || text::has_part(lower->0@, "now"@)),
        r matches Plan::CallTool { tool_name, input } ==> tool_name@ == "time"@ && input@.len()
            == 0,
{
}

/// What counts is the last message of the user, whatever the others said after it.
pub proof fn the_last_user_message_counts(
    p: &KeywordPlanner,
    session: &Session,
    r: Plan,
    n: int,
)
    requires
        call_ensures(<KeywordPlanner as Planner>::plan, (p, session), r),
        0 <= n < session.messages@.len(),
        session.messages@[n].role == Role::User,
        forall|k: int|
            n < k < session.messages@.len() ==> (#[trigger] session.messages@[k]).role
                != Role::User,
    ensures
        r is CallTool <==> {
            let lower = casing::lowercase(session.messages@[n].content@);
            text::has_part(lower, "time"@) || text::has_part(lower, "时间"@) || text::has_part(
                lower,
                "now"@,
            )
        },
{
    lemma_last_of_user(session.messages@, n);
}

proof fn lemma_last_of_user(messages: Seq<Message>, n: int)
    requires
        0 <= n < messages.len(),
        messages[n].role == Role::User,
        forall|k: int| n < k < messages.len() ==> (#[trigger] messages[k]).role != Role::User,
    ensures
        planner::last_of_user(messages) == Some(messages[n].content@),
    decreases messages.len(),
{
    if n < messages.len() - 1 {
        assert(messages[messages.len() - 1].role != Role::User);
        let short = messages.drop_last();
        assert forall|k: int| n < k < short.len() implies (#[trigger] short[k]).role
            != Role::User by {
            assert(short[k] == messages[k]);
        }
        lemma_last_of_user(short, n);
    }
}

/// A wait is told in whole minutes that cover it, and no minute more.
pub proof fn waits_are_told_in_whole_minutes(secs: i64, r: String)
    requires
        call_ensures(dispatcher::write_minutes, (secs,), r),
        secs > 0,
    ensures
        exists|m: int| 60 * m >= secs && 60 * (m - 1) < secs && r@ == #[trigger] number::signed(m),
{
    let m = dispatcher::minutes(secs as int);
    assert(60 * m >= secs && 60 * (m - 1) < secs);
    assert(r@ == number::signed(m));
}

/// Where a sender's pairing stands: approved, or waiting for an hour, or past it.
pub open spec fn standing(p: PairingRequest, now: i64) -> Seq<char> {
    match p.status {
        PairingStatus::Approved => "approved"@,
        PairingStatus::Pending => if now > p.created_at + 3600 {
            "expired"@
        } else {
            "pending"@
        },
    }
}

proof fn lemma_pairing_lines(list: Seq<PairingRequest>, now: i64, i: int)
    requires
        0 <= i < list.len(),
    ensures
        text::has_part(
            dispatcher::pairing_lines(list, now),
            list[i].id@ + " ["@ + standing(list[i], now) + "]"@,
        ),
    decreases list.len(),
{
    let init = list.drop_last();
    let p = list[i].id@ + " ["@ + standing(list[i], now) + "]"@;
    let s = dispatcher::pairing_lines(list, now);
    let front = dispatcher::pairing_lines(init, now);
    if i < init.len() {
        lemma_pairing_lines(init, now, i);
        let rest = "· "@ + list.last().id@ + " ["@ + dispatcher::pairing_state(list.last(), now)
            + "]\n"@;
        assert(s =~= Seq::empty() + front + rest);
        text::lemma_part_of_part(s, Seq::empty(), front, rest, p);
    } else {
        reveal_strlit("]\n");
        reveal_strlit("]");
        assert("]\n"@ =~= "]"@ + seq!['\n']);
        assert(s =~= (front + "· "@) + p + seq!['\n']);
        text::lemma_part_of_itself(p);
        text::lemma_part_of_part(s, front + "· "@, p, seq!['\n'], p);
    }
}

/// The list of pairings names every sender and where its pairing stands.
pub proof fn every_pairing_is_listed(list: &Vec<PairingRequest>, now: i64, r: String, i: int)
    requires
        call_ensures(dispatcher::pair_list_reply, (list, now), r),
        0 <= i < list@.len(),
    ensures
        text::has_part(r@, list@[i].id@ + " ["@ + standing(list@[i], now) + "]"@),
{
    lemma_pairing_lines(list@, now, i);
    let lines = dispatcher::pairing_lines(list@, now);
    let back = "\n批准：/pair approve <发送者给你的 code>"@;
    let p = list@[i].id@ + " ["@ + standing(list@[i], now) + "]"@;
    assert(r@ =~= Seq::empty() + lines + back);
    text::lemma_part_of_part(r@, Seq::empty(), lines, back, p);
}

} // verus!
