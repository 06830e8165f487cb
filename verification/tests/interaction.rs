use komo::agent::dispatcher::{
    approve_reply, deny_reply, home_reply, lookup_code, pair_approve_reply, pair_list_reply,
    pair_revoke_reply, pair_trouble, turn_reply, wechat_reply, write_minutes, Admission,
    GatewayDispatcher, Reaction, TurnEnd, QUEUE_CAP, QUEUE_FULL, TURN_PANICKED,
};
use komo::agent::gateway::{Gateway, MaintenanceService};
use komo::agent::interaction::{
    classify, prompt, ApprovalState, ChatApprover, Command, Consent, Decision, Outcome, PairAction,
    PendingApproval,
};
use komo::agent::pairing::{Gate, GateStep, KnownSender, PairingGuard};
use komo::agent::planner::{plan_for, KeywordPlanner};
use komo::agent::schedule::Schedule;
use komo::domain::approval::ApprovalRequest;
use komo::domain::context::{RunContext, SessionContext};
use komo::domain::message::{Message, Session};
use komo::domain::pairing::{ApproveOutcome, PairingRequest, PairingStatus, PAIRING_CODE_TTL_SECS};
use komo::domain::planner::{Plan, Planner};

#[test]
fn classify_matches_commands_case_insensitively() {
    assert_eq!(classify("/new"), Command::New);
    assert_eq!(classify("  /CLEAR "), Command::New);
    assert_eq!(classify("/approve"), Command::Approve(Decision::Once));
    assert_eq!(
        classify("/approve session"),
        Command::Approve(Decision::Session)
    );
    assert_eq!(classify("/deny"), Command::Deny);
    assert_eq!(classify("/sethome"), Command::SetHome);
    assert_eq!(classify(" /SetHome "), Command::SetHome);
    assert_eq!(classify("/wechat login"), Command::WechatLogin);
    assert_eq!(classify(" /WeChat "), Command::WechatLogin);
    assert_eq!(classify("hello"), Command::Plain("hello".to_string()));
    // A leading slash inside a longer message is plain text.
    assert_eq!(
        classify("/approve the budget"),
        Command::Plain("/approve the budget".to_string())
    );
}

#[test]
fn classify_parses_pair_subcommands_preserving_arg_case() {
    assert_eq!(classify("/pair"), Command::Pair(PairAction::List));
    assert_eq!(classify("/pair list"), Command::Pair(PairAction::List));
    // The verb is case-insensitive but the code/id keep their case.
    assert_eq!(
        classify("/PAIR approve aB12cD34"),
        Command::Pair(PairAction::Approve("aB12cD34".to_string()))
    );
    assert_eq!(
        classify("/pair revoke feishu:ou_AbC"),
        Command::Pair(PairAction::Revoke("feishu:ou_AbC".to_string()))
    );
    // Missing argument → usage, not a turn.
    assert_eq!(classify("/pair approve"), Command::Pair(PairAction::Usage));
    assert_eq!(
        classify("/pair frobnicate"),
        Command::Pair(PairAction::Usage)
    );
}

#[test]
fn resolve_returns_false_when_nothing_pending() {
    let mut state = ApprovalState::new();
    assert!(!state.resolve("s1"));
}

fn sample_pending() -> PendingApproval {
    PendingApproval {
        summary: "run shell command: ls".to_string(),
        detail: None,
        risk: "normal".to_string(),
    }
}

#[test]
fn register_then_resolve_delivers_the_decision() {
    let mut state = ApprovalState::new();
    state.register("s1", sample_pending());
    // The structured prompt is visible to the interactions poll while pending.
    assert_eq!(
        state.pending_info("s1").map(|p| p.summary),
        Some("run shell command: ls".to_string())
    );
    assert!(state.resolve("s1"));
    // Cleared once resolved.
    assert!(state.pending_info("s1").is_none());
    assert!(!state.resolve("s1"));
}

#[test]
fn clear_cancels_a_pending_wait() {
    let mut state = ApprovalState::new();
    state.register("s1", sample_pending());
    state.clear("s1");
    assert!(state.pending_info("s1").is_none());
    // A wait that is dropped counts as a denial.
    let mut approver = ChatApprover::new(state);
    let req = ApprovalRequest::normal("x");
    assert!(!approver.conclude("s1", &req, Outcome::Dropped));
}

#[test]
fn session_approval_cache_remembers_scope_keys() {
    let mut state = ApprovalState::new();
    assert!(!state.is_session_approved("s1", "file:write"));
    state.remember("s1", "file:write");
    assert!(state.is_session_approved("s1", "file:write"));
    // Scoped per session.
    assert!(!state.is_session_approved("s2", "file:write"));
    state.clear("s1");
    assert!(!state.is_session_approved("s1", "file:write"));
}

#[test]
fn chat_approval_asks_once_a_session() {
    let mut approver = ChatApprover::new(ApprovalState::default());
    let ctx = SessionContext::interactive_http("s1");
    let req = ApprovalRequest::normal("write file").with_scope_key("file:write");
    assert!(matches!(approver.approve(&req, Some(&ctx)), Consent::Ask(_)));
    approver.begin("s1", &req);
    assert!(approver.state.pending_info("s1").is_some());
    assert!(approver.state.resolve("s1"));
    assert!(approver.conclude("s1", &req, Outcome::Decided(Decision::Session)));
    assert!(matches!(approver.approve(&req, Some(&ctx)), Consent::Allowed));
}

#[test]
fn chat_approval_without_a_session_is_refused() {
    let approver = ChatApprover::new(ApprovalState::new());
    let req = ApprovalRequest::normal("write file");
    assert!(matches!(approver.approve(&req, None), Consent::Refused));
    assert!(matches!(
        approver.approve(&req, Some(&SessionContext::detached("s"))),
        Consent::Refused
    ));
    assert!(matches!(
        approver.approve(&ApprovalRequest::safe("ls"), None),
        Consent::Allowed
    ));
}

#[test]
fn late_and_denied_approvals_do_not_allow() {
    let mut approver = ChatApprover::new(ApprovalState::new());
    let req = ApprovalRequest::dangerous("rm", "everything");
    assert!(!approver.conclude("s", &req, Outcome::TimedOut));
    assert!(!approver.conclude("s", &req, Outcome::Decided(Decision::Deny)));
    assert!(approver.conclude("s", &req, Outcome::Decided(Decision::Once)));
    let said = prompt(&req);
    assert!(said.contains("rm"));
    assert!(said.contains("everything"));
}

// A plain message answers a pending question instead of starting a new turn;
// once nothing is pending, plain messages dispatch normally.
#[test]
fn plain_message_resolves_pending_clarify_not_a_new_turn() {
    let mut d: GatewayDispatcher<u8> = GatewayDispatcher::new();
    let r = d.handle("s1", "蓝色的".into(), 0, true);
    assert!(matches!(r, Reaction::Answer(a) if a == "蓝色的"));
    assert_eq!(d.inflight_count(), 0, "the answer must not start a new turn");
    let r = d.handle("s1", "next".into(), 0, false);
    assert!(matches!(r, Reaction::Turn(Admission::Start(m)) if m.input == "next"));
}

// Control commands keep priority over a pending question: `/deny` resolves
// the approval path and is never eaten as the question's answer.
#[test]
fn commands_keep_priority_over_pending_clarify() {
    let mut d: GatewayDispatcher<u8> = GatewayDispatcher::new();
    let r = d.handle("s1", "/deny".into(), 7, true);
    assert!(matches!(r, Reaction::Resolve(Decision::Deny, 7)));
}

#[test]
fn mid_turn_messages_queue_fifo_and_cap() {
    let mut d: GatewayDispatcher<u8> = GatewayDispatcher::new();
    // m1 dispatches; m2, m3 queue behind it; m4 overflows the cap.
    let r = d.handle("s1", "m1".into(), 1, false);
    assert!(matches!(r, Reaction::Turn(Admission::Start(m)) if m.input == "m1"));
    assert_eq!(QUEUE_CAP, 2);
    let r = d.handle("s1", "m2".into(), 2, false);
    assert!(matches!(r, Reaction::Turn(Admission::Queued)));
    let r = d.handle("s1", "m3".into(), 3, false);
    assert!(matches!(r, Reaction::Turn(Admission::Queued)));
    let r = d.handle("s1", "m4".into(), 4, false);
    assert!(matches!(r, Reaction::Turn(Admission::Rejected(4))));
    assert!(QUEUE_FULL.contains("队列已满"));
    // Another session is not held up.
    let r = d.handle("s2", "n1".into(), 5, false);
    assert!(matches!(r, Reaction::Turn(Admission::Start(_))));
    assert_eq!(d.inflight_count(), 2);
    // The queue drains in order.
    assert_eq!(d.finish_turn("s1").unwrap().input, "m2");
    assert_eq!(d.finish_turn("s1").unwrap().input, "m3");
    assert!(d.finish_turn("s1").is_none());
    assert_eq!(d.inflight_count(), 1);
}

#[test]
fn a_panicking_turn_does_not_wedge_the_session() {
    let mut d: GatewayDispatcher<u8> = GatewayDispatcher::new();
    let r = d.handle("s1", "boom".into(), 1, false);
    assert!(matches!(r, Reaction::Turn(Admission::Start(_))));
    assert_eq!(turn_reply(TurnEnd::Panicked), TURN_PANICKED);
    assert!(d.finish_turn("s1").is_none());
    // A later message must still be handled.
    let r = d.handle("s1", "after".into(), 1, false);
    assert!(matches!(r, Reaction::Turn(Admission::Start(m)) if m.input == "after"));
}

#[test]
fn abandoned_sessions_drop_their_queue() {
    let mut d: GatewayDispatcher<u8> = GatewayDispatcher::new();
    d.spawn_turn("s", "a".into(), 0);
    d.spawn_turn("s", "b".into(), 0);
    assert_eq!(d.abandon("s"), 1);
    assert_eq!(d.inflight_count(), 0);
    assert_eq!(d.abandon("s"), 0);
}

#[test]
fn replies_tell_what_happened() {
    assert_ne!(
        approve_reply(true, Decision::Once),
        approve_reply(true, Decision::Session)
    );
    assert_ne!(approve_reply(true, Decision::Once), approve_reply(false, Decision::Once));
    assert_ne!(deny_reply(true), deny_reply(false));
    assert_ne!(home_reply(true), home_reply(false));
    assert_eq!(turn_reply(TurnEnd::Replied("hi".into())), "hi");
    assert!(turn_reply(TurnEnd::Failed("bad".into())).contains("bad"));
    assert!(wechat_reply(Ok("me")).contains("me"));
    assert!(wechat_reply(Err("no")).contains("no"));
    assert_ne!(pair_trouble(&PairAction::List), "");
}

#[test]
fn pairing_replies() {
    assert_eq!(lookup_code(" ab12 "), "AB12");
    assert_eq!(write_minutes(61), "2");
    let (mut req, _) = PairingRequest::mint("telegram", "42", "42");
    let pending = pair_list_reply(&vec![], 0);
    assert_ne!(pending, "");
    req.status = PairingStatus::Approved;
    let id = req.id.clone();
    let list = vec![req];
    assert!(pair_list_reply(&list, 0).contains(&id));
    assert!(pair_approve_reply("X", &ApproveOutcome::NotFound).contains('X'));
    assert!(pair_approve_reply(
        "X",
        &ApproveOutcome::Locked {
            retry_after_secs: 120
        }
    )
    .contains('2'));
    assert!(pair_revoke_reply("telegram:42", true).contains("telegram:42"));
    assert_ne!(
        pair_revoke_reply("telegram:42", true),
        pair_revoke_reply("telegram:42", false)
    );
}

fn known(code: &str, status: PairingStatus, created_at: i64) -> Option<KnownSender> {
    Some(KnownSender {
        code: code.into(),
        status,
        created_at,
    })
}

#[test]
fn allow_from_sender_skips_pairing() {
    let guard = PairingGuard::new("telegram", vec!["42".to_string()]);
    assert!(guard.pre_trusted("42"));
    assert!(matches!(
        guard.check("42", &None, 0),
        GateStep::Decided(Gate::Allowed)
    ));
}

#[test]
fn unknown_sender_gets_pairing_code_and_is_denied() {
    let guard = PairingGuard::new("telegram", vec![]);
    assert!(matches!(guard.check("7", &None, 0), GateStep::Mint));
    let Gate::Denied { reply } = guard.minted("ABCD2345") else {
        panic!("unknown sender must be denied");
    };
    assert!(reply.contains("ABCD2345"), "{reply}");
    assert!(reply.contains("shion pair approve"), "{reply}");
}

#[test]
fn repeated_messages_reuse_the_same_pending_code() {
    let guard = PairingGuard::new("telegram", vec![]);
    let row = known("ABCD2345", PairingStatus::Pending, 1000);
    let GateStep::Decided(Gate::Denied { reply }) = guard.check("7", &row, 1060) else {
        panic!("still unpaired");
    };
    assert!(reply.contains("ABCD2345"), "{reply}");
}

#[test]
fn approved_sender_is_allowed() {
    let guard = PairingGuard::new("telegram", vec![]);
    let row = known("ABCD2345", PairingStatus::Approved, 0);
    assert!(matches!(
        guard.check("7", &row, i64::MAX),
        GateStep::Decided(Gate::Allowed)
    ));
}

#[test]
fn expired_pending_code_is_replaced() {
    let guard = PairingGuard::new("telegram", vec![]);
    let row = known("ABCD2345", PairingStatus::Pending, 1000);
    assert!(matches!(
        guard.check("7", &row, 1000 + PAIRING_CODE_TTL_SECS + 60),
        GateStep::Mint
    ));
}

#[test]
fn keyword_plans() {
    assert!(matches!(plan_for(None), Plan::RespondDirectly));
    let session = Session {
        id: "s".into(),
        messages: vec![Message::user("What TIME is it?".into())],
        created_at: 0,
    };
    assert!(matches!(
        KeywordPlanner.plan(&session),
        Plan::CallTool { tool_name, .. } if tool_name == "time"
    ));
    assert!(matches!(plan_for(Some("hello")), Plan::RespondDirectly));
}

#[test]
fn run_steps_are_numbered_from_zero() {
    let mut run = RunContext::new("r".into());
    assert_eq!(run.next_seq(), 0);
    assert_eq!(run.next_seq(), 1);
    assert_eq!(run.steps_count(), 2);
    for expected in 2..40 {
        assert_eq!(run.next_seq(), expected);
    }
    assert_eq!(run.steps_count(), 40);
}

#[test]
fn session_contexts_differ_in_trust() {
    let detached = SessionContext::detached("s");
    assert!(!detached.interactive && !detached.auto_approve);
    let trusted = SessionContext::trusted("s");
    assert!(trusted.auto_approve);
    let http = SessionContext::interactive_http("s");
    assert!(http.interactive);
    assert!(http.with_event_sink().watched);
}

#[test]
fn gateways_collect_channels_and_services() {
    let g: Gateway<&str, u8> = Gateway::new()
        .add_channel("api")
        .add_channel("telegram")
        .with_maintenance(MaintenanceService {
            schedule: Schedule::parse("0 * * * *").ok().unwrap(),
            maintenance: 1u8,
        });
    assert_eq!(g.channels, vec!["api", "telegram"]);
    assert_eq!(g.services.len(), 1);
}

#[test]
fn pairing_commands_are_answered() {
    let (request, _code) = PairingRequest::mint("telegram", "7", "70");
    let now = request.created_at;
    let reply = komo::agent::dispatcher::handle_pair(
        &PairAction::List,
        &komo::agent::dispatcher::PairAnswer::Listed(vec![request]),
        now,
    );
    assert!(reply.contains("· telegram:7 [pending]\n"));
    let reply = komo::agent::dispatcher::handle_pair(
        &PairAction::Approve(" abcd ".to_string()),
        &komo::agent::dispatcher::PairAnswer::Tried(ApproveOutcome::NotFound),
        now,
    );
    assert_eq!(reply, "没有匹配 code ABCD 的待批准配对（未知或已过期，见 /pair list）。");
    let reply = komo::agent::dispatcher::handle_pair(
        &PairAction::Revoke("telegram:7".to_string()),
        &komo::agent::dispatcher::PairAnswer::Revoked(true),
        now,
    );
    assert_eq!(reply, "已解除配对 telegram:7。");
    let reply = komo::agent::dispatcher::handle_pair(
        &PairAction::List,
        &komo::agent::dispatcher::PairAnswer::Failed,
        now,
    );
    assert_eq!(reply, "读取配对列表失败，请稍后再试。");
    let reply = komo::agent::dispatcher::handle_pair(
        &PairAction::Usage,
        &komo::agent::dispatcher::PairAnswer::Failed,
        now,
    );
    assert!(reply.starts_with("用法：/pair list"));
}
