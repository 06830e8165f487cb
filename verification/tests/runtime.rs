use komo::agent::runtime::{
    close_run, refuse, review_due, AgentRuntime, LoopAction, ModelStep, ToolCallReq, TurnLoop,
    BUDGET_REACHED_NOTE,
};
use komo::domain::run::{Run, RunStatus};

fn call(name: &str, args: &str) -> ToolCallReq {
    ToolCallReq {
        id: format!("id-{name}"),
        call_id: None,
        name: name.to_string(),
        args: args.to_string(),
    }
}

#[test]
fn turn_with_a_tool_call_records_a_run_with_a_step() {
    let run = Run::start("cli:s1", "hi");
    let closed = close_run(run, 1, 200, &Ok("the time is now".to_string()));
    assert_eq!(closed.status, RunStatus::Done);
    assert_eq!(closed.plan, "1 tool call(s)");
    assert_eq!(closed.ended_at, Some(200));
}

#[test]
fn turn_without_tools_records_a_run_without_steps() {
    let run = Run::start("cli:s2", "hi");
    let closed = close_run(run, 0, 200, &Ok("hello there".to_string()));
    assert_eq!(closed.status, RunStatus::Done);
    assert_eq!(closed.plan, "respond");
    assert_eq!(closed.final_output, "hello there");
}

#[test]
fn a_failed_turn_records_its_error() {
    let run = Run::start("cli:s2", "hi");
    let closed = close_run(run, 2, 200, &Err("model down".to_string()));
    assert_eq!(closed.status, RunStatus::Failed);
    assert!(closed.error.contains("model down"));
}

#[test]
fn multi_round_threads_tool_results_back() {
    let mut turn = TurnLoop::new(30);
    let LoopAction::Execute(calls) = turn.advance(ModelStep::ToolCalls(vec![call("echo", "A")]))
    else {
        panic!("within the budget");
    };
    assert_eq!(calls[0].args, "A");
    assert_eq!(calls[0].id, "id-echo");
    let LoopAction::Execute(calls) = turn.advance(ModelStep::ToolCalls(vec![call("echo", "B")]))
    else {
        panic!("within the budget");
    };
    assert_eq!(calls[0].args, "B");
    let LoopAction::Finish(reply) = turn.advance(ModelStep::Reply("done".into())) else {
        panic!("a reply ends the turn");
    };
    assert_eq!(reply, "done");
}

#[test]
fn round_budget_forces_a_final_answer() {
    // The model keeps requesting tools; with a budget of two the loop must stop.
    let mut turn = TurnLoop::new(2);
    let mut executed = 0;
    for _ in 0..2 {
        if let LoopAction::Execute(_) = turn.advance(ModelStep::ToolCalls(vec![call("time", "{}")]))
        {
            executed += 1;
        }
    }
    assert_eq!(executed, 2);
    // Round 3 gets the budget note instead of executing.
    let LoopAction::Report(notes) = turn.advance(ModelStep::ToolCalls(vec![call("time", "{}")]))
    else {
        panic!("over the budget");
    };
    assert_eq!(notes[0].content, BUDGET_REACHED_NOTE);
    assert_eq!(notes[0].id, "id-time");
    let LoopAction::Finish(reply) = turn.advance(ModelStep::ToolCalls(vec![call("time", "{}")]))
    else {
        panic!("the turn ends");
    };
    assert!(reply.contains("tool-call limit"), "got: {reply}");
}

#[test]
fn refusals_answer_every_call() {
    let out = refuse(&vec![call("a", ""), call("b", "")]);
    assert_eq!(out.len(), 2);
    assert!(out.iter().all(|o| o.content == BUDGET_REACHED_NOTE));
    assert_eq!(out[1].id, "id-b");
}

#[test]
fn reviews_come_every_interval() {
    assert!(review_due(20, 10));
    assert!(review_due(10, 10));
    assert!(!review_due(11, 10));
    let rt = AgentRuntime {
        max_turns: 3,
        history_window: 0,
        reviewer: false,
        review_interval: 10,
    };
    assert!(!rt.wants_review(10));
    assert_eq!(rt.run_turn().max_turns, 3);
}

#[test]
fn a_turn_opens_the_session_on_file_or_a_fresh_one() {
    let (fresh, unsaved) = komo::agent::runtime::open_session(None, "telegram:42", 9);
    assert!(unsaved);
    assert_eq!(fresh.id, "telegram:42");
    assert_eq!(fresh.created_at, 9);
    assert!(fresh.messages.is_empty());
    let mut kept = fresh;
    kept.messages.push(komo::domain::message::Message::user("hi".to_string()));
    let (found, unsaved) = komo::agent::runtime::open_session(Some(kept), "telegram:42", 11);
    assert!(!unsaved);
    assert_eq!(found.created_at, 9);
    assert_eq!(found.messages.len(), 1);
}
