use komo::domain::run::{
    is_skill_view, parse_run_status, resume_prompt, step_views_skill, truncate, Run, RunStatus,
    RunStep, INTERRUPTED_ERROR, RESUME_DIGEST_CAP,
};

#[test]
fn truncate_keeps_short_strings_and_cuts_long_ones() {
    assert_eq!(truncate("hi", 10), "hi");
    let long = "x".repeat(50);
    let cut = truncate(&long, 10);
    assert!(cut.starts_with(&"x".repeat(10)));
    assert!(cut.contains("truncated"));
}

fn interrupted_run() -> Run {
    let mut run = Run::start("feishu:chat-1", "deploy the new build");
    run.status = RunStatus::Failed;
    run.error = INTERRUPTED_ERROR.to_string();
    run.recoverable = true;
    run
}

fn step(run: &Run, seq: i64, tool: &str, ok: bool) -> RunStep {
    RunStep {
        run_id: run.id.clone(),
        seq,
        tool_name: tool.to_string(),
        args: format!("{{\"n\":{seq}}}"),
        result: if ok { "done".into() } else { String::new() },
        error: if ok { String::new() } else { "boom".into() },
        ok,
        started_at: 100 + seq,
        ended_at: 101 + seq,
    }
}

#[test]
fn resume_prompt_carries_input_and_step_digest() {
    let run = interrupted_run();
    let steps = vec![step(&run, 0, "shell", true), step(&run, 1, "file", false)];
    let prompt = resume_prompt(&run, &steps);

    assert!(prompt.contains(&run.id));
    assert!(prompt.contains("deploy the new build"));
    assert!(prompt.contains("2 tool call(s)"));
    assert!(prompt.contains("1. shell"));
    assert!(prompt.contains("2. file"));
    assert!(prompt.contains("error: boom"));
    assert!(prompt.contains("Do not re-apply side effects"));
}

#[test]
fn resume_prompt_without_steps_says_so() {
    let run = interrupted_run();
    let prompt = resume_prompt(&run, &[]);
    assert!(prompt.contains("No tool calls had completed"));
}

#[test]
fn resume_prompt_elides_past_the_digest_budget() {
    let run = interrupted_run();
    let steps: Vec<RunStep> = (0..100)
        .map(|seq| {
            let mut s = step(&run, seq, "web_fetch", true);
            s.result = "r".repeat(400); // each line lands near the snippet cap
            s
        })
        .collect();
    let prompt = resume_prompt(&run, &steps);
    assert!(prompt.contains("elided for length"));
    assert!(prompt.len() < RESUME_DIGEST_CAP + 2000);
}

#[test]
fn step_views_skill_matches_only_view_steps_of_that_skill() {
    let run = interrupted_run();
    let mut s = step(&run, 0, "skill", true);
    s.args = r#"{"action":"view","name":"feishu-calendar"}"#.to_string();
    assert!(step_views_skill(&s, "feishu-calendar"));
    assert!(!step_views_skill(&s, "other-skill"));

    s.args = r#"{"action":"list"}"#.to_string();
    assert!(!step_views_skill(&s, "feishu-calendar"));

    let mut shell = step(&run, 1, "shell", true);
    shell.args = r#"{"action":"view","name":"feishu-calendar"}"#.to_string();
    assert!(!step_views_skill(&shell, "feishu-calendar"));

    s.args = "not json".to_string();
    assert!(!step_views_skill(&s, "feishu-calendar"));
}

#[test]
fn status_roundtrips() {
    for s in [RunStatus::Running, RunStatus::Done, RunStatus::Failed] {
        assert_eq!(parse_run_status(s.as_str()).unwrap(), s);
    }
    assert!(parse_run_status("bogus").is_err());
}

#[test]
fn truncation_says_how_much_was_cut() {
    assert_eq!(
        truncate(&"x".repeat(50), 10),
        format!("{} …[truncated]", "x".repeat(10))
    );
    assert_eq!(truncate("", 0), "");
}

#[test]
fn truncation_counts_characters_not_bytes() {
    assert_eq!(truncate("ééééé", 5), "ééééé");
    assert_eq!(truncate("ééééé", 3), "ééé …[truncated]");
}

#[test]
fn skill_views_need_the_tool_the_action_and_the_name() {
    let view = Some("view".to_string());
    let name = Some("calendar".to_string());
    assert!(is_skill_view("skill", &view, &name, "calendar"));
    assert!(!is_skill_view("shell", &view, &name, "calendar"));
    assert!(!is_skill_view("skill", &None, &name, "calendar"));
    assert!(!is_skill_view("skill", &view, &None, "calendar"));
    assert!(!is_skill_view("skill", &view, &name, "mail"));
}

#[test]
fn a_started_run_is_open() {
    let run = Run::start("cli:1", "hello");
    assert_eq!(run.status, RunStatus::Running);
    assert_eq!(run.session_id, "cli:1");
    assert_eq!(run.input, "hello");
    assert!(run.ended_at.is_none());
    assert!(run.error.is_empty());
}
