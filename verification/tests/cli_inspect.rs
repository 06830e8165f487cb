use komo::cli::doctor::{doctor, gateway_health, Findings, GatewayInfo};
use komo::cli::inspect::{
    cron_list, line_of_run, oneline, run_inspect, run_keep_cutoff, run_list, run_prune,
    session_clean, session_list, skill_list, task_list, SessionInfo,
};
use komo::cli::memory::{
    batch_outcome, fold_choice, list, pile_positions, pin_note, report, search,
    transition_line, triage, triage_banner, triage_choice, Pile, Tally, TriageChoice, TriageStep,
    STALE_SECS,
};
use komo::cli::skill::{
    audit, find_readable_skill, inspect, install, list as skill_listing, no_such_skill, promote,
    protect, reject, set_enabled, SkillInvocation,
};
use komo::config::snapshot::ConfigSnapshot;
use komo::config::sources::{ConfigSources, FileConfig, KomoEnv, Secrets};
use komo::domain::memory::{Memory, MemoryConfidence, MemoryKind, MemoryStatus};
use komo::domain::reminder::Reminder;
use komo::domain::run::{Run, RunStatus, RunStep};
use komo::domain::skill::Skill;
use komo::domain::task::{Task, TaskStatus};

#[test]
fn triage_keymap_maps_choices_and_defaults_safely() {
    assert_eq!(triage_choice(Some("p")), TriageChoice::Promote);
    assert_eq!(triage_choice(Some("r")), TriageChoice::Reject);
    assert_eq!(triage_choice(Some("s")), TriageChoice::Skip);
    assert_eq!(triage_choice(Some("q")), TriageChoice::Quit);
    assert_eq!(triage_choice(None), TriageChoice::Quit, "EOF quits");
    assert_eq!(
        triage_choice(Some("")),
        TriageChoice::Skip,
        "bare Enter must never mutate"
    );
    assert_eq!(triage_choice(Some("x")), TriageChoice::Invalid);
}

#[test]
fn triage_tallies() {
    assert_eq!(fold_choice(" P\n"), "p");
    let mut t = Tally::new();
    assert_eq!(
        t.choose_step(TriageChoice::Promote),
        TriageStep::Transition(TriageChoice::Promote)
    );
    t.count(true, true);
    t.count(false, true);
    t.count(true, false);
    assert_eq!(t.choose_step(TriageChoice::Skip), TriageStep::Next);
    assert_eq!(t.choose_step(TriageChoice::Invalid), TriageStep::Again);
    assert_eq!(t.choose_step(TriageChoice::Quit), TriageStep::Stop);
    assert_eq!((t.promoted, t.rejected, t.skipped, t.failed), (1, 1, 1, 1));
    assert!(t.summary().contains('1'));
}

fn memory(content: &str, status: MemoryStatus) -> Memory {
    let mut m = Memory::new(MemoryKind::Fact, content);
    m.id = format!("id-{content}");
    m.status = status;
    m
}

#[test]
fn memory_listing_and_search() {
    let all = vec![
        memory("rust", MemoryStatus::Active),
        memory("go", MemoryStatus::Candidate),
    ];
    assert!(komo::cli::memory::line(&all[0]).contains("rust"));
    assert_eq!(
        list(&all, Some("candidate"))
            .iter()
            .filter(|l| l.contains("rust"))
            .count(),
        0
    );
    assert!(list(&all, None).iter().any(|l| l.contains("rust")));
    assert!(search(&all, "RUST").iter().any(|l| l.contains("rust")));
    assert!(!search(&all, "zig").iter().any(|l| l.contains("rust")));
    assert_eq!(triage(&all), vec![1]);
    assert!(triage_banner(1).contains('1'));
    assert!(pin_note("m").contains('m'));
    assert!(transition_line("promoted", "m", Ok(())).contains('m'));
    assert!(transition_line("promoted", "m", Err("no")).contains("no"));
    assert!(batch_outcome(0, 2).is_ok());
    assert!(batch_outcome(1, 2).is_err());
}

#[test]
fn memory_report_piles() {
    let now = 10_000_000_000;
    let mut pinned = memory("pinned", MemoryStatus::Active);
    pinned.pinned = true;
    pinned.created_at = now;
    pinned.last_used_at = Some(now);
    pinned.confidence = MemoryConfidence::Confirmed;
    let mut old = memory("old", MemoryStatus::Active);
    old.created_at = now - STALE_SECS - 1;
    old.last_used_at = Some(now - STALE_SECS - 1);
    old.confidence = MemoryConfidence::Confirmed;
    let mut gone = memory("gone", MemoryStatus::Active);
    gone.created_at = now;
    gone.last_used_at = Some(now - STALE_SECS);
    gone.expires_at = Some(now - 1);
    gone.confidence = MemoryConfidence::Extracted;
    let all = vec![pinned, old, gone];
    assert_eq!(pile_positions(&all, Pile::Pinned, now), vec![0]);
    assert_eq!(pile_positions(&all, Pile::LongUnused, now), vec![1]);
    assert_eq!(pile_positions(&all, Pile::Expired, now), vec![2]);
    assert_eq!(pile_positions(&all, Pile::LowConfidence, now), vec![2]);
    assert!(pile_positions(&all, Pile::Candidates, now).is_empty());
    assert!(!report(&all, now).is_empty());
}

fn skill(name: &str, body: &str) -> Skill {
    Skill::parse(&format!("---\nname: {name}\ndescription: test\n---\n{body}")).unwrap()
}

fn at(name: &str, body: &str) -> Option<(Skill, String)> {
    Some((skill(name, body), format!("/s/{name}/SKILL.md")))
}

#[test]
fn readable_skill_includes_shared_agents_store_with_managed_precedence() {
    let found =
        find_readable_skill(None, at("only-shared", "shared body"), None, vec![]).unwrap();
    assert_eq!(found.status.as_str(), "shared (read-only)");
    assert!(found.skill.instructions.contains("shared body"));

    let found = find_readable_skill(
        at("duplicate", "managed version"),
        at("duplicate", "shared version"),
        None,
        vec![],
    )
    .unwrap();
    assert_eq!(found.status.as_str(), "active");
    assert!(found.skill.instructions.contains("managed version"));

    let found = find_readable_skill(
        None,
        at("candidate-clash", "shared active version"),
        at("candidate-clash", "candidate version"),
        vec![],
    )
    .unwrap();
    assert_eq!(found.status.as_str(), "shared (read-only)");
    assert!(found.skill.instructions.contains("shared active version"));

    assert!(find_readable_skill(None, None, None, vec![]).is_none());
}

#[test]
fn skill_reports() {
    let found = find_readable_skill(at("x", "body"), None, None, vec!["v1".into()]).unwrap();
    assert!(inspect("x", &found).iter().any(|l| l.contains("body")));
    let shared = vec![skill("x", "s"), skill("y", "s")];
    let lines = skill_listing(&vec![skill("x", "m")], "/m", &shared, "/s", &vec![]);
    assert_eq!(lines.iter().filter(|l| l.contains("x —") || l.contains(" x ")).count() <= 1, true);
    assert!(lines.iter().any(|l| l.contains('y')));
    assert!(no_such_skill("x", "/r").contains('x'));
    let uses = vec![SkillInvocation {
        run_id: "r1".into(),
        seq: 2,
        ok: false,
        started_at: 0,
    }];
    assert!(audit("x", &uses).iter().any(|l| l.contains("r1") && l.contains("ERR")));
    assert!(!audit("x", &vec![]).is_empty());
    assert!(install("x", 2, "/p", "d").iter().any(|l| l.contains("/p")));
    assert!(promote("x").contains('x') && reject("x").contains('x'));
    let mut s = skill("x", "b");
    let off = protect(&s);
    s.protected = true;
    assert_ne!(off, protect(&s));
    let on = set_enabled(&s);
    s.disabled = true;
    assert_ne!(on, set_enabled(&s));
}

fn run(id: &str, started_at: i64) -> Run {
    let mut r = Run::start("cli:1", "do it");
    r.id = id.into();
    r.started_at = started_at;
    r
}

#[test]
fn run_reports() {
    let mut failed = run("r2", 50);
    failed.status = RunStatus::Failed;
    failed.error = "boom".into();
    let runs = vec![run("r1", 100), failed];
    assert!(run_list(&runs).iter().any(|l| l.contains("r2")));
    assert!(line_of_run(&runs[0], "AT").contains("AT"));
    assert_eq!(run_keep_cutoff(&runs, 0), Some(100));
    assert_eq!(run_keep_cutoff(&runs, 1), Some(50));
    assert_eq!(run_keep_cutoff(&runs, 2), None);
    let step = RunStep {
        run_id: "r1".into(),
        seq: 0,
        tool_name: "shell".into(),
        args: "{}".into(),
        result: "ok".into(),
        error: String::new(),
        ok: true,
        started_at: 1,
        ended_at: 2,
    };
    let found = Some((run("r1", 100), vec![step]));
    assert!(run_inspect("r1", &found).iter().any(|l| l.contains("shell")));
    assert!(run_inspect("zz", &None).iter().any(|l| l.contains("zz")));
    assert!(run_prune(3, "2026").contains('3'));
}

#[test]
fn other_listings() {
    assert_eq!(oneline("a\nb", 10), "a b");
    assert_eq!(oneline("abcdef", 3).chars().count() <= 4, true);
    let r = Reminder::recurring("tea".into(), 1_704_067_200, "0 9 * * *".into());
    assert!(cron_list(&vec![r]).iter().any(|l| l.contains("tea")));
    assert!(!cron_list(&vec![]).is_empty());
    let mut t = Task::new("ship".into());
    t.status = TaskStatus::Todo;
    assert!(task_list(&vec![t]).iter().any(|l| l.contains("ship")));
    let s = SessionInfo {
        id: "s1".into(),
        created_at: 0,
        messages: 4,
        user_turns: 2,
    };
    assert!(session_list(&vec![s]).iter().any(|l| l.contains("s1")));
    assert!(session_clean(2).contains('2'));
    assert!(skill_list(&vec![skill("x", "b")], &vec![], "/r").iter().any(|l| l.contains('x')));
}

#[test]
fn the_doctor_reports_every_part() {
    let snap = ConfigSnapshot::from_sources(ConfigSources {
        home: "/h".into(),
        file: FileConfig::default(),
        env: KomoEnv::default(),
        secrets: Secrets::default(),
        env_error: None,
    });
    let f = Findings {
        gateway: None,
        reachable: false,
        rendezvous: "/h/gateway.json".into(),
        codex: None,
        wechat_logged_in: false,
        home: Ok(None),
        runs: Ok(vec![]),
    };
    let lines = doctor(&snap, &f);
    assert!(lines.iter().any(|l| l.contains("deepseek")));
    let up = GatewayInfo {
        pid: 7,
        bind: "127.0.0.1".into(),
        port: 9,
    };
    assert!(gateway_health(&Some(up), true, "/f").contains('7'));
    assert_ne!(gateway_health(&None, false, "/f"), "");
}
