use komo::cli::approver::{parse_answer, prompt, Answer, CliApprover, DenyApprover};
use komo::cli::args::{
    cutoff_of, nothing_to_prune, parse_day, parse_local_date, prune_by, resumed, workday_line,
    PruneBy,
};
use komo::cli::chat::{greeting, new_session_id, outcome, read_line, started, ReplStep};
use komo::cli::dream::{applied, preview, DreamItem, DreamReport};
use komo::cli::gateway::{optional_schedule, run, schedule_or_default, tolerated, Sweep};
use komo::cli::gateway_client::{health, refuse_if_gateway_running, GatewayClient};
use komo::cli::init::{init_at, run as init_run, CONFIG_TEMPLATE, ENV_TEMPLATE};
use komo::cli::logs::{follow, is_daily_log_name, latest_daily_log, log_path, no_log, Tail};
use komo::cli::model::{list as model_list, notes, Selection};
use komo::cli::pair::{
    approve as pair_approve, line_of_pairing, list as pair_list, revoke as pair_revoke, PairingView,
};
use komo::cli::policy::{check as policy_check, list as policy_list, rule_str};
use komo::cli::service::{
    gateway_loaded, gui_domain, keep_waiting, launch_failure, render_plist, restart, start, status,
    stop, unsupported, xml_escape, ServiceStep, UNLOAD_POLLS,
};
use komo::cli::upgrade::{after_install, cargo_root_for, no_source, pull_failed, AfterInstall};
use komo::cli::wechat::{login, render_qr, show_code};
use komo::cli::wiring::{build, skills_note, tools, ToolKind};
use komo::config::provider::Provider;
use komo::config::report::{ConfigIssue, IssueSeverity};
use komo::config::resolve::build_policy;
use komo::config::resolved::DEFAULT_MAINTENANCE_SCHEDULE;
use komo::config::snapshot::ConfigSnapshot;
use komo::config::sources::{
    ChannelsFileConfig, ConfigSources, FileConfig, KomoEnv, PolicyFileConfig, PolicyRuleFileConfig,
    Secrets, TelegramFileConfig,
};
use komo::domain::approval::ApprovalRequest;
use komo::domain::pairing::{ApproveOutcome, PairingRequest};
use komo::request::Method;

#[test]
fn answers_parse_to_once_session_or_deny() {
    assert_eq!(parse_answer("y\n"), Answer::Once);
    assert_eq!(parse_answer("YES"), Answer::Once);
    assert_eq!(parse_answer("s\n"), Answer::Session);
    assert_eq!(parse_answer("Session"), Answer::Session);
    assert_eq!(parse_answer(""), Answer::Deny);
    assert_eq!(parse_answer("n"), Answer::Deny);
    assert_eq!(parse_answer("whatever"), Answer::Deny);
}

#[test]
fn safe_requests_skip_the_prompt() {
    let mut approver = CliApprover::new();
    let request = ApprovalRequest::safe("run shell command: ls");
    assert!(!approver.needs_prompt(&request));
    assert!(approver.approve(&request, None));
}

#[test]
fn session_cache_short_circuits_the_prompt() {
    let mut approver = CliApprover::new();
    approver.allow("file:write");
    let request = ApprovalRequest::normal("write 5 bytes to /tmp/x").with_scope_key("file:write");
    assert!(!approver.needs_prompt(&request));
    assert!(approver.approve(&request, None));
}

#[test]
fn deny_approver_denies_even_safe_requests() {
    assert!(!DenyApprover.approve(&ApprovalRequest::safe("run shell command: ls")));
}

#[test]
fn a_session_answer_is_remembered() {
    let mut approver = CliApprover::default();
    let request = ApprovalRequest::normal("write").with_scope_key("file:write");
    assert!(approver.needs_prompt(&request));
    assert!(prompt(&request).contains("write"));
    assert!(!approver.approve(&request, Some("n")));
    assert!(!approver.approve(&request, None), "end of input denies");
    assert!(approver.needs_prompt(&request));
    assert!(approver.approve(&request, Some("y")));
    assert!(approver.needs_prompt(&request), "once is not remembered");
    assert!(approver.approve(&request, Some("s")));
    assert!(!approver.needs_prompt(&request));
    assert_eq!(
        approver.notice(&request).as_deref(),
        Some("✓ auto-approved (session): write")
    );
    assert!(approver.notice(&ApprovalRequest::safe("ls").with_scope_key("file:write")).is_none());
    assert!(approver.notice(&ApprovalRequest::normal("write")).is_none());
}

#[test]
fn maintenance_schedule_typo_degrades_to_default() {
    let (_, expr) = schedule_or_default("not a cron");
    assert_eq!(expr, DEFAULT_MAINTENANCE_SCHEDULE);
    let (_, expr) = schedule_or_default("*/5 * * * *");
    assert_eq!(expr, "*/5 * * * *");
}

#[test]
fn optional_schedule_typo_disables_the_sweep() {
    let (schedule, expr) = optional_schedule(Some("not a cron"));
    assert!(schedule.is_none());
    assert!(expr.is_none());
    let (schedule, expr) = optional_schedule(Some("0 3 * * *"));
    assert!(schedule.is_some());
    assert_eq!(expr.as_deref(), Some("0 3 * * *"));
    let (schedule, _) = optional_schedule(None);
    assert!(schedule.is_none());
}

fn snapshot(file: FileConfig) -> ConfigSnapshot {
    ConfigSnapshot::from_sources(ConfigSources {
        home: "/h".into(),
        file,
        env: KomoEnv::default(),
        secrets: Secrets::default(),
        env_error: None,
    })
}

#[test]
fn the_gateway_plan_follows_the_configuration() {
    let plan = run(&snapshot(FileConfig {
        briefing_schedule: Some("0 8 * * *".into()),
        briefing_workdays_only: Some(true),
        dream_schedule: Some("off".into()),
        ..Default::default()
    }))
    .ok()
    .unwrap();
    assert!(plan.channels.contains(&"api".to_string()));
    let sweeps: Vec<Sweep> = plan.services.iter().map(|s| s.sweep).collect();
    assert!(sweeps.contains(&Sweep::Briefing {
        workdays_only: true
    }));
    assert!(!sweeps.contains(&Sweep::Dreaming));
    assert!(sweeps.contains(&Sweep::Reminders));
    let names: Vec<&str> = sweeps.iter().map(|s| s.name()).collect();
    assert_eq!(names, vec!["review", "reminders", "tasks", "briefing"]);
    assert!(plan.banner.contains("0 8 * * *"));
}

#[test]
fn a_misconfigured_channel_stops_the_gateway() {
    let bad = snapshot(FileConfig {
        channels: Some(ChannelsFileConfig {
            telegram: Some(TelegramFileConfig {
                enabled: true,
                ..Default::default()
            }),
            ..Default::default()
        }),
        ..Default::default()
    });
    assert!(run(&bad).err().unwrap().contains("TELEGRAM_BOT_TOKEN"));
}

#[test]
fn warnings_are_tolerated() {
    let issues = vec![
        ConfigIssue {
            path: "a",
            severity: IssueSeverity::Warning,
            message: "w".into(),
        },
        ConfigIssue {
            path: "b",
            severity: IssueSeverity::Fatal,
            message: "f".into(),
        },
    ];
    assert_eq!(tolerated(&issues), vec![("a", "w".to_string())]);
}

#[test]
fn from_info_returns_none_when_nothing_listening() {
    assert!(GatewayClient::try_connect("http://127.0.0.1:1".into(), "k".into(), false).is_none());
    let c = GatewayClient::try_connect("http://127.0.0.1:1".into(), "k".into(), true).unwrap();
    assert_eq!(c.url("/x"), "http://127.0.0.1:1/x");
}

#[test]
fn client_requests_go_to_the_base() {
    let c = GatewayClient::try_connect("http://h".into(), "k".into(), true).unwrap();
    let r = c.runs(5);
    assert_eq!(r.method, Method::Get);
    assert!(r.url.starts_with("http://h/") && r.url.contains('5'));
    assert!(r.headers.is_empty());
    let r = c.chat("s1", "say \"hi\"");
    assert_eq!(r.method, Method::Post);
    assert_eq!(
        r.headers,
        vec![
            ("X-Shion-Session-Id".to_string(), "s1".to_string()),
            ("X-Shion-Trusted".to_string(), "1".to_string())
        ]
    );
    let body: serde_json::Value = serde_json::from_str(r.body.as_deref().unwrap()).unwrap();
    assert_eq!(body["messages"][0]["content"].as_str(), Some("say \"hi\""));
    for r in [
        c.memories(),
        c.tasks(),
        c.run("r"),
        c.resume("r"),
        c.sessions(),
        c.reminders(),
        c.skill_audit("x"),
        c.pairings(),
        c.home_override(),
        c.dream_preview(),
        c.memory_transition("m", "promote"),
    ] {
        assert!(r.url.starts_with("http://h/"));
    }
}

#[test]
fn client_answers_are_read() {
    let answer = "{\"choices\":[{\"message\":{\"content\":\"hello\"}}]}";
    assert_eq!(GatewayClient::chat_answer(answer), Ok("hello".to_string()));
    assert!(GatewayClient::chat_answer("nonsense").is_err());
    assert!(GatewayClient::resume_refusal("r", 200, None).is_none());
    assert_eq!(
        GatewayClient::resume_refusal("r9", 404, None).as_deref(),
        Some("no run with id `r9`")
    );
    assert_eq!(
        GatewayClient::resume_refusal("r9", 409, None).as_deref(),
        Some("run is not recoverable")
    );
    assert_eq!(
        GatewayClient::resume_refusal("r9", 409, Some("still running".into())).as_deref(),
        Some("still running")
    );
    assert!(GatewayClient::transition_refusal("m", 404).unwrap().contains('m'));
    assert!(GatewayClient::transition_refusal("m", 200).is_none());
    assert_eq!(
        GatewayClient::error_text("{\"error\":\"busy\"}").as_deref(),
        Some("busy")
    );
}

#[test]
fn a_running_gateway_is_reported() {
    assert!(refuse_if_gateway_running("shion pair", false).is_ok());
    let e = refuse_if_gateway_running("shion pair", true).unwrap_err();
    assert!(e.contains("`shion pair`"));
    assert!(health(Some((1, "http://h")), true, "/f").is_ok());
    assert!(health(Some((1, "http://h")), false, "/f").is_err());
    assert!(health(None, false, "/f").is_err());
}

#[test]
fn init_creates_both_templates() {
    let made = init_at(false, false);
    assert_eq!(made.len(), 2);
    assert_eq!(made[0].name, "config.toml");
    assert!(made[0].content.contains("provider = \"deepseek\""));
    assert_eq!(made[1].name, ".env");
    assert!(made[1].content.contains("DEEPSEEK_API_KEY="));
}

#[test]
fn init_never_overwrites_existing_files() {
    let made = init_at(true, false);
    assert_eq!(made.len(), 1, "existing config must be left alone");
    assert_eq!(made[0].name, ".env", "missing .env is still scaffolded");
    assert!(init_at(true, true).is_empty());
}

#[test]
fn scaffolded_env_is_owner_only() {
    let made = init_at(false, false);
    assert!(!made[0].owner_only);
    assert!(made[1].owner_only);
    assert!(ENV_TEMPLATE.contains("DEEPSEEK_API_KEY="));
    assert!(init_run("/h", true, false).iter().any(|l| l.contains("/h")));
}

#[test]
fn generated_config_parses_as_toml() {
    // The template must stay valid TOML — a scaffold that breaks parsing
    // would be worse than no scaffold.
    let parsed: Result<toml::Value, _> = toml::from_str(CONFIG_TEMPLATE);
    assert!(parsed.is_ok(), "template must parse: {:?}", parsed.err());
}

#[test]
fn daily_log_names_are_recognized() {
    assert!(is_daily_log_name("gateway.2026-07-18.log"));
    assert!(!is_daily_log_name("gateway.log"));
    assert!(!is_daily_log_name("gateway.err.log"));
    assert!(!is_daily_log_name("chat-tui.log"));
}

#[test]
fn newest_daily_file_wins() {
    let names: Vec<String> = [
        "gateway.2026-07-16.log",
        "gateway.2026-07-18.log",
        "gateway.2026-07-17.log",
        "gateway.err.log",
    ]
    .iter()
    .map(|n| n.to_string())
    .collect();
    let newest = latest_daily_log(&names).unwrap();
    assert_eq!(newest, "gateway.2026-07-18.log");
    assert!(latest_daily_log(&vec!["gateway.err.log".into()]).is_none());
    assert!(log_path("/h", &names, false).ends_with("gateway.2026-07-18.log"));
    assert!(log_path("/h", &names, true).starts_with("/h"));
    assert!(no_log("/p").contains("/p"));
}

#[test]
fn tails_keep_the_last_lines() {
    let mut t = Tail::new(2);
    for l in ["a", "b", "c"] {
        t = t.push(l.to_string());
    }
    assert_eq!(t.into_lines(), vec!["b", "c"]);
    assert!(Tail::new(0).push("x".into()).into_lines().is_empty());
}

#[test]
fn following_restarts_when_the_file_shrinks() {
    assert_eq!(follow(10, 20), (10, true));
    assert_eq!(follow(10, 10), (10, false));
    assert_eq!(follow(10, 5), (0, true));
}

#[test]
fn plist_contains_label_exe_keepalive_and_workdir() {
    let plist = render_plist(
        "/usr/local/bin/shion",
        "/Users/me/.shion/logs",
        "/Users/me/.shion",
    );
    assert!(plist.contains("<string>com.shion.gateway</string>"));
    assert!(plist.contains("<string>/usr/local/bin/shion</string>"));
    assert!(plist.contains("<string>gateway</string>"));
    assert!(plist.contains("<key>KeepAlive</key>"));
    assert!(plist.contains("/Users/me/.shion/logs/gateway.log"));
    assert!(plist.contains("<key>WorkingDirectory</key>"));
    assert!(plist.contains("<string>/Users/me/.shion</string>"));
}

#[test]
fn plist_escapes_xml_special_chars_in_paths() {
    let plist = render_plist("/odd<&>path/shion", "/logs", "/work");
    assert!(plist.contains("/odd&lt;&amp;&gt;path/shion"));
    assert!(!plist.contains("/odd<&>path"));
}

#[test]
fn service_steps_follow_the_state() {
    assert_eq!(xml_escape("a<&>b"), "a&lt;&amp;&gt;b");
    assert_eq!(start(true, true), Ok(ServiceStep::AlreadyRunning));
    assert_eq!(start(true, false), Ok(ServiceStep::Bootstrap));
    assert_eq!(stop(true, true), Ok(ServiceStep::Bootout));
    assert_eq!(stop(true, false), Ok(ServiceStep::NotRunning));
    assert_eq!(restart(true, true), Ok(ServiceStep::BootoutThenBootstrap));
    assert_eq!(restart(true, false), Ok(ServiceStep::Bootstrap));
    assert!(keep_waiting(0, true));
    assert!(!keep_waiting(0, false));
    assert!(keep_waiting(UNLOAD_POLLS, true));
    assert!(!keep_waiting(UNLOAD_POLLS + 1, true));
    assert!(gateway_loaded(true, true));
    assert!(!gateway_loaded(false, true));
    assert!(unsupported("start").contains("start"));
    assert!(launch_failure("bootstrap", "bad").contains("bad"));
    assert_eq!(gui_domain("501\n").as_deref(), Ok("gui/501"));
    assert!(gui_domain(" ").is_err());
}

#[test]
fn service_commands_are_refused_without_a_supervisor() {
    for loaded in [true, false] {
        assert_eq!(start(false, loaded), Err(unsupported("start")));
        assert_eq!(stop(false, loaded), Err(unsupported("stop")));
        assert_eq!(restart(false, loaded), Err(unsupported("restart")));
    }
    assert_eq!(status(false, Some("state = running")), Err(unsupported("status")));
    assert_eq!(
        unsupported("stop"),
        "gateway stop is macOS-only. In Docker/Linux, run `shion gateway` in the foreground \
         and use your supervisor, e.g. `docker restart <container>`."
    );
}

#[test]
fn service_outcomes_are_told() {
    assert_eq!(
        komo::cli::service::outcome(ServiceStep::Bootstrap, "/h/logs"),
        "shion gateway started under launchd (com.shion.gateway).\n\
         It will restart automatically on crash and start at login.\nLogs: /h/logs/gateway.log"
    );
    assert_eq!(
        komo::cli::service::outcome(ServiceStep::NotRunning, "/h/logs"),
        "shion gateway is not running under launchd."
    );
    assert_eq!(
        komo::cli::service::outcome(ServiceStep::Bootout, "/h/logs"),
        "shion gateway stopped."
    );
    assert!(komo::cli::service::outcome(ServiceStep::AlreadyRunning, "/h/logs")
        .contains("`shion gateway restart`"));
    let after = komo::cli::service::after_bootout;
    assert_eq!(after(ServiceStep::Bootout, false), Ok(()));
    assert_eq!(after(ServiceStep::BootoutThenBootstrap, true), Ok(()));
    assert!(after(ServiceStep::BootoutThenBootstrap, false).is_err());
}

#[test]
fn status_shows_the_lines_that_matter() {
    let report = "  state = running\n  junk\n\tpid = 7\n";
    let out = status(true, Some(report)).unwrap();
    assert!(out.contains(&"state = running".to_string()));
    assert!(out.contains(&"pid = 7".to_string()));
    assert!(!out.iter().any(|l| l.contains("junk")));
    assert_eq!(
        status(true, None).unwrap(),
        vec!["shion gateway: not loaded (run `shion gateway start`).".to_string()]
    );
}

#[test]
fn prune_flags_are_exclusive() {
    assert!(matches!(prune_by(Some("2026-01-01".into()), None), Ok(PruneBy::Before(_))));
    assert!(matches!(prune_by(None, Some(3)), Ok(PruneBy::Keep(3))));
    assert!(prune_by(None, None).is_err());
    assert_eq!(nothing_to_prune(2), "Fewer than 3 runs; nothing to prune.");
}

#[test]
fn dates_are_parsed() {
    assert!(parse_local_date("2026-07-18").is_ok());
    assert!(parse_local_date("18.07.2026").is_err());
    assert_eq!(cutoff_of("2026-07-18", 1_784_332_800, Some(7_200)), Ok(1_784_325_600));
    assert!(cutoff_of("2026-07-18", 1_784_332_800, None).is_err());
    let cutoff = parse_local_date("2026-07-18").unwrap();
    assert!((1_784_332_800 - cutoff).abs() < 86_400);
    let day = parse_day("2026-07-18").unwrap();
    assert_eq!(day.date, "2026-07-18");
    assert!(day.weekday.starts_with("Sat"));
    assert!(parse_day("tomorrow").is_err());
    assert!(workday_line(&day, true).contains("2026-07-18"));
    assert_ne!(workday_line(&day, true), workday_line(&day, false));
    assert!(resumed("r1", "s1", 4).contains("r1"));
}

#[test]
fn repl_lines() {
    assert!(matches!(read_line("   "), ReplStep::Ignore));
    assert!(matches!(read_line(" /new "), ReplStep::NewSession));
    assert!(matches!(read_line(" hi "), ReplStep::Send(s) if s == "hi"));
    assert_ne!(new_session_id(), new_session_id());
    assert!(greeting("s1", false).contains("s1"));
    assert!(started("s1").contains("s1"));
    assert!(outcome(Ok("fine")).contains("fine"));
    assert!(outcome(Err("bad")).contains("bad"));
}

fn item(id: &str) -> DreamItem {
    DreamItem {
        id: id.into(),
        recall_count: 3,
        unique_queries: 2,
        score: "0.50".into(),
        content: "a fact".into(),
    }
}

#[test]
fn dream_previews_name_what_would_change() {
    let none = DreamReport {
        promote: vec![],
        archive: vec![],
    };
    let (_, go) = preview(&none, true);
    assert!(!go);
    let some = DreamReport {
        promote: vec![item("m1")],
        archive: vec![],
    };
    let (lines, go) = preview(&some, true);
    assert!(go);
    assert!(lines.iter().any(|l| l.contains("m1")));
    assert!(!preview(&some, false).1);
    assert!(applied(1, 2).contains('2'));
}

#[test]
fn model_listing_marks_the_active_provider() {
    let s = Selection {
        env_provider: None,
        env_model: None,
        file_provider: Some("openai".into()),
        file_model: None,
    };
    let keys = vec![false, true, false, false, false];
    let lines = model_list(&s, &keys).unwrap();
    assert!(lines.iter().any(|l| l.contains("openai")));
    assert!(lines.iter().any(|l| l.contains("gpt-4o-mini")));
    let bad = Selection {
        env_provider: Some("nope".into()),
        env_model: None,
        file_provider: None,
        file_model: None,
    };
    assert!(model_list(&bad, &keys).is_err());
    assert!(komo::cli::model::set(Provider::Codex, Some("m"), "/c").iter().any(|l| l.contains("/c")));
    assert!(notes(Provider::OpenAi, false, false, "/h")
        .iter()
        .any(|l| l.contains("OPENAI_API_KEY")));
    assert!(notes(Provider::OpenAi, false, true, "/h").is_empty());
}

#[test]
fn pairing_listing() {
    let view = PairingView {
        id: "telegram:42".into(),
        status: "pending".into(),
        created_at: 0,
    };
    assert!(line_of_pairing(&view, "2026-07-18 10:00").contains("2026-07-18 10:00"));
    assert!(pair_list(&vec![view]).iter().any(|l| l.contains("telegram:42")));
    assert!(!pair_list(&vec![]).is_empty());
    let (req, _) = PairingRequest::mint("telegram", "42", "42");
    assert!(pair_approve("X", &ApproveOutcome::Approved(req)).is_ok());
    assert!(pair_approve("X", &ApproveOutcome::NotFound).is_err());
    assert_ne!(pair_revoke("telegram:42", true), pair_revoke("telegram:42", false));
}

#[test]
fn policy_listing_and_trial() {
    let (report, _) = build_policy(Some(PolicyFileConfig {
        default_normal: None,
        rule: vec![
            PolicyRuleFileConfig {
                category: "shell".into(),
                matcher: "prefix".into(),
                value: "cargo ".into(),
                effect: "allow".into(),
                ..Default::default()
            },
            PolicyRuleFileConfig::default(),
        ],
    }));
    let lines = policy_list(&report, "/h");
    assert!(lines.iter().any(|l| l.contains("cargo ")));
    assert!(rule_str(&report.policy.rules()[0]).contains("shell"));
    let said = policy_check(&report.policy, "shell", "cargo test", Some("cli"), false, false).unwrap();
    assert!(said.iter().any(|l| l.contains("allow")));
    assert!(policy_check(&report.policy, "disk", "x", None, false, false).is_err());
}

#[test]
fn upgrades_reuse_the_install_root() {
    assert_eq!(cargo_root_for("/home/u/.cargo/bin/komo").as_deref(), Some("/home/u/.cargo"));
    assert!(cargo_root_for("/komo").is_none());
    // The directory stays as the path writes it.
    assert_eq!(cargo_root_for("/home//u/./x/bin/komo").as_deref(), Some("/home//u/./x"));
    assert_eq!(cargo_root_for("/home/u//bin/./komo").as_deref(), Some("/home/u"));
    assert_eq!(cargo_root_for("//bin/komo").as_deref(), Some("/"));
    assert_eq!(cargo_root_for("bin/komo").as_deref(), Some(""));
    assert_eq!(cargo_root_for("./bin/komo").as_deref(), Some("."));
    assert_eq!(after_install(true, true), AfterInstall::Skip);
    assert_eq!(after_install(false, true), AfterInstall::Restart);
    assert_eq!(after_install(false, false), AfterInstall::NothingToRestart);
    assert!(no_source("/r").contains("/r"));
    assert!(pull_failed("/r").contains("/r"));
}

#[test]
fn upgrades_tell_their_steps() {
    assert_eq!(
        komo::cli::upgrade::banner("0.1.0", "/r"),
        "shion upgrade — current version 0.1.0\nrepo: /r"
    );
    assert_eq!(komo::cli::upgrade::pull_note(true), "\n→ git pull --ff-only");
    assert!(komo::cli::upgrade::pull_note(false).contains("skipping pull"));
    assert_eq!(
        komo::cli::upgrade::install_note(Some("/c")),
        "\n→ cargo install --path . --force (rebuild + reinstall)\n  installing into /c/bin"
    );
    assert!(komo::cli::upgrade::install_note(None).ends_with("reinstall)"));
    let after = komo::cli::upgrade::after_note;
    assert_eq!(after(AfterInstall::Restart), "\n→ restarting gateway");
    assert!(after(AfterInstall::Skip).contains("--no-restart"));
    assert!(after(AfterInstall::NothingToRestart).contains("nothing to restart"));
}

#[test]
fn a_failed_transition_fails_the_triage() {
    let mut tally = komo::cli::memory::Tally::new();
    tally.count(true, true);
    assert_eq!(tally.outcome(), Ok(()));
    tally.count(false, false);
    tally.count(true, false);
    assert_eq!(tally.summary(), "\npromoted 1, rejected 0, skipped 0");
    assert_eq!(tally.outcome(), Err("2 transition(s) failed".to_string()));
}

#[test]
fn qr_codes_are_drawn() {
    let drawn = render_qr("https://example.org/login");
    assert!(drawn.lines().count() > 10);
    assert!(show_code("link", None).contains("link"));
    assert!(show_code("link", Some("IMAGE")).contains("IMAGE"));
    assert!(login("u", "a", "/p").iter().any(|l| l.contains("/p")));
}

#[test]
fn wiring_follows_the_configuration() {
    assert!(tools(true).contains(&ToolKind::HomeAssistant));
    assert!(!tools(false).contains(&ToolKind::HomeAssistant));
    assert!(skills_note(None).is_none());
    assert!(skills_note(Some("- x: y")).unwrap().contains("- x: y"));
    let others = vec![".agents/skills".to_string()];
    let w = build(&snapshot(FileConfig::default()), "/ws", &others, "/h/skills", Some("/u"))
        .ok()
        .unwrap();
    assert_eq!(
        w.skill_dirs,
        vec!["/ws/skills", "/ws/.agents/skills", "/h/skills", "/u/.agents/skills"]
    );
    assert_eq!(w.runtime.review_interval, 10);
}
