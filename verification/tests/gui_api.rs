use komo::config::report::{ConfigIssue, ConfigReport, IssueSeverity, Origin};
use komo::domain::task::TaskStatus;
use komo::gui::api::{missing_field, ApiClient, ChatMode, Interactions, StatusSnapshot};
use komo::request::Method;

fn client() -> ApiClient {
    ApiClient { base: "http://127.0.0.1:8765".to_string(), key: "k".to_string() }
}

#[test]
fn reads_name_their_paths() {
    let c = client();
    let at = |path: &str| format!("http://127.0.0.1:8765{path}");
    assert_eq!(c.is_healthy().url, at("/health"));
    assert_eq!(c.status().url, at("/api/status"));
    assert_eq!(c.tasks().url, at("/api/tasks"));
    assert_eq!(c.memories(None).url, at("/api/memories"));
    assert_eq!(c.memories(Some("candidate")).url, at("/api/memories?status=candidate"));
    assert_eq!(c.runs(20).url, at("/api/runs?limit=20"));
    assert_eq!(c.run("run-1").url, at("/api/runs/run-1"));
    assert_eq!(c.sessions().url, at("/api/sessions"));
    assert_eq!(c.session_messages("s").url, at("/api/sessions/s/messages"));
    assert_eq!(c.reminders().url, at("/api/reminders"));
    assert_eq!(c.interactions("s").url, at("/api/interactions/s"));
    for r in [c.tasks(), c.runs(1), c.pairings(), c.dream_preview(), c.skills()] {
        assert_eq!(r.method, Method::Get);
        assert!(r.body.is_none());
        assert!(r.headers.is_empty());
    }
}

#[test]
fn actions_post_to_their_paths() {
    let c = client();
    let r = c.memory_transition("mem-1", "promote");
    assert_eq!(r.method, Method::Post);
    assert_eq!(r.url, "http://127.0.0.1:8765/api/memories/mem-1/promote");
    assert_eq!(r.body.as_deref(), Some("{}"));
    assert_eq!(c.prune_runs(-5).url, "http://127.0.0.1:8765/api/runs/prune?cutoff=-5");
    assert_eq!(c.resume_run("run-1").url, "http://127.0.0.1:8765/api/runs/run-1/resume");
    assert_eq!(c.clean_sessions().url, "http://127.0.0.1:8765/api/sessions/clean");
    let r = c.resolve_approval("s", "once");
    assert_eq!(r.url, "http://127.0.0.1:8765/api/interactions/s/approval");
    assert_eq!(r.body.as_deref(), Some("{\"decision\":\"once\"}"));
    let r = c.answer_question("s", "say \"hi\"");
    assert_eq!(r.url, "http://127.0.0.1:8765/api/interactions/s/answer");
    assert_eq!(r.body.as_deref(), Some("{\"text\":\"say \\\"hi\\\"\"}"));
}

#[test]
fn chat_turns_say_how_they_run() {
    let c = client();
    let r = c.chat("s", "hello", ChatMode::Interactive);
    assert_eq!(r.url, "http://127.0.0.1:8765/v1/chat/completions");
    assert!(r.headers.contains(&("X-Komo-Session-Id".to_string(), "s".to_string())));
    assert!(r.headers.contains(&("X-Komo-Interactive".to_string(), "1".to_string())));
    assert!(r.body.unwrap().contains("\"hello\""));
    let r = c.chat("s", "a\"b\\c\n\r\t\u{8}\u{c}\u{1}\u{1f}\u{7f}/é", ChatMode::Interactive);
    assert!(r
        .body
        .unwrap()
        .contains("\"a\\\"b\\\\c\\n\\r\\t\\b\\f\\u0001\\u001f\u{7f}/é\""));
    let r = c.chat("s", "hello", ChatMode::Trusted);
    assert!(r.headers.contains(&("X-Komo-Trusted".to_string(), "1".to_string())));
    let answer = "{\"choices\":[{\"message\":{\"content\":\"hi there\"}}]}";
    assert_eq!(ApiClient::chat_answer(answer).unwrap(), "hi there");
    assert_eq!(ApiClient::chat_answer("{}").unwrap(), "");
    assert!(ApiClient::chat_answer("not json").is_err());
}

#[test]
fn answers_to_actions_are_read() {
    assert_eq!(ApiClient::removed("{\"removed\":3}").unwrap(), 3);
    assert_eq!(ApiClient::removed("{}").unwrap(), 0);
    assert!(ApiClient::removed("{").is_err());
    // An answer must be an object, not just any document.
    for other in ["[]", "3", "true", "null", "\"removed\""] {
        assert!(ApiClient::removed(other).is_err());
        assert!(ApiClient::revoked(other).is_err());
        assert!(ApiClient::dreamed(other).is_err());
        assert!(ApiClient::resolved(other).is_err());
        assert!(ApiClient::accepted(other).is_err());
    }
    assert_eq!(ApiClient::accepted("{\"ok\":true}"), Ok(()));
    assert!(ApiClient::chat_answer("[]").unwrap().is_empty());
    assert!(ApiClient::revoked("{\"revoked\":true}").unwrap());
    assert!(!ApiClient::revoked("{\"revoked\":\"yes\"}").unwrap());
    assert_eq!(ApiClient::dreamed("{\"promoted\":2,\"archived\":1}").unwrap(), (2, 1));
    assert!(ApiClient::resolved("{\"resolved\":true}").unwrap());
    assert!(!ApiClient::resolved("{}").unwrap());
    assert!(missing_field("runs").contains("`runs`"));
}

#[test]
fn nothing_pending_is_empty() {
    let nothing = Interactions::default();
    assert!(nothing.is_empty());
    let asked = Interactions { approval: None, question: Some("which one?".to_string()) };
    assert!(!asked.is_empty());
    assert!(!StatusSnapshot::default().ok);
}

#[test]
fn open_tasks_are_those_still_owed() {
    assert!(TaskStatus::Inbox.is_open());
    assert!(TaskStatus::Todo.is_open());
    assert!(TaskStatus::Waiting.is_open());
    assert!(!TaskStatus::Done.is_open());
    assert!(!TaskStatus::Cancelled.is_open());
}

#[test]
fn fatal_issues_are_picked_by_what_they_concern() {
    let issue = |path: &'static str, severity: IssueSeverity| ConfigIssue {
        path,
        severity,
        message: "broken".to_string(),
    };
    let report = ConfigReport {
        issues: vec![
            issue("policy", IssueSeverity::Warning),
            issue("channels.feishu", IssueSeverity::Fatal),
            issue("provider", IssueSeverity::Fatal),
        ],
        provider_origin: Origin::Default,
        model_origin: Origin::Default,
        provider_key_present: vec![],
    };
    assert_eq!(report.fatal().unwrap().path, "channels.feishu");
    // Only fatal issues are put to the predicate.
    let found = report.fatal_matching(|i| {
        assert_eq!(i.severity, IssueSeverity::Fatal);
        i.path == "provider"
    });
    assert_eq!(found.unwrap().path, "provider");
    assert!(report.fatal_matching(|i| i.path == "policy").is_none());
}
