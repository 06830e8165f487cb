use komo::domain::cron::{
    parse_cron_run_status, CronAction, CronJob, CronRunStatus, DEFAULT_CRON_JOB_TIMEOUT_SECS,
};

#[test]
fn new_command_job_is_enabled_with_default_timeout() {
    let job = CronJob::new_command("weekly", "0 14 * * 5", "/opt/rotate.py", 1000);
    assert!(job.enabled);
    assert_eq!(job.action.kind(), "command");
    let CronAction::Command { timeout_secs, .. } = &job.action else {
        panic!("command job");
    };
    assert_eq!(*timeout_secs, DEFAULT_CRON_JOB_TIMEOUT_SECS);
    assert_eq!(job.next_run_at, 1000);
    assert!(job.last_status.is_none());
    assert!(!job.id.is_empty());
}

#[test]
fn agent_jobs_keep_their_prompt_and_skills() {
    let action = CronAction::Agent {
        prompt: "summarize my day".into(),
        skills: vec!["calendar".into()],
    };
    let job = CronJob::new("brief", "0 8 * * *", action, 0);
    assert_eq!(job.action.kind(), "agent");
    assert_eq!(job.schedule, "0 8 * * *");
    let CronAction::Agent { prompt, skills } = &job.action else {
        panic!("agent job");
    };
    assert_eq!(prompt, "summarize my day");
    assert_eq!(skills, &vec!["calendar".to_string()]);
}

#[test]
fn due_requires_enabled_and_elapsed() {
    let mut job = CronJob::new_command("j", "* * * * *", "/bin/true", 100);
    assert!(job.is_due(100));
    assert!(job.is_due(101));
    assert!(!job.is_due(99));
    job.enabled = false;
    assert!(!job.is_due(200), "a disabled job is never due");
}

#[test]
fn run_status_roundtrip() {
    assert_eq!(parse_cron_run_status(""), None);
    assert_eq!(parse_cron_run_status("ok"), Some(CronRunStatus::Succeeded));
    assert_eq!(parse_cron_run_status("failed"), Some(CronRunStatus::Failed));
    assert_eq!(
        parse_cron_run_status("garbage"),
        Some(CronRunStatus::Failed)
    );
}

#[test]
fn run_status_words_parse_back_to_themselves() {
    for s in [CronRunStatus::Succeeded, CronRunStatus::Failed] {
        assert_eq!(parse_cron_run_status(s.as_str()), Some(s));
    }
    assert_eq!(CronRunStatus::Succeeded.as_str(), "ok");
}

#[test]
fn ids_are_unique_across_rapid_creation() {
    let a = CronJob::new_command("a", "* * * * *", "/bin/true", 0);
    let b = CronJob::new_command("b", "* * * * *", "/bin/true", 0);
    assert_ne!(a.id, b.id);
}
