use chrono::{Datelike, TimeZone, Timelike};
use komo::agent::briefing::{
    agentic_briefing_prompt, briefing_prompt, briefing_session, compose_prompt, BriefingStep,
    BriefingSweep,
};
use komo::agent::daemon::{
    breaker_tripped, dream, notify_batch, reminder_step, DreamSweep, DreamVerdict,
    MaintenanceSummary, ReminderStep, ReminderSweep, ReviewReport, ReviewSweep, Supervisor,
    TaskSweep, WorkdayGated, BRIEFING_MEMORY_WINDOW_SECS, MAX_CONSECUTIVE_FAILURES,
    REMINDER_GRACE_SECS,
};
use komo::agent::schedule::{
    local_stamp, local_time, next_occurrence_in, next_occurrence_local, require_cron, Schedule,
    LAST_INSTANT,
};
use komo::domain::memory::{Memory, MemoryConfidence, MemoryContext, MemoryKind, MemoryStatus};
use komo::domain::reminder::{parse_reminder_status, Reminder, ReminderStatus};
use komo::domain::task::{parse_task_status, Task, TaskStatus};

fn now_secs() -> i64 {
    chrono::Utc::now().timestamp()
}

fn past_reminder(secs_ago: i64) -> Reminder {
    Reminder::new("test".to_string(), now_secs() - secs_ago)
}

fn future_reminder() -> Reminder {
    Reminder::new("future".to_string(), now_secs() + 3600)
}

fn recurring_reminder(secs_ago: i64, schedule: &str) -> Reminder {
    Reminder::recurring("test".to_string(), now_secs() - secs_ago, schedule.to_string())
}

fn all_saved(n: usize) -> Vec<bool> {
    (0..n).map(|_| true).collect()
}

#[test]
fn sweep_fires_due_reminder() {
    let r = past_reminder(30);
    let id = r.id.clone();
    let plan = ReminderSweep { reminders: vec![r] }.run(now_secs());
    assert_eq!(plan.notices.len(), 1);
    assert_eq!(plan.updates.len(), 1);
    assert_eq!(plan.updates[0].id, id);
    assert_eq!(
        plan.updates[0].step,
        ReminderStep::Mark(ReminderStatus::Fired)
    );
    let summary = ReminderSweep::summary(&plan, &all_saved(1));
    assert_eq!(summary.reminders_fired, 1);
}

#[test]
fn sweep_skips_future_reminder() {
    let plan = ReminderSweep {
        reminders: vec![future_reminder()],
    }
    .run(now_secs());
    assert!(plan.notices.is_empty());
    assert!(plan.updates.is_empty());
    assert_eq!(ReminderSweep::summary(&plan, &vec![]).reminders_fired, 0);
}

#[test]
fn sweep_marks_long_overdue_as_missed() {
    let plan = ReminderSweep {
        reminders: vec![past_reminder(REMINDER_GRACE_SECS + 60)],
    }
    .run(now_secs());
    assert_eq!(
        plan.updates[0].step,
        ReminderStep::Mark(ReminderStatus::Missed)
    );
    assert!(plan.notices[0].title.contains("missed"));
}

#[test]
fn sweep_coalesces_multiple_due_reminders() {
    // Three on-time reminders due in the same sweep collapse into ONE
    // notification, not three pings.
    let plan = ReminderSweep {
        reminders: vec![past_reminder(10), past_reminder(20), past_reminder(30)],
    }
    .run(now_secs());
    assert_eq!(
        plan.notices.len(),
        1,
        "three due reminders must coalesce to one ping"
    );
    assert_eq!(plan.notices[0].title, "Komo reminder (3 items)");
    // Every reminder still transitioned, not just the ping.
    assert_eq!(plan.updates.len(), 3);
    assert!(plan
        .updates
        .iter()
        .all(|u| u.step == ReminderStep::Mark(ReminderStatus::Fired)));
    assert_eq!(
        ReminderSweep::summary(&plan, &all_saved(3)).reminders_fired,
        3
    );
}

#[test]
fn unsaved_reminders_are_not_counted() {
    let plan = ReminderSweep {
        reminders: vec![past_reminder(10), past_reminder(20)],
    }
    .run(now_secs());
    assert_eq!(
        ReminderSweep::summary(&plan, &vec![true, false]).reminders_fired,
        1
    );
}

#[test]
fn next_occurrence_in_computes_strictly_future_fire() {
    let tz = chrono::FixedOffset::east_opt(8 * 3600).unwrap();
    let expr = "0 9 * * *"; // 9 AM daily

    // 8 AM local → next occurrence is 9 AM the same day
    let at_8am = tz.with_ymd_and_hms(2024, 1, 1, 8, 0, 0).unwrap();
    let next = next_occurrence_in(expr, at_8am.timestamp(), 8 * 3600).unwrap();
    let next = tz.timestamp_opt(next, 0).unwrap();
    assert_eq!(next.hour(), 9);
    assert_eq!(next.day(), 1);

    // exactly 9 AM local → next is 9 AM the following day (strictly future)
    let at_9am = tz.with_ymd_and_hms(2024, 1, 1, 9, 0, 0).unwrap();
    let next = next_occurrence_in(expr, at_9am.timestamp(), 8 * 3600).unwrap();
    let next = tz.timestamp_opt(next, 0).unwrap();
    assert_eq!(next.hour(), 9);
    assert_eq!(next.day(), 2);
}

#[test]
fn next_occurrence_in_rejects_invalid_expr() {
    let result = next_occurrence_in("not a cron", now_secs(), 0);
    assert!(result.is_err());
}

#[test]
fn local_occurrences_are_strictly_future() {
    let now = now_secs();
    let next = next_occurrence_local("* * * * *", now).unwrap();
    assert!(now < next && next <= now + 60);
    assert!(next_occurrence_local("bogus", now).is_err());
}

#[test]
fn sweep_advances_recurring_reminder() {
    let now = now_secs();
    let r = recurring_reminder(30, "* * * * *");
    let plan = ReminderSweep { reminders: vec![r] }.run(now);

    assert_eq!(plan.notices.len(), 1);
    assert_eq!(plan.notices[0].title, "Komo reminder");
    let ReminderStep::Reschedule(at) = plan.updates[0].step else {
        panic!("a recurring reminder stays pending");
    };
    assert!(at > now);
}

#[test]
fn sweep_recurring_overdue_fires_once_and_skips_catchup() {
    let now = now_secs();
    let r = recurring_reminder(3 * 86400, "0 9 * * *");
    let plan = ReminderSweep { reminders: vec![r] }.run(now);

    // Only one notification (missed)
    assert_eq!(plan.notices.len(), 1);
    assert!(plan.notices[0].title.contains("missed"));
    let ReminderStep::Reschedule(at) = plan.updates[0].step else {
        panic!("a recurring reminder stays pending");
    };
    assert!(at > now);
}

#[test]
fn sweep_marks_recurring_with_broken_schedule_missed() {
    let plan = ReminderSweep {
        reminders: vec![recurring_reminder(30, "not a valid cron")],
    }
    .run(now_secs());
    assert_eq!(
        plan.updates[0].step,
        ReminderStep::Mark(ReminderStatus::Missed)
    );
}

#[test]
fn reminder_steps_follow_the_schedule() {
    let once = Reminder::new("x".into(), 1000);
    assert_eq!(
        reminder_step(&once, 1000, None),
        ReminderStep::Mark(ReminderStatus::Fired)
    );
    assert_eq!(
        reminder_step(&once, 1000 + REMINDER_GRACE_SECS, None),
        ReminderStep::Mark(ReminderStatus::Fired)
    );
    assert_eq!(
        reminder_step(&once, 1001 + REMINDER_GRACE_SECS, None),
        ReminderStep::Mark(ReminderStatus::Missed)
    );
    let again = Reminder::recurring("x".into(), 1000, "* * * * *".into());
    assert!(again.is_recurring());
    assert_eq!(
        reminder_step(&again, 1000, Some(1060)),
        ReminderStep::Reschedule(1060)
    );
}

#[test]
fn rejects_invalid_cron() {
    assert!(Schedule::parse("not a cron").is_err());
}

#[test]
fn the_error_names_the_expression() {
    assert!(require_cron("0 3 * * *").is_ok());
    assert!(require_cron("not a cron").unwrap_err().contains("not a cron"));
}

#[test]
fn next_fire_of_every_minute_is_within_a_minute() {
    let schedule = Schedule::parse("* * * * *").unwrap();
    let now = chrono::Utc::now();
    let wait = schedule
        .next_after(now.timestamp(), now.timestamp_subsec_nanos() % 1_000_000_000)
        .unwrap();
    let wait = std::time::Duration::new(wait.secs, wait.nanos);
    assert!(wait <= std::time::Duration::from_secs(60));
}

#[test]
fn waits_are_exact_to_the_nanosecond() {
    let schedule = Schedule::parse("* * * * *").unwrap();
    let wait = schedule.next_after(1_704_067_201, 1).unwrap();
    assert_eq!((wait.secs, wait.nanos), (58, 999_999_999));
    let wait = schedule.next_after(1_704_067_200, 0).unwrap();
    assert_eq!((wait.secs, wait.nanos), (60, 0));
}

#[test]
fn local_times_are_minutes_and_stamps() {
    let t = local_time(1_704_067_200);
    assert_eq!(t.len(), "2024-01-01 00:00".len());
    assert!(t.starts_with("2023-12-31") || t.starts_with("2024-01-01"));
    assert!(local_stamp(1_704_067_200).contains('T'));
    assert_ne!(local_time(LAST_INSTANT), "");
}

#[test]
fn breaker_trips_only_after_max_consecutive_failures() {
    let mut failures = 0u32;
    // The first MAX-1 straight failures do not trip the breaker.
    for _ in 0..MAX_CONSECUTIVE_FAILURES - 1 {
        assert!(!breaker_tripped(&mut failures, false));
    }
    // The MAX-th straight failure trips it.
    assert!(breaker_tripped(&mut failures, false));
}

#[test]
fn breaker_resets_on_success() {
    let mut failures = 0u32;
    breaker_tripped(&mut failures, false);
    breaker_tripped(&mut failures, false);
    // A success clears the count so the next failure starts from one.
    breaker_tripped(&mut failures, true);
    assert_eq!(failures, 0);
    assert!(!breaker_tripped(&mut failures, false));
    assert_eq!(failures, 1);
}

#[test]
fn a_supervisor_stops_after_a_straight_run_of_failures() {
    let mut s = Supervisor::new();
    for _ in 0..MAX_CONSECUTIVE_FAILURES - 1 {
        s = s.supervise(false).ok().unwrap();
    }
    s = s.supervise(true).ok().unwrap();
    for _ in 0..MAX_CONSECUTIVE_FAILURES - 1 {
        s = s.supervise(false).ok().unwrap();
    }
    assert!(s.supervise(false).is_err());
}

#[test]
fn batches_become_one_notice() {
    assert!(notify_batch("T", &vec![]).is_none());
    let one = notify_batch("T", &vec!["a".into()]).unwrap();
    assert_eq!((one.title.as_str(), one.body.as_str()), ("T", "a"));
    let two = notify_batch("T", &vec!["a".into(), "b".into()]).unwrap();
    assert_eq!(two.title, "T (2 items)");
    assert!(two.body.contains('a') && two.body.contains('b'));
}

fn due_task(offset_secs: i64) -> Task {
    let mut task = Task::new("send report".to_string());
    task.status = TaskStatus::Todo;
    task.due_at = Some(now_secs() + offset_secs);
    task
}

#[test]
fn task_sweep_notifies_due_task_once() {
    let now = now_secs();
    let plan = TaskSweep {
        tasks: vec![due_task(-30)],
    }
    .run(now);
    assert_eq!(plan.notices.len(), 1);
    assert_eq!(plan.notices[0].title, "Komo task due");
    // Task stays open; only the guard flips.
    assert_eq!(plan.updates.len(), 1);
    assert_eq!(plan.updates[0].status, TaskStatus::Todo);
    assert_eq!(plan.updates[0].due_notified_at, Some(now));
    assert_eq!(TaskSweep::summary(&all_saved(1)).tasks_notified, 1);

    // Second sweep: nothing new.
    let again = TaskSweep {
        tasks: plan.updates,
    }
    .run(now);
    assert!(again.notices.is_empty());
    assert!(again.updates.is_empty());
    assert_eq!(TaskSweep::summary(&vec![]).tasks_notified, 0);
}

#[test]
fn task_sweep_coalesces_multiple_due_tasks() {
    let plan = TaskSweep {
        tasks: vec![due_task(-30), due_task(-45), due_task(-60)],
    }
    .run(now_secs());
    assert_eq!(
        plan.notices.len(),
        1,
        "three due tasks must coalesce to one ping"
    );
    assert_eq!(plan.notices[0].title, "Komo task due (3 items)");
    assert_eq!(plan.updates.len(), 3);
    assert!(plan.updates.iter().all(|t| t.due_notified_at.is_some()));
}

#[test]
fn task_sweep_skips_future_and_undated_tasks() {
    let mut undated = Task::new("someday".to_string());
    undated.status = TaskStatus::Todo;
    let plan = TaskSweep {
        tasks: vec![due_task(3600), undated],
    }
    .run(now_secs());
    assert!(plan.notices.is_empty());
    assert!(plan.updates.is_empty());
}

#[test]
fn task_sweep_marks_overdue_past_grace() {
    let plan = TaskSweep {
        tasks: vec![due_task(-(REMINDER_GRACE_SECS + 60))],
    }
    .run(now_secs());
    assert_eq!(plan.notices[0].title, "Komo (overdue task)");
}

#[test]
fn task_sweep_includes_waiting_on_in_body() {
    let mut task = due_task(-30);
    task.waiting_on = "alice".to_string();
    let plan = TaskSweep { tasks: vec![task] }.run(now_secs());
    assert!(
        plan.notices[0].body.contains("waiting on: alice"),
        "{}",
        plan.notices[0].body
    );
}

#[test]
fn briefing_prefers_the_agent_turn_with_tool_instructions() {
    let sweep = BriefingSweep {
        tasks: vec![Task::new("write report".into())],
        memories: vec![],
        runtime: true,
    };
    let BriefingStep::AskAgent(agentic, plain) = sweep.run(now_secs()) else {
        panic!("a runtime takes the briefing");
    };
    assert!(agentic.contains("write report"), "digest is embedded");
    assert!(
        agentic.contains("read-only tools"),
        "agent-turn instructions appended"
    );
    let text = BriefingSweep::after_agent(plain, Ok("agentic briefing".into())).unwrap();
    let notice = BriefingSweep::delivery(&text).unwrap();
    assert_eq!(notice.body, "agentic briefing");
}

#[test]
fn briefing_falls_back_to_plain_compose_when_the_agent_turn_fails() {
    let sweep = BriefingSweep {
        tasks: vec![Task::new("write report".into())],
        memories: vec![],
        runtime: true,
    };
    let BriefingStep::AskAgent(_, plain) = sweep.run(now_secs()) else {
        panic!("a runtime takes the briefing");
    };
    let step = BriefingSweep::after_agent(plain.clone(), Err("tool exploded".into())).unwrap_err();
    let BriefingStep::Compose(prompt) = step else {
        panic!("the briefing still goes out");
    };
    assert_eq!(prompt, plain);
    assert_eq!(
        BriefingSweep::delivery("plain fallback briefing").unwrap().body,
        "plain fallback briefing"
    );
}

#[test]
fn briefing_prompt_is_none_when_nothing_to_say() {
    assert!(briefing_prompt(&vec![], &vec![], now_secs()).is_none());
}

#[test]
fn briefing_prompt_skips_stale_memories() {
    let now = now_secs();
    let mut old = Memory::new(MemoryKind::Profile, "ancient");
    old.created_at = now - BRIEFING_MEMORY_WINDOW_SECS - 1;
    // Only a stale memory, no tasks → nothing recent → no briefing.
    assert!(briefing_prompt(&vec![], &vec![old], now).is_none());
}

#[test]
fn briefing_prompt_marks_overdue_tasks() {
    let now = now_secs();
    let mut task = Task::new("file taxes".to_string());
    task.status = TaskStatus::Todo;
    task.due_at = Some(now - 3600);
    let prompt = briefing_prompt(&vec![task], &vec![], now).unwrap();
    assert!(prompt.contains("file taxes"));
    assert!(prompt.contains("OVERDUE"), "{prompt}");
}

#[test]
fn briefing_sections_say_what_they_leave_out() {
    let tasks: Vec<Task> = (0..13).map(|i| Task::new(format!("task {i}"))).collect();
    let dues: Vec<String> = (0..13).map(|_| String::new()).collect();
    let prompt = compose_prompt(&tasks, &dues, &vec![], 0).unwrap();
    assert!(prompt.contains("task 9"));
    assert!(!prompt.contains("task 10"));
    assert!(prompt.contains('3'));
}

#[test]
fn briefing_sweep_sends_when_tasks_present() {
    let mut task = Task::new("ship release".to_string());
    task.status = TaskStatus::Todo;
    let sweep = BriefingSweep {
        tasks: vec![task],
        memories: vec![],
        runtime: false,
    };
    assert!(matches!(sweep.run(now_secs()), BriefingStep::Compose(p) if p.contains("ship release")));
    let notice = BriefingSweep::delivery("Good morning! One task today.").unwrap();
    assert_eq!(notice.title, "Komo daily briefing");
    assert!(notice.body.contains("Good morning"));
}

#[test]
fn briefing_sweep_stays_silent_when_nothing_open() {
    let sweep = BriefingSweep {
        tasks: vec![],
        memories: vec![],
        runtime: false,
    };
    assert!(matches!(sweep.run(now_secs()), BriefingStep::Silent));
}

#[test]
fn briefing_sweep_silent_on_empty_llm_reply() {
    assert!(BriefingSweep::delivery("   ").is_none());
}

#[test]
fn agentic_prompts_extend_the_digest() {
    let p = agentic_briefing_prompt("digest");
    assert!(p.starts_with("digest"));
    assert!(p.len() > "digest".len());
    assert!(briefing_session("2026-07-18").contains("2026-07-18"));
}

fn dream_candidate(id: &str) -> Memory {
    let mut m = Memory::new(MemoryKind::Fact, "a candidate fact");
    m.id = id.to_string();
    m.status = MemoryStatus::Candidate;
    m.confidence = MemoryConfidence::Extracted;
    m
}

#[test]
fn dream_sweep_promotes_and_archives() {
    let now = now_secs();
    let sweep = DreamSweep {
        memories: vec![
            dream_candidate("mem-promote"),
            dream_candidate("mem-archive"),
            dream_candidate("mem-keep"),
        ],
    };
    let verdicts = vec![
        DreamVerdict::Promote,
        DreamVerdict::Archive,
        DreamVerdict::Keep,
    ];
    let out = sweep.apply(&verdicts, now);
    // Promoted → active + inferred (usage-proven, not user-confirmed), so it
    // recalls but stays ineligible for pinning.
    let promoted = out[0].as_ref().unwrap();
    assert_eq!(promoted.status, MemoryStatus::Active);
    assert_eq!(promoted.confidence, MemoryConfidence::Inferred);
    let archived = out[1].as_ref().unwrap();
    assert_eq!(archived.status, MemoryStatus::Archived);
    assert!(out[2].is_none());
    let summary = DreamSweep::summary(&verdicts, &all_saved(3));
    assert_eq!(summary.memories_promoted, 1);
    assert_eq!(summary.memories_archived, 1);
}

#[test]
fn dream_sweep_never_promotes_to_pinnable() {
    // Even a heavily-recalled promotion must not become pinnable: pinning
    // stays a manual, confirmed-only path.
    let now = now_secs();
    let mut m = dream_candidate("mem-hot");
    m.kind = MemoryKind::Preference; // an identity kind
    m.recall_count = 99;
    let promoted = dream(&m, DreamVerdict::Promote, now).unwrap();
    let ctx = MemoryContext::from_session("cli");
    assert!(
        !promoted.is_pinnable(&ctx, now),
        "auto-promoted memory must not be pinnable"
    );
}

#[test]
fn workday_gate_runs_inner_on_a_workday() {
    let gate = WorkdayGated { workday: true };
    assert!(gate.admits());
    let inner = MaintenanceSummary {
        briefings_sent: 1,
        ..Default::default()
    };
    assert_eq!(gate.run(inner).briefings_sent, 1);
}

#[test]
fn workday_gate_skips_inner_off_a_workday() {
    let gate = WorkdayGated { workday: false };
    assert!(!gate.admits(), "inner must not run off a workday");
    let inner = MaintenanceSummary {
        briefings_sent: 1,
        ..Default::default()
    };
    assert_eq!(gate.run(inner), MaintenanceSummary::default());
}

#[test]
fn reviews_are_summarized() {
    let review = ReviewReport {
        sessions_reviewed: 1,
        memories_written: 2,
        skills_written: 3,
        tasks_captured: 4,
    };
    let s = ReviewSweep { review }.run();
    assert_eq!(
        (s.sessions_reviewed, s.memories_written, s.skills_written, s.tasks_captured),
        (1, 2, 3, 4)
    );
    assert_eq!(s.reminders_fired, 0);
}

#[test]
fn reminder_and_task_words_parse_back() {
    for s in [
        ReminderStatus::Pending,
        ReminderStatus::Fired,
        ReminderStatus::Missed,
        ReminderStatus::Cancelled,
    ] {
        assert_eq!(parse_reminder_status(s.as_str()), s);
    }
    for s in [
        TaskStatus::Inbox,
        TaskStatus::Todo,
        TaskStatus::Waiting,
        TaskStatus::Done,
        TaskStatus::Cancelled,
    ] {
        assert_eq!(parse_task_status(s.as_str()), Ok(s));
    }
    assert!(parse_task_status("someday").is_err());
}

#[test]
fn a_plain_briefing_is_composed_in_its_own_session() {
    let asked = komo::agent::briefing::BriefingSweep::compose_plain("Compose.".to_string(), 3);
    assert_eq!(asked.id, "briefing");
    assert_eq!(asked.created_at, 3);
    assert_eq!(asked.messages.len(), 1);
    assert_eq!(asked.messages[0].content, "Compose.");
}

#[test]
fn times_are_written_on_a_given_clock() {
    use_clock(0, "1970-01-01 00:00", "1970-01-01T00:00:00+00:00");
    use_clock(3_600, "1970-01-01 01:00", "1970-01-01T01:00:00+01:00");
    use_clock(-19_800, "1969-12-31 18:30", "1969-12-31T18:30:00-05:30");
    let far = LAST_INSTANT + 1;
    assert_eq!(komo::agent::schedule::time_at(far, 3_600), far.to_string());
    assert_eq!(komo::agent::schedule::stamp_at(far, 3_600), far.to_string());
    for (edge, offset) in [
        (LAST_INSTANT, 86_399),
        (LAST_INSTANT, -86_399),
        (komo::agent::schedule::FIRST_INSTANT, 86_399),
        (komo::agent::schedule::FIRST_INSTANT, -86_399),
    ] {
        assert_ne!(komo::agent::schedule::time_at(edge, offset), "");
        assert_ne!(komo::agent::schedule::stamp_at(edge, offset), "");
    }
}

fn use_clock(offset: i32, minute: &str, stamp: &str) {
    assert_eq!(komo::agent::schedule::time_at(0, offset), minute);
    assert_eq!(komo::agent::schedule::stamp_at(0, offset), stamp);
}

#[test]
fn notifier_failure_does_not_abort_sweep() {
    let sweep = ReminderSweep {
        reminders: vec![past_reminder(10), past_reminder(20)],
    };
    let plan = sweep.run(now_secs());
    // Whatever becomes of the notice, both reminders are settled.
    assert_eq!(plan.notices.len(), 1);
    assert_eq!(plan.updates.len(), 2);
    assert!(plan
        .updates
        .iter()
        .all(|u| u.step == ReminderStep::Mark(ReminderStatus::Fired)));
    assert_eq!(ReminderSweep::summary(&plan, &all_saved(2)).reminders_fired, 2);
}
