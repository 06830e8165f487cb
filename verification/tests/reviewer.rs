use komo::agent::reviewer::{
    commitment_key, extract_json, fnv1a, fnv_of, memory_key, plan_memories, plan_skill, plan_tasks,
    render_message, review_prompt, should_skip, suggestion_document, CommitmentSuggestion,
    MemorySuggestion, SkillSuggestion,
};
use komo::domain::memory::{
    parse_memory_kind, Memory, MemoryConfidence, MemoryKind, MemoryScope, MemoryStatus,
};
use komo::domain::message::{Message, Session};
use komo::domain::reviewer::{ReviewOutcome, SELF_REVIEW_PROMPT};
use komo::domain::skill::{Skill, SOURCE_REVIEWER};
use komo::domain::task::TaskStatus;

fn session(id: &str) -> Session {
    Session {
        id: id.to_string(),
        messages: vec![Message::user(
            "I'll send Bob the report tomorrow".to_string(),
        )],
        created_at: 0,
    }
}

fn commitment(title: &str) -> CommitmentSuggestion {
    CommitmentSuggestion {
        title: title.into(),
        waiting_on: None,
        note: None,
    }
}

fn memory(kind: &str, content: &str) -> MemorySuggestion {
    MemorySuggestion {
        kind: Some(kind.into()),
        content: content.into(),
    }
}

#[test]
fn captures_commitment_into_inbox() {
    let c = CommitmentSuggestion {
        title: "send Bob the report".into(),
        waiting_on: Some("Bob".into()),
        note: Some("by tomorrow".into()),
    };
    let rows = plan_tasks(&vec![c], "telegram:42", &vec![]);
    assert_eq!(rows.len(), 1);
    assert_eq!(rows[0].status, TaskStatus::Inbox);
    assert_eq!(rows[0].waiting_on, "Bob");
    assert_eq!(rows[0].note, "by tomorrow");
    assert_eq!(rows[0].source, "telegram:42");
    assert!(!rows[0].source_message_id.is_empty());
}

#[test]
fn dedups_commitment_across_repeated_reviews() {
    let found = vec![commitment("send Bob the report")];
    let first = plan_tasks(&found, "telegram:42", &vec![]);
    let held: Vec<String> = first.iter().map(|t| t.source_message_id.clone()).collect();
    // Same session + same commitment → no duplicate on the second sweep.
    assert!(plan_tasks(&found, "telegram:42", &held).is_empty());
    // Nor within one review.
    let twice = vec![commitment("send Bob the report"), commitment("Send bob the REPORT")];
    assert_eq!(plan_tasks(&twice, "telegram:42", &vec![]).len(), 1);
}

#[test]
fn commitment_key_is_stable_under_whitespace_and_case() {
    assert_eq!(
        commitment_key("Send  Bob the REPORT"),
        commitment_key("send bob the report")
    );
}

#[test]
fn extracts_fenced_json() {
    let document = suggestion_document(
        "```json\n{\"memories\":[{\"kind\":\"user\",\"content\":\"prefers concise replies\"}],\"skills\":[]}\n```",
    )
    .unwrap();
    let parsed: serde_json::Value = serde_json::from_str(&document).unwrap();

    assert_eq!(parsed["memories"].as_array().unwrap().len(), 1);
    // Legacy `user` kind parses leniently to `Profile`.
    assert_eq!(
        parsed["memories"][0]["kind"].as_str().map(parse_memory_kind),
        Some(MemoryKind::Profile)
    );
}

#[test]
fn extracted_memory_lands_as_scoped_candidate() {
    let rows = plan_memories(
        &vec![memory("preference", "prefers concise replies")],
        "telegram:42",
        &vec![],
    );
    assert_eq!(rows.len(), 1);
    assert_eq!(rows[0].kind, MemoryKind::Preference);
    assert_eq!(rows[0].status, MemoryStatus::Candidate);
    assert_eq!(rows[0].confidence, MemoryConfidence::Extracted);
    assert_eq!(
        rows[0].scope,
        MemoryScope::Channel {
            platform: "telegram".into(),
            chat_id: "42".into()
        }
    );
    assert!(!rows[0].source_message_id.is_empty());
    assert!(!rows[0].pinned);
}

#[test]
fn dedups_extracted_memory_across_repeated_reviews() {
    let found = vec![memory("fact", "komo uses Rust")];
    let rows = plan_memories(&found, "telegram:42", &vec![]);
    assert_eq!(rows.len(), 1);
    // Same session + same fact → no duplicate on the second sweep.
    assert!(plan_memories(&found, "telegram:42", &rows).is_empty());
}

#[test]
fn does_not_re_extract_a_known_active_memory() {
    // The fact is already held as an active, in-scope memory, distilled from a
    // *different* session.
    let mut existing = Memory::new(MemoryKind::Fact, "komo uses Rust");
    existing.status = MemoryStatus::Active;
    existing.scope = MemoryScope::Channel {
        platform: "telegram".into(),
        chat_id: "42".into(),
    };
    existing.source = "telegram:99".into(); // a different origin session
    let rows = plan_memories(
        &vec![memory("fact", "komo uses Rust")],
        "telegram:42",
        &vec![existing],
    );
    assert!(rows.is_empty());
}

#[test]
fn re_extracts_known_memory_from_another_scope() {
    // The same fact scoped to a *different* channel was never eligible to be
    // recalled into this session, so it is still captured here.
    let mut existing = Memory::new(MemoryKind::Fact, "komo uses Rust");
    existing.status = MemoryStatus::Active;
    existing.scope = MemoryScope::Channel {
        platform: "feishu".into(),
        chat_id: "oc_x".into(),
    };
    let rows = plan_memories(
        &vec![memory("fact", "komo uses Rust")],
        "telegram:42",
        &vec![existing],
    );
    assert_eq!(rows.len(), 1);
}

#[test]
fn skips_environment_failures() {
    assert!(should_skip("npm failed with command not found"));
    assert!(!should_skip("User asked for concise status updates"));
}

#[test]
fn skipped_suggestions_are_not_proposed() {
    let rows = plan_memories(
        &vec![memory("fact", "npm failed with command not found")],
        "telegram:42",
        &vec![],
    );
    assert!(rows.is_empty());
}

#[test]
fn protected_skills_are_never_replaced() {
    let s = SkillSuggestion {
        name: "x".into(),
        description: None,
        instructions: "do it".into(),
    };
    let new = plan_skill(&s, &None).unwrap();
    assert_eq!(new.name, "x");
    assert_eq!(new.source, SOURCE_REVIEWER);
    let mut held: Skill = new.clone();
    held.protected = true;
    assert!(plan_skill(&s, &Some(held)).is_none());
}

#[test]
fn fnv_of_known_texts() {
    assert_eq!(fnv_of(""), 0xcbf2_9ce4_8422_2325);
    assert_eq!(fnv_of("a"), 0xaf63_dc4c_8601_ec8c);
    assert_eq!(fnv1a("A"), fnv1a(" a "));
    assert_ne!(memory_key("a"), commitment_key("a"));
}

#[test]
fn replies_without_json_hold_no_document() {
    assert!(suggestion_document("   ").is_none());
    assert_eq!(extract_json("{\"a\":1}"), "{\"a\":1}");
}

#[test]
fn review_prompts_carry_the_transcript() {
    let s = session("telegram:42");
    let p = review_prompt(&s);
    assert!(p.starts_with(SELF_REVIEW_PROMPT));
    assert!(p.contains(&render_message(&s.messages[0])));
    assert!(render_message(&s.messages[0]).contains("user"));
}

#[test]
fn an_outcome_without_writes_is_empty() {
    let mut o = ReviewOutcome::default();
    assert!(o.is_empty());
    o.tasks_captured.push("t".into());
    assert!(!o.is_empty());
}

#[test]
fn a_review_writes_what_is_new() {
    let mut known = Memory::new(MemoryKind::Fact, "lives in Berlin");
    known.status = MemoryStatus::Active;
    known.scope = MemoryScope::Global;
    let suggestions = komo::agent::reviewer::ReviewSuggestions {
        memories: vec![memory("fact", "Lives in  berlin"), memory("fact", "has two cats")],
        skills: vec![
            SkillSuggestion {
                name: "notes".into(),
                description: Some("how to take notes".into()),
                instructions: "Write them down.".into(),
            },
            SkillSuggestion {
                name: "kept".into(),
                description: None,
                instructions: "Change me.".into(),
            },
        ],
        commitments: vec![commitment("call Ann"), commitment("send Bob the report")],
    };
    let kept = Skill {
        name: "kept".into(),
        description: "operator's".into(),
        instructions: "As it is.".into(),
        protected: true,
        disabled: false,
        source: String::new(),
    };
    let held = vec![commitment_key("send Bob the report")];
    let reviewer = komo::agent::reviewer::ReflectiveReviewer::new(
        vec![known],
        vec![None, Some(kept)],
        held,
    );
    let plan = reviewer.review("telegram:42", &Some(suggestions));
    assert_eq!(plan.memories.len(), 1);
    assert_eq!(plan.memories[0].content, "has two cats");
    assert_eq!(plan.skills.len(), 1);
    assert_eq!(plan.skills[0].name, "notes");
    assert_eq!(plan.tasks.len(), 1);
    assert_eq!(plan.tasks[0].title, "call Ann");

    let written = komo::agent::reviewer::ReflectiveReviewer::outcome(&plan, &vec![true]);
    assert_eq!(written.memories_written, vec![plan.memories[0].id.clone()]);
    assert_eq!(written.skills_written, vec!["notes".to_string()]);
    assert_eq!(written.tasks_captured, vec![plan.tasks[0].id.clone()]);
    let refused = komo::agent::reviewer::ReflectiveReviewer::outcome(&plan, &vec![false]);
    assert!(refused.skills_written.is_empty());
}

#[test]
fn a_reply_without_suggestions_writes_nothing() {
    let reviewer = komo::agent::reviewer::ReflectiveReviewer::new(vec![], vec![], vec![]);
    let plan = reviewer.review("telegram:42", &None);
    assert!(plan.memories.is_empty() && plan.skills.is_empty() && plan.tasks.is_empty());
    let written = komo::agent::reviewer::ReflectiveReviewer::outcome(&plan, &vec![]);
    assert!(written.is_empty());
}

#[test]
fn the_review_is_asked_in_a_session_of_its_own() {
    let asked = komo::agent::reviewer::review_session(&session("telegram:42"), 7);
    assert_eq!(asked.id, "review-telegram:42");
    assert_eq!(asked.created_at, 7);
    assert_eq!(asked.messages.len(), 1);
    assert_eq!(asked.messages[0].content, review_prompt(&session("telegram:42")));
}

#[test]
fn same_commitment_in_different_sessions_is_not_deduped() {
    let suggestions = || {
        Some(komo::agent::reviewer::ReviewSuggestions {
            memories: vec![],
            skills: vec![],
            commitments: vec![commitment("send Bob the report")],
        })
    };
    let mut tasks: Vec<komo::domain::task::Task> = vec![];
    for id in ["telegram:1", "telegram:2"] {
        // What the store holds for this very session.
        let held: Vec<String> = tasks
            .iter()
            .filter(|t| t.source == id)
            .map(|t| t.source_message_id.clone())
            .collect();
        let reviewer = komo::agent::reviewer::ReflectiveReviewer::new(vec![], vec![], held);
        tasks.extend(reviewer.review(id, &suggestions()).tasks);
    }
    assert_eq!(tasks.len(), 2);
}

#[test]
fn a_second_review_adds_nothing() {
    let suggestions = || {
        Some(komo::agent::reviewer::ReviewSuggestions {
            memories: vec![memory("fact", "has two cats"), memory("fact", "Has two  CATS")],
            skills: vec![],
            commitments: vec![commitment("call Ann"), commitment("call  ann")],
        })
    };
    let first = komo::agent::reviewer::ReflectiveReviewer::new(vec![], vec![], vec![]);
    let plan = first.review("telegram:42", &suggestions());
    assert_eq!(plan.memories.len(), 1);
    assert_eq!(plan.memories[0].created_at, plan.memories[0].updated_at);
    assert!(plan.memories[0].id.starts_with("mem-"));
    assert_eq!(plan.tasks.len(), 1);
    assert!(plan.tasks[0].id.starts_with("task-"));
    let keys = plan.tasks.iter().map(|t| t.source_message_id.clone()).collect();
    let second = komo::agent::reviewer::ReflectiveReviewer::new(plan.memories, vec![], keys);
    let again = second.review("telegram:42", &suggestions());
    assert!(again.memories.is_empty());
    assert!(again.tasks.is_empty());
}
