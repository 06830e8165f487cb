use komo::agent::system_prompt::{
    cap, context_files, join, render_pinned_memory_block, render_recalled_memory_block, Sources,
    SystemPromptBuilder, PINNED_CLOSE, PINNED_MEMORY_BUDGET, PINNED_OPEN, RECALLED_MEMORY_BUDGET,
    RECALL_CLOSE, RECALL_OPEN,
};
use komo::config::provider::Provider;
use komo::config::resolved::{
    ModelConfig, DEFAULT_LLM_TIMEOUT_SECS, DEFAULT_MAX_HISTORY_MESSAGES,
    DEFAULT_MAX_TOOL_RESULT_BYTES, DEFAULT_MAX_TURNS,
};
use komo::domain::memory::{Memory, MemoryConfidence, MemoryKind, MemoryScope};

fn pinned(content: &str) -> Memory {
    let mut m = Memory::new(MemoryKind::Preference, content);
    m.pinned = true;
    m.confidence = MemoryConfidence::UserWritten;
    m
}

fn recalled(content: &str) -> Memory {
    Memory::new(MemoryKind::Fact, content)
}

#[test]
fn empty_recall_renders_nothing() {
    assert!(render_recalled_memory_block(&vec![]).is_none());
}

#[test]
fn recall_block_has_markers_caveat_and_tagged_lines() {
    let block = render_recalled_memory_block(&vec![recalled("shion uses a DDD layout")]).unwrap();
    assert!(block.starts_with(RECALL_OPEN));
    assert!(block.trim_end().ends_with(RECALL_CLOSE));
    assert!(block.contains("untrusted background facts"));
    assert!(block.contains("- [fact/inferred/global] shion uses a DDD layout"));
}

#[test]
fn recall_block_tags_source_when_present() {
    let mut m = recalled("durable tasks live in kanban.db");
    m.source = "cli-session-1".into();
    let block = render_recalled_memory_block(&vec![m]).unwrap();
    assert!(block.contains("/source:cli-session-1]"));
}

#[test]
fn recall_block_respects_budget_whole_lines_only() {
    let big: Vec<Memory> = (0..200)
        .map(|i| recalled(&format!("recalled fact number {i} stated in a full sentence")))
        .collect();
    let block = render_recalled_memory_block(&big).unwrap();
    let bullets: Vec<&str> = block.lines().filter(|l| l.starts_with("- [")).collect();
    let bullet_bytes: usize = bullets.iter().map(|l| l.len() + 1).sum();
    assert!(bullet_bytes <= RECALLED_MEMORY_BUDGET);
    assert!(!bullets.is_empty() && bullets.len() < 200);
    for line in &bullets {
        assert!(line.contains("recalled fact number"));
    }
}

#[test]
fn empty_pinned_renders_nothing() {
    assert!(render_pinned_memory_block(&vec![]).is_none());
}

#[test]
fn pinned_block_has_markers_caveat_and_tagged_lines() {
    let block = render_pinned_memory_block(&vec![pinned("prefers concise answers")]).unwrap();
    assert!(block.starts_with(PINNED_OPEN));
    assert!(block.trim_end().ends_with(PINNED_CLOSE));
    assert!(block.contains("untrusted background facts"));
    assert!(block.contains("- [preference/user_written/global] prefers concise answers"));
}

#[test]
fn pinned_block_respects_budget_whole_lines_only() {
    // Many long memories; only as many as fit the budget are included, and
    // no line is ever truncated mid-content.
    let big: Vec<Memory> = (0..50)
        .map(|i| pinned(&format!("preference number {i} stated in full sentence form")))
        .collect();
    let block = render_pinned_memory_block(&big).unwrap();
    // The budget governs the bullet lines (header/markers are fixed overhead).
    let bullets: Vec<&str> = block.lines().filter(|l| l.starts_with("- [")).collect();
    let bullet_bytes: usize = bullets.iter().map(|l| l.len() + 1).sum();
    assert!(bullet_bytes <= PINNED_MEMORY_BUDGET);
    // Not all 50 fit, but at least one did, and each is a complete line.
    assert!(!bullets.is_empty() && bullets.len() < 50);
    for line in &bullets {
        assert!(line.contains("preference number"));
    }
}

#[test]
fn pinned_block_renders_scope_tag() {
    let mut m = pinned("team uses feishu");
    m.scope = MemoryScope::Channel {
        platform: "feishu".into(),
        chat_id: "oc_x".into(),
    };
    let block = render_pinned_memory_block(&vec![m]).unwrap();
    assert!(block.contains("/channel] team uses feishu"));
}

fn config() -> ModelConfig {
    ModelConfig {
        provider: Provider::DeepSeek,
        model: "deepseek-chat".into(),
        api_key: "sk-test".into(),
        base_url: None,
        aux_model: None,
        max_turns: DEFAULT_MAX_TURNS,
        max_tool_result_bytes: DEFAULT_MAX_TOOL_RESULT_BYTES,
        max_history_messages: DEFAULT_MAX_HISTORY_MESSAGES,
        llm_timeout_secs: DEFAULT_LLM_TIMEOUT_SECS,
    }
}

fn no_files() -> Sources {
    Sources {
        soul: None,
        files: vec![None, None],
    }
}

fn built(mut b: SystemPromptBuilder, sources: &Sources) -> String {
    b.build_on(vec![None, None, None], sources, "2026-07-18")
}

#[test]
fn minimal_prompt_has_identity_and_volatile_only() {
    let p = built(SystemPromptBuilder::new(&config()), &no_files());
    assert!(p.contains("You are Shion"));
    assert!(p.contains("Model: deepseek-chat"));
    assert!(p.contains("Provider: deepseek"));
    // No tools → no tool-aware guidance.
    assert!(!p.contains("reminder"));
    assert!(!p.contains("tmux ls"));
}

#[test]
fn tool_guidance_is_gated_on_loaded_tools() {
    let b = SystemPromptBuilder::new(&config()).tools(vec![
        "reminder".into(),
        "memory".into(),
        "time".into(),
    ]);
    let p = built(b, &no_files());
    assert!(p.contains("schedule reminders"));
    assert!(p.contains("tmux ls")); // state guidance, via `memory`
    assert!(p.contains("`time` tool"));
}

#[test]
fn stable_tier_precedes_volatile_tier() {
    let p = built(SystemPromptBuilder::new(&config()), &no_files());
    let identity_at = p.find("You are Shion").unwrap();
    let date_at = p.find("Today's date is").unwrap();
    assert!(
        identity_at < date_at,
        "stable identity must precede volatile date"
    );
    assert!(p.contains("2026-07-18"));
}

#[test]
fn skills_note_lands_in_stable_tier() {
    let b = SystemPromptBuilder::new(&config())
        .skills_note(Some("You have skills: foo, bar".into()));
    let p = built(b, &no_files());
    let note_at = p.find("You have skills").unwrap();
    let date_at = p.find("Today's date is").unwrap();
    assert!(
        note_at < date_at,
        "skills note belongs to the stable prefix"
    );
}

fn with_agents_file(text: &str) -> Sources {
    let files = context_files()
        .into_iter()
        .map(|name| {
            if name == "AGENTS.md" {
                Some(text.to_string())
            } else {
                None
            }
        })
        .collect();
    Sources { soul: None, files }
}

#[test]
fn context_file_is_included_and_labeled() {
    let b = SystemPromptBuilder::new(&config()).workspace_root(Some("/root".into()));
    let p = built(b, &with_agents_file("Be terse. Prefer bullet points."));
    assert!(p.contains("project instructions from `AGENTS.md`"));
    assert!(p.contains("Prefer bullet points."));
}

#[test]
fn persona_override_replaces_builtin_identity() {
    let sources = Sources {
        soul: Some("You are Nyx, a terse oracle.".into()),
        files: vec![None, None],
    };
    let p = built(SystemPromptBuilder::new(&config()), &sources);
    assert!(p.contains("You are Nyx, a terse oracle."));
    assert!(!p.contains("You are Shion"));
}

#[test]
fn cached_prompt_picks_up_a_newly_created_context_file() {
    let mut builder = SystemPromptBuilder::new(&config()).workspace_root(Some("/root".into()));
    // First build: no context file, so none is mentioned (this seeds the cache).
    let before = vec![None, None, None];
    assert!(builder.needs_sources(&before));
    let first = builder.build_on(before.clone(), &no_files(), "2026-07-18");
    assert!(!first.contains("project instructions"));
    assert!(!builder.needs_sources(&before));
    // A file appears: its fingerprint busts the cache.
    let after = vec![None, Some(5), None];
    assert!(builder.needs_sources(&after));
    let second = builder.build_on(after, &with_agents_file("Be terse."), "2026-07-18");
    assert!(second.contains("project instructions from `AGENTS.md`"));
    assert!(second.contains("Be terse."));
}

#[test]
fn long_context_is_cut_and_marked() {
    assert_eq!(cap("abc", 3), "abc");
    assert_eq!(cap("abcd", 3), "abc\n\n[... truncated]");
}

#[test]
fn blank_parts_are_not_joined() {
    assert_eq!(join(vec!["a".into(), "  ".into(), "b".into()]), "a\n\nb");
}

#[test]
fn other_instruction_files_can_be_named() {
    let config = ModelConfig {
        provider: Provider::DeepSeek,
        model: "m".to_string(),
        api_key: "k".to_string(),
        base_url: None,
        aux_model: None,
        max_turns: DEFAULT_MAX_TURNS,
        max_tool_result_bytes: DEFAULT_MAX_TOOL_RESULT_BYTES,
        max_history_messages: DEFAULT_MAX_HISTORY_MESSAGES,
        llm_timeout_secs: DEFAULT_LLM_TIMEOUT_SECS,
    };
    let names = vec!["FIRST.md".to_string(), "SECOND.md".to_string(), "THIRD.md".to_string()];
    let builder = SystemPromptBuilder::new(&config)
        .workspace_root(Some("/work".to_string()))
        .instruction_files(names);
    let said = builder.context(&vec![
        None,
        Some("   ".to_string()),
        Some("Use tabs.".to_string()),
    ]);
    assert!(said.contains("THIRD.md"));
    assert!(said.contains("Use tabs."));
    assert!(!said.contains("SECOND.md"));
    assert_eq!(builder.context(&vec![None, None, None]), "");
}

#[test]
fn the_day_reads_in_full() {
    // Noon of a Saturday in UTC.
    assert_eq!(komo::agent::schedule::day_at(1_784_376_000, 0), "Saturday, July 18, 2026");
    assert_eq!(komo::agent::schedule::day_at(1_784_376_000, 43_200), "Sunday, July 19, 2026");
    assert_eq!(komo::agent::schedule::day_at(0, 0), "Thursday, January 1, 1970");
}

#[test]
fn the_prompt_tells_the_day_of_the_machine() {
    let now = 1_784_376_000;
    let day = komo::agent::schedule::local_day(now);
    assert!(day.ends_with(", 2026"));
    let mut b = SystemPromptBuilder::new(&config());
    let footer = format!(
        "Today's date is {day}.\nModel: deepseek-chat\nProvider: deepseek"
    );
    assert_eq!(b.volatile(now), footer);
    assert!(b.build(vec![None], &no_files(), now).ends_with(&footer));
}

#[test]
fn the_fingerprint_covers_the_persona_and_the_instruction_files() {
    let b = SystemPromptBuilder::new(&config());
    assert_eq!(b.watched_files("/h"), vec!["/h/SOUL.md".to_string()]);
    let b = b.workspace_root(Some("/w".into()));
    assert_eq!(
        b.watched_files("/h"),
        vec![
            "/h/SOUL.md".to_string(),
            "/w/AGENTS.md".to_string(),
            "/w/.cursorrules".to_string()
        ]
    );
}
