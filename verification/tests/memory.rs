use komo::domain::memory::{
    parse_memory_confidence, parse_memory_kind, parse_memory_status, pinned, Memory,
    MemoryConfidence, MemoryContext, MemoryKind, MemoryScope, MemoryStatus, DEFAULT_IMPORTANCE,
};

#[test]
fn parse_kind_accepts_legacy_and_new() {
    assert_eq!(parse_memory_kind("user"), MemoryKind::Profile);
    assert_eq!(parse_memory_kind("preference"), MemoryKind::Preference);
    assert_eq!(parse_memory_kind("decision"), MemoryKind::Decision);
    assert_eq!(parse_memory_kind("nonsense"), MemoryKind::Fact);
}

#[test]
fn scope_roundtrips_through_parts() {
    let scopes = [
        MemoryScope::Global,
        MemoryScope::Project("shion".into()),
        MemoryScope::Channel {
            platform: "telegram".into(),
            chat_id: "42".into(),
        },
        MemoryScope::Session("feishu:oc_x".into()),
    ];
    for scope in scopes {
        let rebuilt = MemoryScope::from_parts(&scope.type_str(), &scope.key());
        assert_eq!(rebuilt, scope);
    }
}

#[test]
fn channel_scope_with_malformed_key_degrades_to_global() {
    assert_eq!(
        MemoryScope::from_parts("channel", "no-colon"),
        MemoryScope::Global
    );
}

#[test]
fn context_from_chat_session_allows_global_channel_session() {
    let ctx = MemoryContext::from_session("telegram:42");
    assert!(ctx.allows(&MemoryScope::Global));
    assert!(ctx.allows(&MemoryScope::Channel {
        platform: "telegram".into(),
        chat_id: "42".into()
    }));
    assert!(ctx.allows(&MemoryScope::Session("telegram:42".into())));
    // A different channel is not allowed.
    assert!(!ctx.allows(&MemoryScope::Channel {
        platform: "feishu".into(),
        chat_id: "oc_x".into()
    }));
    assert_eq!(
        ctx.write_scope(),
        MemoryScope::Channel {
            platform: "telegram".into(),
            chat_id: "42".into()
        }
    );
}

#[test]
fn cli_session_context_writes_global() {
    let ctx = MemoryContext::from_session("0192-uuid");
    assert_eq!(ctx.write_scope(), MemoryScope::Global);
}

fn pinnable_memory() -> Memory {
    let mut m = Memory::new(MemoryKind::Preference, "prefers concise answers");
    m.pinned = true;
    m.confidence = MemoryConfidence::UserWritten;
    m
}

#[test]
fn is_pinnable_requires_pinned_active_confident_identity_kind() {
    let ctx = MemoryContext::from_session("cli");
    let now = 1_000;
    assert!(pinnable_memory().is_pinnable(&ctx, now));

    let mut not_pinned = pinnable_memory();
    not_pinned.pinned = false;
    assert!(!not_pinned.is_pinnable(&ctx, now));

    let mut low_conf = pinnable_memory();
    low_conf.confidence = MemoryConfidence::Extracted;
    assert!(!low_conf.is_pinnable(&ctx, now));

    let mut wrong_kind = pinnable_memory();
    wrong_kind.kind = MemoryKind::Reference;
    assert!(!wrong_kind.is_pinnable(&ctx, now));

    let mut expired = pinnable_memory();
    expired.expires_at = Some(now - 1);
    assert!(!expired.is_pinnable(&ctx, now));
}

#[test]
fn pinnable_excludes_out_of_scope() {
    let ctx = MemoryContext::from_session("telegram:42");
    let mut other_channel = pinnable_memory();
    other_channel.scope = MemoryScope::Channel {
        platform: "feishu".into(),
        chat_id: "oc_x".into(),
    };
    assert!(!other_channel.is_pinnable(&ctx, 1_000));
}

#[test]
fn memory_words_parse_back() {
    for k in [
        MemoryKind::Profile,
        MemoryKind::Preference,
        MemoryKind::Feedback,
        MemoryKind::Project,
        MemoryKind::Person,
        MemoryKind::Fact,
        MemoryKind::Decision,
        MemoryKind::Reference,
    ] {
        assert_eq!(parse_memory_kind(k.as_str()), k);
    }
    for s in [
        MemoryStatus::Candidate,
        MemoryStatus::Active,
        MemoryStatus::Archived,
        MemoryStatus::Rejected,
    ] {
        assert_eq!(parse_memory_status(s.as_str()), s);
    }
    for c in [
        MemoryConfidence::Extracted,
        MemoryConfidence::Inferred,
        MemoryConfidence::Confirmed,
        MemoryConfidence::UserWritten,
    ] {
        assert_eq!(parse_memory_confidence(c.as_str()), c);
    }
}

#[test]
fn expiry_is_inclusive_of_the_deadline() {
    let mut m = pinnable_memory();
    assert!(!m.is_expired(i64::MAX));
    m.expires_at = Some(10);
    assert!(!m.is_expired(9));
    assert!(m.is_expired(10));
}

#[test]
fn a_fresh_memory_has_default_importance() {
    let m = Memory::at(MemoryKind::Fact, "tea at five", 77, 77_000_000_001);
    assert_eq!(m.importance, DEFAULT_IMPORTANCE);
    assert_eq!(m.content, "tea at five");
    assert_eq!(m.created_at, 77);
    assert_eq!(m.updated_at, 77);
    assert!(!m.pinned);
    assert_eq!(m.status, MemoryStatus::Active);
    assert_eq!(m.scope, MemoryScope::Global);
}

#[test]
fn pinned_memories_come_most_important_first_then_newest() {
    let ctx = MemoryContext::from_session("cli");
    let mut low = pinnable_memory();
    low.content = "low".into();
    low.importance = 10;
    let mut old = pinnable_memory();
    old.content = "old".into();
    old.importance = 80;
    old.updated_at = 1;
    let mut new = pinnable_memory();
    new.content = "new".into();
    new.importance = 80;
    new.updated_at = 2;
    let mut out = pinnable_memory();
    out.pinned = false;
    let got: Vec<String> = pinned(&vec![low, old, out, new], &ctx, 1_000)
        .into_iter()
        .map(|m| m.content)
        .collect();
    assert_eq!(got, vec!["new", "old", "low"]);
}

#[test]
fn a_session_never_sees_another_sessions_memories() {
    let ctx = MemoryContext::from_session("telegram:42");
    assert!(!ctx.allows(&MemoryScope::Session("telegram:43".into())));
    assert!(ctx.allows(&ctx.write_scope()));
}
