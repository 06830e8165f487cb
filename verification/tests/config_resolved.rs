use komo::config::provider::Provider;
use komo::config::report::{IssueSeverity, Origin};
use komo::config::resolve::{
    build_policy, build_rule, ha_tool, resolve_dream_schedule, resolve_feishu, resolve_wechat,
    skills_dirs,
};
use komo::config::resolved::{
    mask_secret, ChannelState, ModelConfig, DEFAULT_DREAM_SCHEDULE, DEFAULT_HASS_URL,
    DEFAULT_LLM_TIMEOUT_SECS, DEFAULT_MAINTENANCE_SCHEDULE, DEFAULT_MAX_HISTORY_MESSAGES,
    DEFAULT_MAX_TOOL_RESULT_BYTES, DEFAULT_MAX_TURNS, DEFAULT_REVIEW_INTERVAL,
};
use komo::config::snapshot::ConfigSnapshot;
use komo::config::sources::{
    ApiFileConfig, ChannelsFileConfig, ConfigSources, FeishuFileConfig, FileConfig,
    HomeAssistantChannelFileConfig, KomoEnv, PolicyFileConfig, PolicyRuleFileConfig, Secrets,
    TelegramFileConfig, WeChatFileConfig,
};
use komo::domain::policy::Verdict;

fn sources() -> ConfigSources {
    ConfigSources {
        home: "/tmp/komo-test-home".to_string(),
        file: FileConfig::default(),
        env: KomoEnv::default(),
        secrets: Secrets::default(),
        env_error: None,
    }
}

fn with_deepseek_key(mut s: ConfigSources) -> ConfigSources {
    s.secrets.deepseek_api_key = Some("sk-test".into());
    s
}

#[test]
fn defaults_resolve_without_file_or_env() {
    let snap = ConfigSnapshot::from_sources(with_deepseek_key(sources()));
    let rt = &snap.runtime;
    assert_eq!(rt.model.provider, Provider::DeepSeek);
    assert_eq!(rt.model.model, "deepseek-chat");
    assert_eq!(rt.model.max_turns, DEFAULT_MAX_TURNS);
    assert_eq!(rt.maintenance_schedule, DEFAULT_MAINTENANCE_SCHEDULE);
    assert_eq!(rt.briefing_schedule, None, "briefing stays opt-in");
    assert_eq!(
        rt.dream_schedule.as_deref(),
        Some(DEFAULT_DREAM_SCHEDULE),
        "dreaming is on by default"
    );
    assert_eq!(rt.review_interval, DEFAULT_REVIEW_INTERVAL);
    assert_eq!(snap.report.provider_origin, Origin::Default);
    assert_eq!(snap.report.model_origin, Origin::Default);
    assert!(snap.report.fatal().is_none());
    assert!(snap.validate_gateway().is_ok());
}

#[test]
fn precedence_is_default_then_file_then_env() {
    let mut s = sources();
    s.secrets.openai_api_key = Some("sk-env".into());
    s.file.provider = Some("deepseek".into());
    s.file.model = Some("file-model".into());
    s.file.max_turns = Some(7);
    s.env.provider = Some("openai".into());
    s.env.model = Some("env-model".into());
    let snap = ConfigSnapshot::from_sources(s);
    assert_eq!(snap.runtime.model.provider, Provider::OpenAi);
    assert_eq!(snap.runtime.model.model, "env-model");
    assert_eq!(snap.runtime.model.max_turns, 7, "file wins over default");
    assert_eq!(snap.report.provider_origin, Origin::Env);
    assert_eq!(snap.report.model_origin, Origin::Env);
}

#[test]
fn file_model_reports_file_origin() {
    let mut s = with_deepseek_key(sources());
    s.file.model = Some("deepseek-reasoner".into());
    let snap = ConfigSnapshot::from_sources(s);
    assert_eq!(snap.report.model_origin, Origin::File);
    assert_eq!(snap.report.provider_origin, Origin::Default);
}

#[test]
fn missing_api_key_warns_but_does_not_block_startup() {
    let snap = ConfigSnapshot::from_sources(sources());
    assert_eq!(snap.runtime.model.api_key, "");
    // Degraded, not dead: a fresh install must boot (build_llm degrades to
    // an every-call-errors client), so the issue is a warning.
    assert!(snap.report.fatal().is_none());
    let issue = snap
        .report
        .issues
        .iter()
        .find(|i| i.path == "model.api_key")
        .expect("missing key is reported");
    assert_eq!(issue.severity, IssueSeverity::Warning);
    assert!(issue.message.contains("DEEPSEEK_API_KEY"));
    assert!(snap.validate_gateway().is_ok());
    assert!(snap.validate_agent().is_ok());
}

#[test]
fn codex_needs_no_api_key() {
    let mut s = sources();
    s.file.provider = Some("codex".into());
    let snap = ConfigSnapshot::from_sources(s);
    assert_eq!(snap.runtime.model.provider, Provider::Codex);
    assert_eq!(snap.runtime.model.model, "gpt-5.5");
    assert!(
        snap.report.fatal().is_none(),
        "codex auth is OAuth, not an env key"
    );
    assert!(!snap.report.key_present(Provider::Codex));
}

#[test]
fn invalid_provider_is_fatal_and_falls_back() {
    let mut s = sources();
    s.file.provider = Some("nonsense".into());
    let snap = ConfigSnapshot::from_sources(s);
    let fatal = snap.report.fatal().expect("bad provider is fatal");
    assert_eq!(fatal.path, "model.provider");
    assert_eq!(
        snap.runtime.model.provider,
        Provider::DeepSeek,
        "resolution continues on the default provider"
    );
    assert!(snap.validate_agent().is_err());
}

#[test]
fn env_error_is_fatal_for_startup_not_diagnostics() {
    let mut s = with_deepseek_key(sources());
    s.env_error = Some("invalid KOMO_* environment variable: bad".into());
    let snap = ConfigSnapshot::from_sources(s);
    let fatal = snap.report.fatal().expect("env error is fatal");
    assert_eq!(fatal.path, "env");
    assert!(snap.validate_agent().is_err());
    // Diagnostics still get a fully-resolved snapshot.
    assert_eq!(snap.runtime.model.provider, Provider::DeepSeek);
}

#[test]
fn disabled_channel_missing_secret_is_not_an_issue() {
    let mut s = with_deepseek_key(sources());
    s.file.channels = Some(ChannelsFileConfig {
        telegram: Some(TelegramFileConfig {
            enabled: false,
            ..Default::default()
        }),
        ..Default::default()
    });
    let snap = ConfigSnapshot::from_sources(s);
    assert!(matches!(snap.runtime.telegram, ChannelState::Disabled));
    assert!(snap.report.fatal().is_none());
}

#[test]
fn enabled_channel_missing_secret_is_one_fatal_issue() {
    let mut s = with_deepseek_key(sources());
    s.file.channels = Some(ChannelsFileConfig {
        telegram: Some(TelegramFileConfig {
            enabled: true,
            ..Default::default()
        }),
        ..Default::default()
    });
    let snap = ConfigSnapshot::from_sources(s);
    let ChannelState::Misconfigured(msg) = &snap.runtime.telegram else {
        panic!("enabled without token must be misconfigured");
    };
    assert!(msg.contains("TELEGRAM_BOT_TOKEN"));
    assert_eq!(
        snap.report
            .issues
            .iter()
            .filter(|i| i.path == "channels.telegram")
            .count(),
        1
    );
    // The gateway fails fast; a chat turn doesn't need the channel.
    assert!(snap.validate_gateway().is_err());
    assert!(snap.validate_agent().is_ok());
}

#[test]
fn homeassistant_without_token_warns_but_does_not_block_startup() {
    let mut s = with_deepseek_key(sources());
    s.file.channels = Some(ChannelsFileConfig {
        homeassistant: Some(HomeAssistantChannelFileConfig {
            enabled: true,
            ..Default::default()
        }),
        ..Default::default()
    });
    let snap = ConfigSnapshot::from_sources(s);
    let ChannelState::Misconfigured(msg) = &snap.runtime.homeassistant_channel else {
        panic!("enabled without HASS_TOKEN must be misconfigured");
    };
    assert!(msg.contains("HASS_TOKEN"));
    // Degraded, not dead: the gateway boots with the HA channel offline.
    let issue = snap
        .report
        .issues
        .iter()
        .find(|i| i.path == "channels.homeassistant")
        .expect("missing token is reported");
    assert_eq!(issue.severity, IssueSeverity::Warning);
    assert!(snap.report.fatal().is_none());
    assert!(snap.validate_gateway().is_ok());
}

#[test]
fn api_defaults_to_loopback_ephemeral_with_auto_key() {
    let snap = ConfigSnapshot::from_sources(with_deepseek_key(sources()));
    let api = snap.runtime.api.ready().expect("api is always on");
    assert_eq!(api.bind, "127.0.0.1");
    assert_eq!(api.port, 0, "ephemeral port by default");
    assert!(!api.server_key.is_empty(), "auto-generated key");
}

#[test]
fn external_api_requires_a_key() {
    let mut s = with_deepseek_key(sources());
    s.file.channels = Some(ChannelsFileConfig {
        api: Some(ApiFileConfig {
            enabled: true,
            ..Default::default()
        }),
        ..Default::default()
    });
    let snap = ConfigSnapshot::from_sources(s);
    assert!(matches!(snap.runtime.api, ChannelState::Misconfigured(_)));
    assert!(snap.validate_gateway().is_err());

    let mut s = with_deepseek_key(sources());
    s.secrets.api_server_key = Some("k".into());
    s.file.channels = Some(ChannelsFileConfig {
        api: Some(ApiFileConfig {
            enabled: true,
            ..Default::default()
        }),
        ..Default::default()
    });
    let snap = ConfigSnapshot::from_sources(s);
    let api = snap
        .runtime
        .api
        .ready()
        .expect("keyed external api is ready");
    assert_eq!(api.port, 8765, "stable default port when external");
    assert_eq!(api.server_key, "k");
}

#[test]
fn report_never_contains_secret_values() {
    let mut s = sources();
    s.secrets.deepseek_api_key = Some("sk-super-secret-value".into());
    s.secrets.telegram_bot_token = Some("123:telegram-secret".into());
    s.file.channels = Some(ChannelsFileConfig {
        telegram: Some(TelegramFileConfig {
            enabled: true,
            ..Default::default()
        }),
        ..Default::default()
    });
    let snap = ConfigSnapshot::from_sources(s);
    let dump = format!("{:?}", snap.report);
    assert!(!dump.contains("sk-super-secret-value"));
    assert!(!dump.contains("telegram-secret"));
    assert!(snap.report.key_present(Provider::DeepSeek));
}

#[test]
fn resolved_dream_schedule_defaults_on_and_can_be_disabled() {
    // Unset → on by default at the nightly slot.
    assert_eq!(
        resolve_dream_schedule(None).as_deref(),
        Some(DEFAULT_DREAM_SCHEDULE)
    );
    // A custom cron is taken verbatim.
    assert_eq!(
        resolve_dream_schedule(Some("0 4 * * *".into())).as_deref(),
        Some("0 4 * * *")
    );
    // Empty or off-like values disable it.
    for off in ["", "  ", "off", "OFF", "none", "disabled"] {
        assert_eq!(
            resolve_dream_schedule(Some(off.into())),
            None,
            "`{off}` should disable dreaming"
        );
    }
}

#[test]
fn skills_path_splits_on_colons() {
    let mut s = with_deepseek_key(sources());
    s.env.skills_path = Some("/a/skills:/b/skills:".into());
    let snap = ConfigSnapshot::from_sources(s);
    assert_eq!(
        snap.runtime.skills_path,
        vec!["/a/skills".to_string(), "/b/skills".to_string()]
    );
}

#[test]
fn db_urls_derive_from_home() {
    let snap = ConfigSnapshot::from_sources(with_deepseek_key(sources()));
    assert_eq!(snap.runtime.db_url, "turso:/tmp/komo-test-home/state.db");
    assert_eq!(
        snap.runtime.kanban_db_url,
        "turso:/tmp/komo-test-home/kanban.db"
    );
    assert_eq!(
        snap.runtime.memory_db_url,
        "turso:/tmp/komo-test-home/memory.db"
    );
}

#[test]
fn resolved_debug_output_masks_api_key() {
    let cfg = ModelConfig {
        provider: Provider::DeepSeek,
        model: "deepseek-chat".into(),
        api_key: "sk-abcdefghijklmnopqr".into(),
        base_url: None,
        aux_model: None,
        max_turns: DEFAULT_MAX_TURNS,
        max_tool_result_bytes: DEFAULT_MAX_TOOL_RESULT_BYTES,
        max_history_messages: DEFAULT_MAX_HISTORY_MESSAGES,
        llm_timeout_secs: DEFAULT_LLM_TIMEOUT_SECS,
    };
    let s = cfg.debug_text();
    assert!(
        !s.contains("sk-abcdefghijklmnopqr"),
        "full key must not appear in Debug output"
    );
    assert!(s.contains("sk-"), "prefix should be visible");
}

fn file_rule(category: &str, matcher: &str, value: &str, effect: &str) -> PolicyRuleFileConfig {
    PolicyRuleFileConfig {
        category: category.into(),
        matcher: matcher.into(),
        value: value.into(),
        effect: effect.into(),
        ..Default::default()
    }
}

#[test]
fn invalid_policy_rules_are_reported_and_left_out() {
    let cfg = PolicyFileConfig {
        default_normal: Some("deny".into()),
        rule: vec![
            file_rule("shell", "prefix", "cargo ", "allow"),
            file_rule("shell", "prefix", "", "allow"),
            file_rule("disk", "prefix", "x", "allow"),
        ],
    };
    let (report, issues) = build_policy(Some(cfg));
    assert!(report.configured);
    assert_eq!(report.invalid, vec![1, 2]);
    assert_eq!(report.policy.rules().len(), 1);
    assert_eq!(report.policy.default_normal(), Verdict::Deny);
    assert_eq!(issues.len(), 2);
    assert_eq!(issues[0].path, "policy.rule");
    assert_eq!(issues[0].message, "[[policy.rule]] #1 is invalid, ignoring it");
    assert_eq!(issues[0].severity, IssueSeverity::Warning);
}

#[test]
fn no_policy_table_is_the_empty_policy() {
    let (report, issues) = build_policy(None);
    assert!(!report.configured);
    assert!(report.policy.rules().is_empty());
    assert_eq!(report.policy.default_normal(), Verdict::Ask);
    assert!(issues.is_empty());
}

#[test]
fn rules_keep_their_options() {
    let mut r = file_rule("file", "exact", "/x", "deny");
    r.access = Some("write".into());
    r.channels = Some(Vec::new());
    r.unattended = Some(true);
    let rule = build_rule(r).unwrap();
    assert!(rule.channels.is_none(), "an empty list is every channel");
    assert!(rule.unattended);
    assert!(!rule.include_dangerous);
    let mut r = file_rule("file", "exact", "/x", "deny");
    r.access = Some("append".into());
    assert!(build_rule(r).is_none());
}

#[test]
fn home_assistant_url_loses_its_trailing_slash() {
    let mut s = Secrets::default();
    assert!(ha_tool(&s).is_none());
    s.hass_token = Some("t".into());
    assert_eq!(ha_tool(&s).unwrap().base_url, DEFAULT_HASS_URL);
    s.hass_url = Some("http://ha.local:8123//".into());
    let tool = ha_tool(&s).unwrap();
    assert_eq!(tool.base_url, "http://ha.local:8123");
    assert_eq!(tool.token, "t");
}

#[test]
fn feishu_needs_both_credentials() {
    let on = || {
        Some(FeishuFileConfig {
            enabled: true,
            ..Default::default()
        })
    };
    let mut secrets = Secrets::default();
    let mut issues = Vec::new();
    let state = resolve_feishu(on(), &secrets, &mut issues);
    assert!(matches!(state, ChannelState::Misconfigured(m) if m.contains("FEISHU_APP_ID")));
    secrets.feishu_app_id = Some("id".into());
    let state = resolve_feishu(on(), &secrets, &mut issues);
    assert!(matches!(state, ChannelState::Misconfigured(m) if m.contains("FEISHU_APP_SECRET")));
    secrets.feishu_app_secret = Some("secret".into());
    let state = resolve_feishu(on(), &secrets, &mut issues);
    let ready = state.ready().unwrap();
    assert_eq!(ready.app_id, "id");
    assert!(ready.require_mention);
    assert_eq!(issues.len(), 2);
}

#[test]
fn wechat_needs_no_credentials() {
    assert!(matches!(resolve_wechat(None), ChannelState::Disabled));
    let on = WeChatFileConfig {
        enabled: true,
        allow_from: vec!["u".into()],
        home_chat: Some("h".into()),
    };
    let state = resolve_wechat(Some(on));
    assert_eq!(state.ready().unwrap().allow_from, vec!["u"]);
}

#[test]
fn masks_keep_the_ends_of_long_keys_only() {
    assert_eq!(mask_secret("short"), "***");
    assert_eq!(mask_secret("1234567"), "***");
    assert_eq!(mask_secret("sk-abcdefgh"), "sk-...efgh");
}

#[test]
fn debug_text_shows_every_setting() {
    let cfg = ModelConfig {
        provider: Provider::OpenAi,
        model: "m".into(),
        api_key: String::new(),
        base_url: Some("http://x".into()),
        aux_model: None,
        max_turns: 1,
        max_tool_result_bytes: 2,
        max_history_messages: 3,
        llm_timeout_secs: 4,
    };
    assert_eq!(
        cfg.debug_text(),
        "ModelConfig { provider: OpenAi, model: \"m\", api_key: \"***\", \
         base_url: Some(\"http://x\"), aux_model: None, max_turns: 1, \
         max_tool_result_bytes: 2, max_history_messages: 3, llm_timeout_secs: 4 }"
    );
}

#[test]
fn the_auxiliary_variant_falls_back_to_the_main_model() {
    let mut s = with_deepseek_key(sources());
    s.file.aux_model = Some("small".into());
    let snap = ConfigSnapshot::from_sources(s);
    assert_eq!(snap.runtime.model.aux_variant().model, "small");
    let snap = ConfigSnapshot::from_sources(sources());
    assert_eq!(snap.runtime.model.aux_variant().model, "deepseek-chat");
}

#[test]
fn an_empty_skills_path_names_no_directory() {
    assert!(skills_dirs(&None).is_empty());
    assert_eq!(skills_dirs(&Some("::/x".into())), vec!["/x".to_string()]);
}

#[test]
fn a_review_interval_of_nothing_is_not_kept() {
    let mut s = sources();
    s.env.review_interval = Some(0);
    let snap = ConfigSnapshot::from_sources(s);
    assert!(snap.runtime.review_interval >= 1);
}
