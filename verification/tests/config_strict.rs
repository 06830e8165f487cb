use komo::config::provider::Provider;
use komo::config::resolve::resolve_dream_schedule;
use komo::config::resolved::{
    ModelConfig, DEFAULT_DREAM_SCHEDULE, DEFAULT_LLM_TIMEOUT_SECS, DEFAULT_MAX_HISTORY_MESSAGES,
    DEFAULT_MAX_TOOL_RESULT_BYTES, DEFAULT_MAX_TURNS,
};
use komo::config::sources::{
    ApiFileConfig, FeishuFileConfig, FileConfig, HomeAssistantChannelFileConfig, PolicyFileConfig,
    PolicyRuleFileConfig, Secrets, TelegramFileConfig, WeChatFileConfig,
};
use komo::config::strict::{
    api_config, api_config_with, briefing_schedule, briefing_workdays_only, default_db_url,
    default_kanban_db_url, default_memory_db_url, dream_schedule, feishu_config,
    homeassistant_channel_config, homeassistant_config, maintenance_schedule, policy_config,
    shion_home, telegram_config, wechat_config, ShionEnv,
};
use komo::domain::policy::Verdict;

#[test]
fn config_dream_schedule_defaults_on_and_can_be_disabled() {
    // Unset → on by default at the nightly slot.
    assert_eq!(
        resolve_dream_schedule(None).as_deref(),
        Some(DEFAULT_DREAM_SCHEDULE)
    );
    // A custom cron is taken verbatim.
    assert_eq!(
        resolve_dream_schedule(Some("0 4 * * *".into())).as_deref(),
        Some("0 4 * * *")
    );
    // Empty or off-like values disable it.
    for off in ["", "  ", "off", "OFF", "none", "disabled"] {
        assert_eq!(
            resolve_dream_schedule(Some(off.into())),
            None,
            "`{off}` should disable dreaming"
        );
    }
}

#[test]
fn config_api_keys_maps_provider_and_filters_empty() {
    let keys = Secrets {
        deepseek_api_key: Some("sk-x".into()),
        openai_api_key: Some(String::new()),
        ..Default::default()
    };
    assert_eq!(keys.key(Provider::DeepSeek), Some("sk-x"));
    assert_eq!(keys.key(Provider::OpenAi), None, "empty string = unset");
    assert_eq!(keys.key(Provider::Anthropic), None);
}

#[test]
fn shion_env_normalizes_empty_strings_to_unset() {
    let env = ShionEnv {
        provider: Some("openai".into()),
        model: Some(String::new()),
        ..Default::default()
    }
    .normalized();
    assert_eq!(env.provider.as_deref(), Some("openai"));
    assert_eq!(env.model, None);
}

#[test]
fn config_debug_output_masks_api_key() {
    let cfg = ModelConfig {
        provider: Provider::DeepSeek,
        model: "deepseek-chat".into(),
        api_key: "sk-abcdefghijklmnopqr".into(),
        base_url: None,
        aux_model: None,
        max_turns: DEFAULT_MAX_TURNS,
        max_tool_result_bytes: DEFAULT_MAX_TOOL_RESULT_BYTES,
        max_history_messages: DEFAULT_MAX_HISTORY_MESSAGES,
        llm_timeout_secs: DEFAULT_LLM_TIMEOUT_SECS,
    };
    let s = cfg.debug_text();
    assert!(
        !s.contains("sk-abcdefghijklmnopqr"),
        "full key must not appear in Debug output"
    );
    assert!(s.contains("sk-"), "prefix should be visible");
}

#[test]
fn malformed_overrides_are_an_error_or_dropped() {
    let err = ShionEnv::load(Err("bad".into())).unwrap_err();
    assert_eq!(err, "invalid SHION_* environment variable: bad");
    assert!(ShionEnv::load_lenient(Err("bad".into())).provider.is_none());
    let env = ShionEnv {
        schedule: Some("0 1 * * *".into()),
        ..Default::default()
    };
    let env = ShionEnv::load_lenient(Ok(env));
    assert_eq!(env.schedule.as_deref(), Some("0 1 * * *"));
}

#[test]
fn home_and_databases() {
    assert_eq!(shion_home(&None, "/u"), "/u/.shion");
    assert_eq!(shion_home(&Some("/x".into()), "/u"), "/x");
    assert_eq!(default_db_url("/x"), "turso:/x/shion.db");
    assert_eq!(default_kanban_db_url("/x"), "turso:/x/kanban.db");
    assert_eq!(default_memory_db_url("/x"), "turso:/x/memory.db");
}

#[test]
fn schedules_prefer_the_environment() {
    let file = FileConfig {
        schedule: Some("file".into()),
        briefing_workdays_only: Some(true),
        dream_schedule: Some("off".into()),
        ..Default::default()
    };
    let env = ShionEnv {
        schedule: Some("env".into()),
        ..Default::default()
    };
    assert_eq!(maintenance_schedule(&env, &file), "env");
    assert_eq!(maintenance_schedule(&ShionEnv::default(), &file), "file");
    assert_eq!(
        maintenance_schedule(&ShionEnv::default(), &FileConfig::default()),
        "0 * * * *"
    );
    assert_eq!(briefing_schedule(&env, &file), None);
    assert!(briefing_workdays_only(&env, &file));
    assert!(!briefing_workdays_only(&env, &FileConfig::default()));
    assert_eq!(dream_schedule(&env, &file), None);
}

#[test]
fn channels_that_are_off_resolve_to_nothing() {
    let s = Secrets::default();
    assert!(matches!(telegram_config(&None, &s), Ok(None)));
    assert!(matches!(feishu_config(&Some(FeishuFileConfig::default()), &s), Ok(None)));
    assert!(matches!(wechat_config(&None), Ok(None)));
    assert!(matches!(homeassistant_channel_config(&None, &s), Ok(None)));
    assert!(homeassistant_config(&s).is_none());
}

#[test]
fn enabled_channels_fail_fast_without_credentials() {
    let mut s = Secrets::default();
    let telegram = Some(TelegramFileConfig {
        enabled: true,
        ..Default::default()
    });
    assert_eq!(
        telegram_config(&telegram, &s).err().unwrap(),
        "[channels.telegram] is enabled but TELEGRAM_BOT_TOKEN is not set (put it in ~/.shion/.env)"
    );
    s.telegram_bot_token = Some("t".into());
    assert_eq!(telegram_config(&telegram, &s).ok().unwrap().unwrap().bot_token, "t");

    let feishu = Some(FeishuFileConfig {
        enabled: true,
        ..Default::default()
    });
    assert!(feishu_config(&feishu, &s).err().unwrap().contains("FEISHU_APP_ID"));
    s.feishu_app_id = Some("i".into());
    assert!(feishu_config(&feishu, &s).err().unwrap().contains("FEISHU_APP_SECRET"));

    let ha = Some(HomeAssistantChannelFileConfig {
        enabled: true,
        ..Default::default()
    });
    assert!(homeassistant_channel_config(&ha, &s).err().unwrap().contains("HASS_TOKEN"));
    s.hass_token = Some("h".into());
    let got = homeassistant_channel_config(&ha, &s).ok().unwrap().unwrap();
    assert_eq!(got.cooldown_seconds, 30);
    assert_eq!(got.base_url, "http://homeassistant.local:8123");

    let wechat = Some(WeChatFileConfig {
        enabled: true,
        ..Default::default()
    });
    assert!(wechat_config(&wechat).ok().unwrap().is_some());
}

#[test]
fn the_api_is_always_on() {
    let s = Secrets::default();
    let api = api_config(&None, &s).ok().unwrap();
    assert_eq!(api.bind, "127.0.0.1");
    assert_eq!(api.port, 0);
    assert!(!api.server_key.is_empty());
    assert_eq!(api_config_with(&None, &s, "spare").ok().unwrap().server_key, "spare");
    let external = Some(ApiFileConfig {
        enabled: true,
        ..Default::default()
    });
    assert!(api_config(&external, &s).err().unwrap().contains("API_SERVER_KEY"));
}

#[test]
fn no_policy_asks() {
    let p = policy_config(None);
    assert!(p.rules().is_empty());
    assert_eq!(p.default_normal(), Verdict::Ask);
}

#[test]
fn the_model_resolves_or_says_why_not() {
    let file = FileConfig {
        provider: Some("openai".into()),
        ..Default::default()
    };
    let mut s = Secrets::default();
    assert_eq!(
        ModelConfig::resolve(Ok(ShionEnv::default()), &file, &s).err().unwrap(),
        "OPENAI_API_KEY is not set (required for OpenAi)"
    );
    s.openai_api_key = Some("k".into());
    let m = ModelConfig::from_env(Ok(ShionEnv::default()), &file, &s).ok().unwrap();
    assert_eq!(m.model, "gpt-4o-mini");
    assert_eq!(m.api_key, "k");
    assert_eq!(m.max_turns, DEFAULT_MAX_TURNS);
    let env = ShionEnv {
        provider: Some("codex".into()),
        max_turns: Some(3),
        ..Default::default()
    };
    let m = ModelConfig::resolve(Ok(env), &file, &Secrets::default()).ok().unwrap();
    assert_eq!(m.api_key, "");
    assert_eq!(m.max_turns, 3);
    let env = ShionEnv {
        provider: Some("nope".into()),
        ..Default::default()
    };
    assert!(ModelConfig::resolve(Ok(env), &file, &s).err().unwrap().starts_with("unknown provider"));
    assert!(ModelConfig::resolve(Err("x".into()), &file, &s).is_err());
}

#[test]
fn shion_home_respects_env_override() {
    let dir = "/tmp/shion_config_test_home_override".to_string();
    assert_eq!(shion_home(&Some(dir.clone()), "/home/me"), dir);
}

fn policy_rule(effect: &str) -> PolicyRuleFileConfig {
    PolicyRuleFileConfig {
        category: "shell".into(),
        matcher: "prefix".into(),
        value: "ls".into(),
        effect: effect.into(),
        ..Default::default()
    }
}

#[test]
fn an_invalid_rule_empties_the_whole_policy() {
    let table = |effects: &[&str]| {
        Some(PolicyFileConfig {
            default_normal: Some("allow".into()),
            rule: effects.iter().map(|e| policy_rule(e)).collect(),
        })
    };
    let broken = policy_config(table(&["allow", "permit"]));
    assert!(broken.rules().is_empty());
    assert_eq!(broken.default_normal(), Verdict::Ask);
    let whole = policy_config(table(&["allow", "deny"]));
    assert_eq!(whole.rules().len(), 2);
    assert_eq!(whole.default_normal(), Verdict::Allow);
}

#[test]
fn the_daemon_needs_a_schedule_and_a_model() {
    let file = FileConfig {
        provider: Some("openai".into()),
        aux_model: Some("small".into()),
        ..Default::default()
    };
    let mut s = Secrets::default();
    let start = komo::cli::daemon::run;
    let e = start("never", Ok(ShionEnv::default()), &file, &s).err().unwrap();
    assert!(e.starts_with("invalid cron expression `never`: "));
    let e = start("0 * * * *", Ok(ShionEnv::default()), &file, &s).err().unwrap();
    assert_eq!(e, "OPENAI_API_KEY is not set (required for OpenAi)");
    s.openai_api_key = Some("k".into());
    let plan = start("0 * * * *", Ok(ShionEnv::default()), &file, &s).ok().unwrap();
    assert_eq!(plan.model.model, "small");
    assert_eq!(
        plan.banner,
        "Shion daemon — maintenance sweep on schedule `0 * * * *`. Ctrl-C to stop.\n"
    );
}
