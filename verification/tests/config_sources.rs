use komo::config::provider::Provider;
use komo::config::report::Origin;
use komo::config::snapshot::{komo_home, wechat_cred_path, workday_cache_dir, ConfigSnapshot};
use komo::config::sources::{legacy_fallbacks, ConfigSources, FileConfig, KomoEnv, Secrets};
use komo::config::write::write_model_selection;
use std::collections::HashMap;

#[test]
fn sources_api_keys_maps_provider_and_filters_empty() {
    let keys = Secrets {
        deepseek_api_key: Some("sk-x".into()),
        openai_api_key: Some(String::new()),
        ..Default::default()
    };
    assert_eq!(keys.key(Provider::DeepSeek), Some("sk-x"));
    assert_eq!(keys.key(Provider::OpenAi), None, "empty string = unset");
    assert_eq!(keys.key(Provider::Anthropic), None);
}

#[test]
fn komo_env_normalizes_empty_strings_to_unset() {
    let env = KomoEnv {
        provider: Some("openai".into()),
        model: Some(String::new()),
        ..Default::default()
    }
    .normalized();
    assert_eq!(env.provider.as_deref(), Some("openai"));
    assert_eq!(env.model, None);
}

#[test]
fn komo_env_values_override_legacy_fallbacks() {
    let legacy = KomoEnv {
        provider: Some("deepseek".into()),
        model: Some("legacy-model".into()),
        max_turns: Some(10),
        ..Default::default()
    };
    let current = KomoEnv {
        provider: Some("openai".into()),
        max_turns: Some(30),
        ..Default::default()
    };
    let merged = legacy.overlay(current);
    assert_eq!(merged.provider.as_deref(), Some("openai"));
    assert_eq!(merged.model.as_deref(), Some("legacy-model"));
    assert_eq!(merged.max_turns, Some(30));
}

/// The overrides under a prefix; only the one that the test sets is read.
fn read(prefix: &'static str, vars: Vec<(String, String)>) -> KomoEnv {
    let found: HashMap<String, String> = envy::prefixed(prefix).from_iter(vars).unwrap();
    KomoEnv {
        max_turns: found.get("max_turns").map(|v| v.parse().unwrap()),
        ..Default::default()
    }
}

#[test]
fn current_env_shadows_a_malformed_legacy_value_before_parsing() {
    let vars: Vec<(String, String)> = vec![
        ("SHION_MAX_TURNS".into(), "not-a-number".into()),
        ("KOMO_MAX_TURNS".into(), "30".into()),
    ];
    let legacy = read("SHION_", legacy_fallbacks(&vars));
    let current = read("KOMO_", vars);
    let env = KomoEnv::combine(legacy, current);
    assert_eq!(env.max_turns, Some(30));
}

#[test]
fn unshadowed_legacy_names_are_kept() {
    let vars: Vec<(String, String)> = vec![
        ("SHION_MODEL".into(), "m".into()),
        ("KOMO_MAX_TURNS".into(), "30".into()),
        ("PATH".into(), "/bin".into()),
    ];
    let kept = legacy_fallbacks(&vars);
    assert!(kept.contains(&("SHION_MODEL".to_string(), "m".to_string())));
}

#[test]
fn secrets_debug_shows_presence_not_values() {
    let keys = Secrets {
        telegram_bot_token: Some("123456:very-secret-token".into()),
        ..Default::default()
    };
    let s = keys.debug_text();
    assert!(
        !s.contains("very-secret-token"),
        "secret value must not appear in Debug output: {s}"
    );
    assert!(s.contains("telegram_bot_token: true"));
}

#[test]
fn a_malformed_environment_is_kept_as_an_error() {
    let s = ConfigSources::load(
        "/h".into(),
        FileConfig::default(),
        Err("bad".into()),
        Secrets::default(),
    );
    assert!(s.env_error.is_some());
    assert_eq!(s.env.provider, None);
    assert_eq!(s.home, "/h");
}

#[test]
fn snapshots_load_from_the_raw_sources() {
    let env = KomoEnv {
        model: Some("m".into()),
        ..Default::default()
    };
    let snap = ConfigSnapshot::load("/h".into(), FileConfig::default(), Ok(env), Secrets::default());
    assert_eq!(snap.runtime.model.model, "m");
    assert_eq!(snap.report.model_origin, Origin::Env);
    assert_eq!(snap.runtime.home, "/h");
}

#[test]
fn home_is_overridable() {
    let home = komo_home(Some("/tmp/komo_config_test_home_override".into()), None);
    assert_eq!(home, "/tmp/komo_config_test_home_override");
    assert_eq!(komo_home(None, Some("/u".into())), "/u/.komo");
    assert_eq!(komo_home(Some(String::new()), Some("/u".into())), "/u/.komo");
}

#[test]
fn files_of_the_home_directory() {
    assert_eq!(workday_cache_dir("/h"), "/h/workdays");
    assert_eq!(wechat_cred_path("/h"), "/h/wechat/credentials.json");
}

#[test]
fn writing_the_selection_keeps_other_keys() {
    let before = "schedule = \"0 0 * * *\"\nmodel = \"old\"\n";
    let after = write_model_selection("/c", Some(before), Provider::Codex, Some("new")).unwrap();
    let table: toml::Table = toml::from_str(&after).unwrap();
    assert_eq!(table["schedule"].as_str(), Some("0 0 * * *"));
    assert_eq!(table["provider"].as_str(), Some("codex"));
    assert_eq!(table["model"].as_str(), Some("new"));
    let after = write_model_selection("/c", Some(before), Provider::OpenAi, None).unwrap();
    let table: toml::Table = toml::from_str(&after).unwrap();
    assert_eq!(table["provider"].as_str(), Some("openai"));
    assert!(table.get("model").is_none());
}

#[test]
fn writing_over_an_invalid_file_is_an_error() {
    let err = write_model_selection("/c", Some("= ="), Provider::Codex, None).unwrap_err();
    assert!(err.starts_with("/c is invalid TOML: "));
    assert!(write_model_selection("/c", None, Provider::Codex, None).is_ok());
}

#[test]
fn provider_names_and_aliases_parse() {
    for p in Provider::all() {
        assert_eq!(Provider::parse(p.name()), Ok(p));
    }
    assert_eq!(Provider::parse(" GPT "), Ok(Provider::OpenAi));
    assert_eq!(
        Provider::parse("Nope"),
        Err("unknown provider `nope` (expected: deepseek | openai | anthropic | openrouter | codex)"
            .to_string())
    );
    assert_eq!(Provider::OpenRouter.api_key_var(), "OPENROUTER_API_KEY");
    assert_eq!(Provider::Codex.default_model(), "gpt-5.5");
    assert!(!Provider::Codex.uses_api_key());
}

#[test]
fn komo_home_respects_env_override() {
    let dir = "/tmp/komo_config_test_home_override".to_string();
    assert_eq!(komo_home(Some(dir.clone()), Some("/home/me".to_string())), dir);
}
