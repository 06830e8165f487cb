//! Settings of one surface at a time, failing fast: the `SHION_*` variables over the
//! configuration file over built-in defaults.
use crate::casing;
use crate::config::provider;
use crate::config::provider::Provider;
use crate::config::resolve;
use crate::config::resolve::{build_policy, ha_tool, resolve_dream_schedule};
use crate::config::resolved::{
    ApiConfig, FeishuConfig, HomeAssistantChannelConfig, HomeAssistantConfig, ModelConfig,
    TelegramConfig, WeChatConfig, DEFAULT_API_BIND, DEFAULT_API_PORT, DEFAULT_COOLDOWN_SECONDS,
    DEFAULT_LLM_TIMEOUT_SECS, DEFAULT_MAINTENANCE_SCHEDULE, DEFAULT_MAX_HISTORY_MESSAGES,
    DEFAULT_MAX_TOOL_RESULT_BYTES, DEFAULT_MAX_TURNS,
};
use crate::config::sources;
use crate::config::sources::{
    ApiFileConfig, FeishuFileConfig, FileConfig, HomeAssistantChannelFileConfig, PolicyFileConfig,
    Secrets, TelegramFileConfig, WeChatFileConfig,
};
use crate::domain::policy::{Policy, Rule, Verdict};
use crate::path;
use crate::system;
use crate::text;
use vstd::prelude::*;

verus! {

/// The `SHION_*` overrides.
#[derive(Debug)]
pub struct ShionEnv {
    pub provider: Option<String>,
    pub model: Option<String>,
    pub base_url: Option<String>,
    pub aux_model: Option<String>,
    pub schedule: Option<String>,
    pub briefing_schedule: Option<String>,
    pub briefing_workdays_only: Option<bool>,
    pub dream_schedule: Option<String>,
    pub max_turns: Option<usize>,
    pub max_tool_result_bytes: Option<usize>,
    pub max_history_messages: Option<usize>,
    pub review_interval: Option<usize>,
    pub skills_path: Option<String>,
}

/// No overrides.
pub open spec fn no_overrides() -> ShionEnv {
    ShionEnv {
        provider: None,
        model: None,
        base_url: None,
        aux_model: None,
        schedule: None,
        briefing_schedule: None,
        briefing_workdays_only: None,
        dream_schedule: None,
        max_turns: None,
        max_tool_result_bytes: None,
        max_history_messages: None,
        review_interval: None,
        skills_path: None,
    }
}

impl Default for ShionEnv {
    fn default() -> (r: Self)
        ensures
            r == no_overrides(),
    {
        ShionEnv {
            provider: None,
            model: None,
            base_url: None,
            aux_model: None,
            schedule: None,
            briefing_schedule: None,
            briefing_workdays_only: None,
            dream_schedule: None,
            max_turns: None,
            max_tool_result_bytes: None,
            max_history_messages: None,
            review_interval: None,
            skills_path: None,
        }
    }
}

fn drop_empty(o: Option<String>) -> (r: Option<String>)
    ensures
        r == sources::drop_empty(o),
{
    match o {
        Some(s) => if s.as_str().is_empty() {
            None
        } else {
            Some(s)
        },
        None => None,
    }
}

impl ShionEnv {
    /// The overrides with empty texts counting as unset.
    pub open spec fn normal_form(self) -> ShionEnv {
        ShionEnv {
            provider: sources::drop_empty(self.provider),
            model: sources::drop_empty(self.model),
            base_url: sources::drop_empty(self.base_url),
            aux_model: sources::drop_empty(self.aux_model),
            schedule: sources::drop_empty(self.schedule),
            briefing_schedule: sources::drop_empty(self.briefing_schedule),
            dream_schedule: sources::drop_empty(self.dream_schedule),
            skills_path: sources::drop_empty(self.skills_path),
            ..self
        }
    }

    /// The overrides with empty texts counting as unset: `SHION_MODEL=` is as good as
    /// absent.
    pub fn normalized(self) -> (r: Self)
        ensures
            r == self.normal_form(),
    {
        ShionEnv {
            provider: drop_empty(self.provider),
            model: drop_empty(self.model),
            base_url: drop_empty(self.base_url),
            aux_model: drop_empty(self.aux_model),
            schedule: drop_empty(self.schedule),
            briefing_schedule: drop_empty(self.briefing_schedule),
            briefing_workdays_only: self.briefing_workdays_only,
            dream_schedule: drop_empty(self.dream_schedule),
            max_turns: self.max_turns,
            max_tool_result_bytes: self.max_tool_result_bytes,
            max_history_messages: self.max_history_messages,
            review_interval: self.review_interval,
            skills_path: drop_empty(self.skills_path),
        }
    }

    /// The overrides as read; a malformed value is an error.
    pub fn load(read: Result<ShionEnv, String>) -> (r: Result<Self, String>)
        ensures
            match read {
                Ok(env) => r == Ok::<ShionEnv, String>(env.normal_form()),
                Err(e) => r matches Err(m) && m@ == "invalid SHION_* environment variable: "@ + e@,
            },
    {
        match read {
            Ok(env) => Ok(env.normalized()),
            Err(e) => Err(text::prefixed("invalid SHION_* environment variable: ", &e)),
        }
    }

    /// The overrides as read; none of them where any value is malformed.
    pub fn load_lenient(read: Result<ShionEnv, String>) -> (r: Self)
        ensures
            r == match read {
                Ok(env) => env.normal_form(),
                Err(_) => no_overrides(),
            },
    {
        match ShionEnv::load(read) {
            Ok(env) => env,
            Err(_) => ShionEnv::default(),
        }
    }
}

/// The home directory: the override where it is set and not empty, else `.shion` in the
/// user's directory.
pub fn shion_home(given: &Option<String>, user_dir: &str) -> (r: String)
    ensures
        r@ == match text::set_text(*given) {
            Some(h) => h,
            None => path::joined(user_dir@, ".shion"@),
        },
{
    match text::nonempty(given) {
        Some(h) => h.to_owned(),
        None => path::join(user_dir, ".shion"),
    }
}

/// The database of disposable state.
pub fn default_db_url(home: &str) -> (r: String)
    ensures
        r@ == resolve::database_url(home@, "shion.db"@),
{
    resolve::db_url(home, "shion.db")
}

/// The database of durable tasks, apart so that a reset never wipes them.
pub fn default_kanban_db_url(home: &str) -> (r: String)
    ensures
        r@ == resolve::database_url(home@, "kanban.db"@),
{
    resolve::db_url(home, "kanban.db")
}

/// The database of durable memories, apart so that a reset never wipes them.
pub fn default_memory_db_url(home: &str) -> (r: String)
    ensures
        r@ == resolve::database_url(home@, "memory.db"@),
{
    resolve::db_url(home, "memory.db")
}

/// The variable where it is set, else the file.
fn text_over(env: &Option<String>, file: &Option<String>) -> (r: Option<String>)
    ensures
        r == text::either(*env, *file),
{
    match env {
        Some(s) => Some(s.clone()),
        None => text::clone_opt(file),
    }
}

/// The maintenance schedule; hourly unless set.
pub fn maintenance_schedule(env: &ShionEnv, file: &FileConfig) -> (r: String)
    ensures
        r@ == match text::either(env.schedule, file.schedule) {
            Some(s) => s@,
            None => DEFAULT_MAINTENANCE_SCHEDULE@,
        },
{
    match text_over(&env.schedule, &file.schedule) {
        Some(s) => s,
        None => DEFAULT_MAINTENANCE_SCHEDULE.to_owned(),
    }
}

/// The briefing schedule; off unless set, so that nothing is pushed uninvited.
pub fn briefing_schedule(env: &ShionEnv, file: &FileConfig) -> (r: Option<String>)
    ensures
        r == text::either(env.briefing_schedule, file.briefing_schedule),
{
    text_over(&env.briefing_schedule, &file.briefing_schedule)
}

/// The dreaming schedule; nightly unless set, and off where it is set to that.
pub fn dream_schedule(env: &ShionEnv, file: &FileConfig) -> (r: Option<String>)
    ensures
        text::opt_text(r) == resolve::dream_schedule(
            text::either(env.dream_schedule, file.dream_schedule),
        ),
{
    resolve_dream_schedule(text_over(&env.dream_schedule, &file.dream_schedule))
}

/// Whether the briefing only goes out on working days; not unless set.
pub fn briefing_workdays_only(env: &ShionEnv, file: &FileConfig) -> (r: bool)
    ensures
        r == (text::either(env.briefing_workdays_only, file.briefing_workdays_only) == Some(true)),
{
    match text::or(env.briefing_workdays_only, file.briefing_workdays_only) {
        Some(b) => b,
        None => false,
    }
}

/// Whether `r` is the permission policy of a table: the empty one where there is no table,
/// and the empty one where any of its rules is invalid, so that everything asks.
pub open spec fn is_strict_policy(table: Option<PolicyFileConfig>, r: Policy) -> bool {
    match table {
        Some(c) => if resolve::invalid_of(c.rule@).len() > 0 {
            &&& r.rule_list() == Seq::<Rule>::empty()
            &&& r.normal_verdict() == Verdict::Ask
        } else {
            &&& r.rule_list() == resolve::rules_of(c.rule@)
            &&& r.normal_verdict() == resolve::default_verdict(c.default_normal)
        },
        None => {
            &&& r.rule_list() == Seq::<Rule>::empty()
            &&& r.normal_verdict() == Verdict::Ask
        },
    }
}

/// The permission policy; the empty one where the file has none. A table with an invalid
/// rule is not used in part: it gives the empty policy too.
pub fn policy_config(table: Option<PolicyFileConfig>) -> (r: Policy)
    ensures
        is_strict_policy(table, r),
{
    let ghost given = table;
    let (report, _) = build_policy(table);
    assert(given matches Some(c) ==> resolve::as_ints(report.invalid@)
        == resolve::invalid_of(c.rule@));
    if report.invalid.len() > 0 {
        return Policy::default();
    }
    report.policy
}

/// The message for an enabled channel whose credential is missing.
pub open spec fn missing_secret(channel: Seq<char>, var: Seq<char>) -> Seq<char> {
    "[channels."@ + channel + "] is enabled but "@ + var
        + " is not set (put it in ~/.shion/.env)"@
}

fn require_secret(value: &Option<String>, channel: &str, var: &str) -> (r: Result<String, String>)
    ensures
        match r {
            Ok(s) => text::set_text(*value) == Some(s@),
            Err(m) => text::set_text(*value) is None && m@ == missing_secret(channel@, var@),
        },
{
    match text::nonempty(value) {
        Some(s) => Ok(s.to_owned()),
        None => {
            let mut m = text::between("[channels.", channel, "] is enabled but ");
            m.push_str(var);
            m.push_str(" is not set (put it in ~/.shion/.env)");
            Err(m)
        },
    }
}

/// The Home Assistant credentials; none where there is no token.
pub fn homeassistant_config(secrets: &Secrets) -> (r: Option<HomeAssistantConfig>)
    ensures
        resolve::is_ha_tool(*secrets, r),
{
    ha_tool(secrets)
}

/// The Home Assistant event channel: none where it is off, an error where it lacks the
/// token.
pub fn homeassistant_channel_config(
    table: &Option<HomeAssistantChannelFileConfig>,
    secrets: &Secrets,
) -> (r: Result<Option<HomeAssistantChannelConfig>, String>)
    ensures
        match *table {
            Some(ha) => if !ha.enabled {
                r matches Ok(None)
            } else if text::set_text(secrets.hass_token) is None {
                r matches Err(e) && e@ == missing_secret("homeassistant"@, "HASS_TOKEN"@)
            } else {
                &&& r matches Ok(Some(c))
                &&& resolve::is_ha_tool(
                    *secrets,
                    Some(HomeAssistantConfig { base_url: c.base_url, token: c.token }),
                )
                &&& c.watch_domains@ == ha.watch_domains@
                &&& c.watch_entities@ == ha.watch_entities@
                &&& c.ignore_entities@ == ha.ignore_entities@
                &&& c.watch_all == ha.watch_all
                &&& c.cooldown_seconds == match ha.cooldown_seconds {
                    Some(n) => n,
                    None => DEFAULT_COOLDOWN_SECONDS,
                }
            },
            None => r matches Ok(None),
        },
{
    let ha = match table {
        Some(ha) => ha,
        None => return Ok(None),
    };
    if !ha.enabled {
        return Ok(None);
    }
    let creds = match homeassistant_config(secrets) {
        Some(c) => c,
        None => {
            let mut m = text::between("[channels.", "homeassistant", "] is enabled but ");
            m.push_str("HASS_TOKEN");
            m.push_str(" is not set (put it in ~/.shion/.env)");
            return Err(m);
        },
    };
    Ok(
        Some(
            HomeAssistantChannelConfig {
                base_url: creds.base_url,
                token: creds.token,
                watch_domains: text::clone_list(&ha.watch_domains),
                watch_entities: text::clone_list(&ha.watch_entities),
                ignore_entities: text::clone_list(&ha.ignore_entities),
                watch_all: ha.watch_all,
                cooldown_seconds: match ha.cooldown_seconds {
                    Some(n) => n,
                    None => DEFAULT_COOLDOWN_SECONDS,
                },
            },
        ),
    )
}

/// The Telegram channel: none where it is off, an error where it lacks its token.
pub fn telegram_config(table: &Option<TelegramFileConfig>, secrets: &Secrets) -> (r: Result<
    Option<TelegramConfig>,
    String,
>)
    ensures
        match *table {
            Some(t) => if !t.enabled {
                r matches Ok(None)
            } else if text::set_text(secrets.telegram_bot_token) is None {
                r matches Err(e) && e@ == missing_secret("telegram"@, "TELEGRAM_BOT_TOKEN"@)
            } else {
                &&& r matches Ok(Some(c))
                &&& text::set_text(secrets.telegram_bot_token) == Some(c.bot_token@)
                &&& c.allow_from@ == t.allow_from@
                &&& c.allowed_chats@ == t.allowed_chats@
                &&& c.require_mention == (t.require_mention != Some(false))
                &&& c.home_chat == t.home_chat
            },
            None => r matches Ok(None),
        },
{
    let t = match table {
        Some(t) => t,
        None => return Ok(None),
    };
    if !t.enabled {
        return Ok(None);
    }
    match require_secret(&secrets.telegram_bot_token, "telegram", "TELEGRAM_BOT_TOKEN") {
        Ok(bot_token) => Ok(
            Some(
                TelegramConfig {
                    bot_token,
                    allow_from: text::clone_list(&t.allow_from),
                    allowed_chats: text::clone_list(&t.allowed_chats),
                    require_mention: match t.require_mention {
                        Some(b) => b,
                        None => true,
                    },
                    home_chat: text::clone_opt(&t.home_chat),
                },
            ),
        ),
        Err(e) => Err(e),
    }
}

/// Whether `c` is the API channel's setting, `spare` being the key made up for one that
/// is reached from this machine alone.
pub open spec fn is_api(table: Option<ApiFileConfig>, s: Secrets, spare: Seq<char>, c: ApiConfig) -> bool {
    if table is Some && table->Some_0.enabled {
        let f = table->Some_0;
        &&& c.bind@ == match text::set_text(f.bind) {
            Some(b) => b,
            None => DEFAULT_API_BIND@,
        }
        &&& c.port == match f.port {
            Some(p) => p,
            None => DEFAULT_API_PORT,
        }
        &&& text::set_text(s.api_server_key) == Some(c.server_key@)
    } else {
        &&& c.bind@ == DEFAULT_API_BIND@
        &&& c.port == 0
        &&& c.server_key@ == match text::set_text(s.api_server_key) {
            Some(k) => k,
            None => spare,
        }
    }
}

/// The API channel, with the key to use on loopback where none is set.
pub fn api_config_with(table: &Option<ApiFileConfig>, secrets: &Secrets, spare: &str) -> (r: Result<
    ApiConfig,
    String,
>)
    ensures
        match r {
            Ok(c) => is_api(*table, *secrets, spare@, c) && !(table matches Some(f) && f.enabled
                && text::set_text(secrets.api_server_key) is None),
            Err(e) => {
                &&& table matches Some(f)
                &&& f.enabled
                &&& text::set_text(secrets.api_server_key) is None
                &&& e@ == missing_secret("api"@, "API_SERVER_KEY"@)
            },
        },
{
    if let Some(f) = table {
        if f.enabled {
            return match require_secret(&secrets.api_server_key, "api", "API_SERVER_KEY") {
                Ok(server_key) => Ok(
                    ApiConfig {
                        bind: match text::nonempty(&f.bind) {
                            Some(b) => b.to_owned(),
                            None => DEFAULT_API_BIND.to_owned(),
                        },
                        port: match f.port {
                            Some(p) => p,
                            None => DEFAULT_API_PORT,
                        },
                        server_key,
                    },
                ),
                Err(e) => Err(e),
            };
        }
    }
    Ok(
        ApiConfig {
            bind: DEFAULT_API_BIND.to_owned(),
            port: 0,
            server_key: match text::nonempty(&secrets.api_server_key) {
                Some(k) => k.to_owned(),
                None => spare.to_owned(),
            },
        },
    )
}

/// The API channel, which is always on: external where it is enabled, and then only with
/// a key; else on loopback, with a made-up key where none is set.
pub fn api_config(table: &Option<ApiFileConfig>, secrets: &Secrets) -> (r: Result<
    ApiConfig,
    String,
>)
    ensures
        match r {
            Ok(c) => exists|spare: Seq<char>| #[trigger]
                system::is_token(spare) && system::is_drawn(spare) && is_api(
                    *table,
                    *secrets,
                    spare,
                    c,
                ),
            Err(e) => e@ == missing_secret("api"@, "API_SERVER_KEY"@),
        },
        r is Err <==> (table matches Some(f) && f.enabled && text::set_text(
            secrets.api_server_key,
        ) is None),
{
    let spare = system::draw_token();
    assert(system::is_token(spare@));
    api_config_with(table, secrets, &spare)
}

/// The WeChat channel: none where it is off. Its login is a file of its own, looked at
/// when the channel serves.
pub fn wechat_config(table: &Option<WeChatFileConfig>) -> (r: Result<Option<WeChatConfig>, String>)
    ensures
        match *table {
            Some(w) => if w.enabled {
                &&& r matches Ok(Some(c))
                &&& c.allow_from@ == w.allow_from@
                &&& c.home_chat == w.home_chat
            } else {
                r matches Ok(None)
            },
            None => r matches Ok(None),
        },
{
    match table {
        Some(w) => if w.enabled {
            Ok(
                Some(
                    WeChatConfig {
                        allow_from: text::clone_list(&w.allow_from),
                        home_chat: text::clone_opt(&w.home_chat),
                    },
                ),
            )
        } else {
            Ok(None)
        },
        None => Ok(None),
    }
}

/// The Feishu channel: none where it is off, an error where it lacks its id or secret.
pub fn feishu_config(table: &Option<FeishuFileConfig>, secrets: &Secrets) -> (r: Result<
    Option<FeishuConfig>,
    String,
>)
    ensures
        match *table {
            Some(f) => if !f.enabled {
                r matches Ok(None)
            } else if text::set_text(secrets.feishu_app_id) is None {
                r matches Err(e) && e@ == missing_secret("feishu"@, "FEISHU_APP_ID"@)
            } else if text::set_text(secrets.feishu_app_secret) is None {
                r matches Err(e) && e@ == missing_secret("feishu"@, "FEISHU_APP_SECRET"@)
            } else {
                &&& r matches Ok(Some(c))
                &&& text::set_text(secrets.feishu_app_id) == Some(c.app_id@)
                &&& text::set_text(secrets.feishu_app_secret) == Some(c.app_secret@)
                &&& c.allow_from@ == f.allow_from@
                &&& c.require_mention == (f.require_mention != Some(false))
                &&& c.home_chat == f.home_chat
            },
            None => r matches Ok(None),
        },
{
    let f = match table {
        Some(f) => f,
        None => return Ok(None),
    };
    if !f.enabled {
        return Ok(None);
    }
    let app_id = match require_secret(&secrets.feishu_app_id, "feishu", "FEISHU_APP_ID") {
        Ok(s) => s,
        Err(e) => return Err(e),
    };
    let app_secret = match require_secret(
        &secrets.feishu_app_secret,
        "feishu",
        "FEISHU_APP_SECRET",
    ) {
        Ok(s) => s,
        Err(e) => return Err(e),
    };
    Ok(
        Some(
            FeishuConfig {
                app_id,
                app_secret,
                allow_from: text::clone_list(&f.allow_from),
                require_mention: match f.require_mention {
                    Some(b) => b,
                    None => true,
                },
                home_chat: text::clone_opt(&f.home_chat),
            },
        ),
    )
}

/// The provider that the overrides and the file name.
pub open spec fn provider_word(env: ShionEnv, file: FileConfig) -> Seq<char> {
    match text::either(env.provider, file.provider) {
        Some(s) => s@,
        None => "deepseek"@,
    }
}

/// Whether `m` is the model selection for a provider.
pub open spec fn is_selection(
    env: ShionEnv,
    file: FileConfig,
    secrets: Secrets,
    p: Provider,
    m: ModelConfig,
) -> bool {
    &&& m.provider == p
    &&& m.model@ == match text::either(env.model, file.model) {
        Some(s) => s@,
        None => p.default_model_spec(),
    }
    &&& if p == Provider::Codex {
        m.api_key@.len() == 0
    } else {
        text::set_text(secrets.slot(p)) == Some(m.api_key@)
    }
    &&& m.base_url == text::either(env.base_url, file.base_url)
    &&& m.aux_model == text::either(env.aux_model, file.aux_model)
    &&& m.max_turns == match text::either(env.max_turns, file.max_turns) {
        Some(n) => n,
        None => DEFAULT_MAX_TURNS,
    }
    &&& m.max_tool_result_bytes == match text::either(
        env.max_tool_result_bytes,
        file.max_tool_result_bytes,
    ) {
        Some(n) => n,
        None => DEFAULT_MAX_TOOL_RESULT_BYTES,
    }
    &&& m.max_history_messages == match text::either(
        env.max_history_messages,
        file.max_history_messages,
    ) {
        Some(n) => n,
        None => DEFAULT_MAX_HISTORY_MESSAGES,
    }
    &&& m.llm_timeout_secs == DEFAULT_LLM_TIMEOUT_SECS
}

/// What is said of a provider without its key.
pub open spec fn missing_key(p: Provider) -> Seq<char> {
    p.api_key_var_spec() + " is not set (required for "@ + p.label_spec() + ")"@
}

/// Whether `r` is what the overrides as read, the file and the credentials resolve to.
pub open spec fn is_resolved(
    read: Result<ShionEnv, String>,
    file: FileConfig,
    secrets: Secrets,
    r: Result<ModelConfig, String>,
) -> bool {
    match read {
        Err(e) => r matches Err(m) && m@ == "invalid SHION_* environment variable: "@ + e@,
        Ok(raw) => {
            let env = raw.normal_form();
            let word = casing::lowercase(text::trimmed(provider_word(env, file)));
            match Provider::named(word) {
                None => r matches Err(m) && m@ == provider::unknown_provider(word),
                Some(p) => match r {
                    Ok(m) => is_selection(env, file, secrets, p, m),
                    Err(e) => p != Provider::Codex && text::set_text(secrets.slot(p)) is None
                        && e@ == missing_key(p),
                },
            }
        },
    }
}

impl ModelConfig {
    /// The model selection for a provider; a missing key is an error.
    pub fn resolve_for(
        env: &ShionEnv,
        file: &FileConfig,
        secrets: &Secrets,
        provider: Provider,
    ) -> (r: Result<ModelConfig, String>)
        ensures
            match r {
                Ok(m) => is_selection(*env, *file, *secrets, provider, m),
                Err(e) => provider != Provider::Codex && text::set_text(
                    secrets.slot(provider),
                ) is None && e@ == missing_key(provider),
            },
    {
        let model = match text_over(&env.model, &file.model) {
            Some(s) => s,
            None => provider.default_model().to_owned(),
        };
        let api_key = if provider.uses_api_key() {
            match secrets.key(provider) {
                Some(k) => k.to_owned(),
                None => {
                    let mut m = provider.api_key_var().to_owned();
                    m.push_str(" is not set (required for ");
                    m.push_str(provider.label());
                    m.push_str(")");
                    return Err(m);
                },
            }
        } else {
            String::new()
        };
        Ok(
            ModelConfig {
                provider,
                model,
                api_key,
                base_url: text_over(&env.base_url, &file.base_url),
                aux_model: text_over(&env.aux_model, &file.aux_model),
                max_turns: match text::or(env.max_turns, file.max_turns) {
                    Some(n) => n,
                    None => DEFAULT_MAX_TURNS,
                },
                max_tool_result_bytes: match text::or(
                    env.max_tool_result_bytes,
                    file.max_tool_result_bytes,
                ) {
                    Some(n) => n,
                    None => DEFAULT_MAX_TOOL_RESULT_BYTES,
                },
                max_history_messages: match text::or(
                    env.max_history_messages,
                    file.max_history_messages,
                ) {
                    Some(n) => n,
                    None => DEFAULT_MAX_HISTORY_MESSAGES,
                },
                llm_timeout_secs: DEFAULT_LLM_TIMEOUT_SECS,
            },
        )
    }

    /// The model selection: overrides over the file over defaults. A malformed override,
    /// an unknown provider or a missing key is an error.
    pub fn resolve(
        read: Result<ShionEnv, String>,
        file: &FileConfig,
        secrets: &Secrets,
    ) -> (r: Result<ModelConfig, String>)
        ensures
            is_resolved(read, *file, *secrets, r),
    {
        let env = match ShionEnv::load(read) {
            Ok(env) => env,
            Err(e) => return Err(e),
        };
        let word = match text_over(&env.provider, &file.provider) {
            Some(s) => s,
            None => "deepseek".to_owned(),
        };
        match Provider::parse(&word) {
            Ok(p) => ModelConfig::resolve_for(&env, file, secrets, p),
            Err(e) => Err(e),
        }
    }

    /// Another name for [`ModelConfig::resolve`].
    pub fn from_env(
        read: Result<ShionEnv, String>,
        file: &FileConfig,
        secrets: &Secrets,
    ) -> (r: Result<ModelConfig, String>)
        ensures
            is_resolved(read, *file, *secrets, r),
    {
        ModelConfig::resolve(read, file, secrets)
    }
}

/// Overrides win over the file, and an empty one does not count.
pub proof fn overrides_win(env: ShionEnv, file: FileConfig)
    ensures
        text::set_text(env.model) is Some ==> text::either(env.normal_form().model, file.model)
            == env.model,
        text::set_text(env.model) is None ==> text::either(env.normal_form().model, file.model)
            == file.model,
{
}

} // verus!
