//! Raw configuration sources: `config.toml`, environment overrides, and
//! credentials.
//!
//! These types carry values verbatim; precedence, defaults and validation live
//! with the resolution.
use crate::config::provider::Provider;
use crate::text;
use vstd::prelude::*;

verus! {

/// One consistent read of every raw source.
pub struct ConfigSources {
    /// The home directory the sources were read relative to.
    pub home: String,
    pub file: FileConfig,
    pub env: KomoEnv,
    pub secrets: Secrets,
    /// Set when the environment failed strict parsing; its overrides are then
    /// dropped and resolution records a fatal issue.
    pub env_error: Option<String>,
}

impl ConfigSources {
    /// Bundle one read of the sources. A failed read of the environment leaves
    /// no overrides and keeps its message.
    pub fn load(home: String, file: FileConfig, env: Result<KomoEnv, String>, secrets: Secrets) -> (r:
        Self)
        ensures
            r.home == home,
            r.file == file,
            r.secrets == secrets,
            match env {
                Ok(e) => r.env == e && r.env_error is None,
                Err(m) => r.env == KomoEnv::unset() && r.env_error == Some(m),
            },
    {
        match env {
            Ok(env) => ConfigSources { home, file, env, secrets, env_error: None },
            Err(message) => ConfigSources {
                home,
                file,
                env: KomoEnv::default(),
                secrets,
                env_error: Some(message),
            },
        }
    }
}

/// `KOMO_*` environment overrides.
#[derive(Debug)]
pub struct KomoEnv {
    pub provider: Option<String>,
    pub model: Option<String>,
    pub base_url: Option<String>,
    pub aux_model: Option<String>,
    pub schedule: Option<String>,
    pub briefing_schedule: Option<String>,
    pub briefing_workdays_only: Option<bool>,
    pub dream_schedule: Option<String>,
    pub max_turns: Option<usize>,
    pub max_tool_result_bytes: Option<usize>,
    pub max_turn_result_bytes: Option<usize>,
    pub tool_timeout_secs: Option<u64>,
    pub max_history_messages: Option<usize>,
    pub llm_timeout_secs: Option<u64>,
    pub review_interval: Option<usize>,
    pub skills_path: Option<String>,
}

impl Default for KomoEnv {
    /// No overrides.
    fn default() -> (r: Self)
        ensures
            r == KomoEnv::unset(),
    {
        KomoEnv {
            provider: None,
            model: None,
            base_url: None,
            aux_model: None,
            schedule: None,
            briefing_schedule: None,
            briefing_workdays_only: None,
            dream_schedule: None,
            max_turns: None,
            max_tool_result_bytes: None,
            max_turn_result_bytes: None,
            tool_timeout_secs: None,
            max_history_messages: None,
            llm_timeout_secs: None,
            review_interval: None,
            skills_path: None,
        }
    }
}

/// An optional text with the empty text taken as unset.
pub open spec fn drop_empty(o: Option<String>) -> Option<String> {
    if text::set_text(o) is Some {
        o
    } else {
        None
    }
}

/// An optional text with the empty text taken as unset.
fn filled(o: Option<String>) -> (r: Option<String>)
    ensures
        r == drop_empty(o),
{
    if text::nonempty(&o).is_some() {
        o
    } else {
        None
    }
}

impl KomoEnv {
    /// The environment without any override.
    pub open spec fn unset() -> KomoEnv {
        KomoEnv {
            provider: None,
            model: None,
            base_url: None,
            aux_model: None,
            schedule: None,
            briefing_schedule: None,
            briefing_workdays_only: None,
            dream_schedule: None,
            max_turns: None,
            max_tool_result_bytes: None,
            max_turn_result_bytes: None,
            tool_timeout_secs: None,
            max_history_messages: None,
            llm_timeout_secs: None,
            review_interval: None,
            skills_path: None,
        }
    }

    /// The overrides with empty texts taken as unset.
    pub open spec fn normal_form(self) -> KomoEnv {
        KomoEnv {
            provider: drop_empty(self.provider),
            model: drop_empty(self.model),
            base_url: drop_empty(self.base_url),
            aux_model: drop_empty(self.aux_model),
            schedule: drop_empty(self.schedule),
            briefing_schedule: drop_empty(self.briefing_schedule),
            dream_schedule: drop_empty(self.dream_schedule),
            skills_path: drop_empty(self.skills_path),
            ..self
        }
    }

    /// Treat empty strings as unset, so `KOMO_MODEL=` behaves like an absent
    /// variable.
    pub fn normalized(self) -> (r: Self)
        ensures
            r == self.normal_form(),
    {
        KomoEnv {
            provider: filled(self.provider),
            model: filled(self.model),
            base_url: filled(self.base_url),
            aux_model: filled(self.aux_model),
            schedule: filled(self.schedule),
            briefing_schedule: filled(self.briefing_schedule),
            briefing_workdays_only: self.briefing_workdays_only,
            dream_schedule: filled(self.dream_schedule),
            max_turns: self.max_turns,
            max_tool_result_bytes: self.max_tool_result_bytes,
            max_turn_result_bytes: self.max_turn_result_bytes,
            tool_timeout_secs: self.tool_timeout_secs,
            max_history_messages: self.max_history_messages,
            llm_timeout_secs: self.llm_timeout_secs,
            review_interval: self.review_interval,
            skills_path: filled(self.skills_path),
        }
    }

    /// The values of `current` where they are set, and those of `self` elsewhere.
    pub open spec fn under(self, current: KomoEnv) -> KomoEnv {
        KomoEnv {
            provider: text::either(current.provider, self.provider),
            model: text::either(current.model, self.model),
            base_url: text::either(current.base_url, self.base_url),
            aux_model: text::either(current.aux_model, self.aux_model),
            schedule: text::either(current.schedule, self.schedule),
            briefing_schedule: text::either(current.briefing_schedule, self.briefing_schedule),
            briefing_workdays_only: text::either(current.briefing_workdays_only, self.briefing_workdays_only),
            dream_schedule: text::either(current.dream_schedule, self.dream_schedule),
            max_turns: text::either(current.max_turns, self.max_turns),
            max_tool_result_bytes: text::either(current.max_tool_result_bytes, self.max_tool_result_bytes),
            max_turn_result_bytes: text::either(current.max_turn_result_bytes, self.max_turn_result_bytes),
            tool_timeout_secs: text::either(current.tool_timeout_secs, self.tool_timeout_secs),
            max_history_messages: text::either(current.max_history_messages, self.max_history_messages),
            llm_timeout_secs: text::either(current.llm_timeout_secs, self.llm_timeout_secs),
            review_interval: text::either(current.review_interval, self.review_interval),
            skills_path: text::either(current.skills_path, self.skills_path),
        }
    }

    /// Overlay explicitly configured current-name values on legacy fallbacks.
    pub fn overlay(self, current: Self) -> (r: Self)
        ensures
            r == self.under(current),
    {
        KomoEnv {
            provider: text::or(current.provider, self.provider),
            model: text::or(current.model, self.model),
            base_url: text::or(current.base_url, self.base_url),
            aux_model: text::or(current.aux_model, self.aux_model),
            schedule: text::or(current.schedule, self.schedule),
            briefing_schedule: text::or(current.briefing_schedule, self.briefing_schedule),
            briefing_workdays_only: text::or(current.briefing_workdays_only, self.briefing_workdays_only),
            dream_schedule: text::or(current.dream_schedule, self.dream_schedule),
            max_turns: text::or(current.max_turns, self.max_turns),
            max_tool_result_bytes: text::or(current.max_tool_result_bytes, self.max_tool_result_bytes),
            max_turn_result_bytes: text::or(current.max_turn_result_bytes, self.max_turn_result_bytes),
            tool_timeout_secs: text::or(current.tool_timeout_secs, self.tool_timeout_secs),
            max_history_messages: text::or(current.max_history_messages, self.max_history_messages),
            llm_timeout_secs: text::or(current.llm_timeout_secs, self.llm_timeout_secs),
            review_interval: text::or(current.review_interval, self.review_interval),
            skills_path: text::or(current.skills_path, self.skills_path),
        }
    }

    /// The overrides in effect, given what the legacy and the current variables
    /// hold.
    pub fn combine(legacy: KomoEnv, current: KomoEnv) -> (r: Self)
        ensures
            r == legacy.normal_form().under(current.normal_form()),
    {
        legacy.normalized().overlay(current.normalized())
    }
}

/// The current name of a legacy variable: `KOMO_X` for `SHION_X`.
pub open spec fn current_name(key: Seq<char>) -> Option<Seq<char>> {
    match text::after_prefix(key, "SHION_"@) {
        Some(suffix) => Some("KOMO_"@ + suffix),
        None => None,
    }
}

/// The names of a list of variables.
pub open spec fn names_of(vars: Seq<(String, String)>) -> Seq<Seq<char>> {
    Seq::new(vars.len(), |i: int| vars[i].0@)
}

/// Whether the variable `key` is a legacy one that `names` does not shadow.
pub open spec fn is_fallback(key: Seq<char>, names: Seq<Seq<char>>) -> bool {
    match current_name(key) {
        Some(name) => !names.contains(name),
        None => false,
    }
}

/// The variables of `vars`, in order, that are legacy ones without a current
/// counterpart in `names`.
pub open spec fn fallbacks(vars: Seq<(String, String)>, names: Seq<Seq<char>>) -> Seq<
    (String, String),
>
    decreases vars.len(),
{
    if vars.len() == 0 {
        Seq::empty()
    } else {
        let init = fallbacks(vars.drop_last(), names);
        if is_fallback(vars.last().0@, names) {
            init.push(vars.last())
        } else {
            init
        }
    }
}

/// Whether a variable named `name` is among `vars`.
fn is_named(vars: &Vec<(String, String)>, name: &str) -> (r: bool)
    ensures
        r == names_of(vars@).contains(name@),
{
    let mut i: usize = 0;
    while i < vars.len()
        invariant
            i <= vars.len(),
            forall|k: int| 0 <= k < i ==> names_of(vars@)[k] != name@,
        decreases vars.len() - i,
    {
        if text::same(&vars[i].0, name) {
            assert(names_of(vars@)[i as int] == name@);
            return true;
        }
        i = i + 1;
    }
    false
}

/// The legacy `SHION_*` variables that no `KOMO_*` variable shadows. A shadowed
/// one is left out before its value is read, so a malformed value cannot hurt.
pub fn legacy_fallbacks(vars: &Vec<(String, String)>) -> (r: Vec<(String, String)>)
    ensures
        r@ == fallbacks(vars@, names_of(vars@)),
{
    let mut out: Vec<(String, String)> = Vec::new();
    let mut i: usize = 0;
    while i < vars.len()
        invariant
            i <= vars.len(),
            out@ == fallbacks(vars@.take(i as int), names_of(vars@)),
        decreases vars.len() - i,
    {
        assert(vars@.take(i + 1).drop_last() =~= vars@.take(i as int));
        if let Some(suffix) = text::strip_prefix(&vars[i].0, "SHION_") {
            let mut name = "KOMO_".to_owned();
            name.push_str(suffix);
            if !is_named(vars, &name) {
                out.push((vars[i].0.clone(), vars[i].1.clone()));
            }
        }
        i = i + 1;
    }
    assert(vars@.take(i as int) =~= vars@);
    out
}

/// Every credential the agent reads. Secrets live only here, never in
/// `config.toml`.
pub struct Secrets {
    pub deepseek_api_key: Option<String>,
    pub openai_api_key: Option<String>,
    pub anthropic_api_key: Option<String>,
    pub openrouter_api_key: Option<String>,
    pub feishu_app_id: Option<String>,
    pub feishu_app_secret: Option<String>,
    pub telegram_bot_token: Option<String>,
    pub api_server_key: Option<String>,
    pub hass_token: Option<String>,
    pub hass_url: Option<String>,
}

impl Default for Secrets {
    /// No credentials.
    fn default() -> (r: Self)
        ensures
            r == (Secrets {
                deepseek_api_key: None,
                openai_api_key: None,
                anthropic_api_key: None,
                openrouter_api_key: None,
                feishu_app_id: None,
                feishu_app_secret: None,
                telegram_bot_token: None,
                api_server_key: None,
                hass_token: None,
                hass_url: None,
            }),
    {
        Secrets {
            deepseek_api_key: None,
            openai_api_key: None,
            anthropic_api_key: None,
            openrouter_api_key: None,
            feishu_app_id: None,
            feishu_app_secret: None,
            telegram_bot_token: None,
            api_server_key: None,
            hass_token: None,
            hass_url: None,
        }
    }
}

/// The word for whether a credential is set.
pub open spec fn presence(o: Option<String>) -> Seq<char> {
    if text::set_text(o) is Some {
        "true"@
    } else {
        "false"@
    }
}

/// Appends `label` and whether the credential is set.
fn push_presence(out: &mut String, label: &str, o: &Option<String>)
    ensures
        final(out)@ == old(out)@ + label@ + presence(*o),
{
    out.push_str(label);
    if text::nonempty(o).is_some() {
        out.push_str("true");
    } else {
        out.push_str("false");
    }
}

impl Secrets {
    /// What the credentials show of themselves: presence, never a value.
    pub open spec fn shown(self) -> Seq<char> {
        "Secrets { deepseek_api_key: "@ + presence(self.deepseek_api_key)
            + ", openai_api_key: "@ + presence(self.openai_api_key)
            + ", anthropic_api_key: "@ + presence(self.anthropic_api_key)
            + ", openrouter_api_key: "@ + presence(self.openrouter_api_key)
            + ", feishu_app_id: "@ + presence(self.feishu_app_id)
            + ", feishu_app_secret: "@ + presence(self.feishu_app_secret)
            + ", telegram_bot_token: "@ + presence(self.telegram_bot_token)
            + ", api_server_key: "@ + presence(self.api_server_key)
            + ", hass_token: "@ + presence(self.hass_token)
            + ", hass_url: "@ + presence(self.hass_url)
            + " }"@
    }

    /// The credentials for diagnostics: presence, never a value.
    pub fn debug_text(&self) -> (r: String)
        ensures
            r@ == self.shown(),
    {
        let mut out = "Secrets { deepseek_api_key: ".to_owned();
        if text::nonempty(&self.deepseek_api_key).is_some() {
            out.push_str("true");
        } else {
            out.push_str("false");
        }
        push_presence(&mut out, ", openai_api_key: ", &self.openai_api_key);
        push_presence(&mut out, ", anthropic_api_key: ", &self.anthropic_api_key);
        push_presence(&mut out, ", openrouter_api_key: ", &self.openrouter_api_key);
        push_presence(&mut out, ", feishu_app_id: ", &self.feishu_app_id);
        push_presence(&mut out, ", feishu_app_secret: ", &self.feishu_app_secret);
        push_presence(&mut out, ", telegram_bot_token: ", &self.telegram_bot_token);
        push_presence(&mut out, ", api_server_key: ", &self.api_server_key);
        push_presence(&mut out, ", hass_token: ", &self.hass_token);
        push_presence(&mut out, ", hass_url: ", &self.hass_url);
        out.push_str(" }");
        out
    }

    /// Where the key of a provider is kept. Codex has no key.
    pub open spec fn slot(self, provider: Provider) -> Option<String> {
        match provider {
            Provider::DeepSeek => self.deepseek_api_key,
            Provider::OpenAi => self.openai_api_key,
            Provider::Anthropic => self.anthropic_api_key,
            Provider::OpenRouter => self.openrouter_api_key,
            Provider::Codex => None,
        }
    }

    /// The API key for `provider`, treating empty strings as unset.
    pub fn key(&self, provider: Provider) -> (r: Option<&str>)
        ensures
            text::opt_view(r) == text::set_text(self.slot(provider)),
    {
        match provider {
            Provider::DeepSeek => text::nonempty(&self.deepseek_api_key),
            Provider::OpenAi => text::nonempty(&self.openai_api_key),
            Provider::Anthropic => text::nonempty(&self.anthropic_api_key),
            Provider::OpenRouter => text::nonempty(&self.openrouter_api_key),
            Provider::Codex => None,
        }
    }
}

/// What the credentials show depends on which of them are set and on nothing
/// else: no value can be read off it.
pub proof fn shown_secrets_hide_values(a: Secrets, b: Secrets)
    requires
        (text::set_text(a.deepseek_api_key) is Some) == (text::set_text(b.deepseek_api_key) is Some),
        (text::set_text(a.openai_api_key) is Some) == (text::set_text(b.openai_api_key) is Some),
        (text::set_text(a.anthropic_api_key) is Some) == (text::set_text(b.anthropic_api_key) is Some),
        (text::set_text(a.openrouter_api_key) is Some) == (text::set_text(b.openrouter_api_key) is Some),
        (text::set_text(a.feishu_app_id) is Some) == (text::set_text(b.feishu_app_id) is Some),
        (text::set_text(a.feishu_app_secret) is Some) == (text::set_text(b.feishu_app_secret) is Some),
        (text::set_text(a.telegram_bot_token) is Some) == (text::set_text(b.telegram_bot_token) is Some),
        (text::set_text(a.api_server_key) is Some) == (text::set_text(b.api_server_key) is Some),
        (text::set_text(a.hass_token) is Some) == (text::set_text(b.hass_token) is Some),
        (text::set_text(a.hass_url) is Some) == (text::set_text(b.hass_url) is Some),
    ensures
        a.shown() == b.shown(),
{
}

/// A current-name value wins over a legacy one, and an empty text counts as no
/// value at all.
pub proof fn current_names_shadow_legacy_ones(legacy: KomoEnv, current: KomoEnv)
    ensures
        ({
            let merged = legacy.normal_form().under(current.normal_form());
            &&& text::set_text(current.model) is Some ==> merged.model == current.model
            &&& text::set_text(current.model) is None ==> merged.model == drop_empty(legacy.model)
            &&& text::set_text(current.provider) is Some ==> merged.provider == current.provider
            &&& text::set_text(current.provider) is None ==> merged.provider == drop_empty(
                legacy.provider,
            )
            &&& current.max_turns is Some ==> merged.max_turns == current.max_turns
            &&& current.max_turns is None ==> merged.max_turns == legacy.max_turns
        }),
{
}

/// Settings read from `config.toml`. All fields are optional.
/// API keys never appear here.
#[derive(Debug)]
pub struct FileConfig {
    pub provider: Option<String>,
    pub model: Option<String>,
    pub base_url: Option<String>,
    pub aux_model: Option<String>,
    /// Cron expression for gateway maintenance (default: hourly).
    pub schedule: Option<String>,
    /// Cron expression for the daily briefing. Unset = disabled.
    pub briefing_schedule: Option<String>,
    /// Gate the daily briefing to Chinese working days only. Default false.
    pub briefing_workdays_only: Option<bool>,
    /// Cron expression for the memory sweep. Unset = nightly; `off` = disabled.
    pub dream_schedule: Option<String>,
    /// Maximum tool-calling round-trips per user turn.
    pub max_turns: Option<usize>,
    /// Byte cap on a tool result handed back to the model.
    pub max_tool_result_bytes: Option<usize>,
    /// Cumulative per-turn cap on tool output.
    pub max_turn_result_bytes: Option<usize>,
    /// Per-tool-call timeout in seconds.
    pub tool_timeout_secs: Option<u64>,
    /// Max prior messages replayed as history per turn.
    pub max_history_messages: Option<usize>,
    /// Per-completion timeout in seconds.
    pub llm_timeout_secs: Option<u64>,
    /// Ingress channel declarations.
    pub channels: Option<ChannelsFileConfig>,
    /// Configurable permission policy.
    pub policy: Option<PolicyFileConfig>,
}

impl Default for FileConfig {
    fn default() -> (r: Self)
        ensures
            r.provider is None,
            r.model is None,
            r.base_url is None,
            r.aux_model is None,
            r.schedule is None,
            r.briefing_schedule is None,
            r.briefing_workdays_only is None,
            r.dream_schedule is None,
            r.max_turns is None,
            r.max_tool_result_bytes is None,
            r.max_turn_result_bytes is None,
            r.tool_timeout_secs is None,
            r.max_history_messages is None,
            r.llm_timeout_secs is None,
            r.channels is None,
            r.policy is None,
    {
        FileConfig {
            provider: None,
            model: None,
            base_url: None,
            aux_model: None,
            schedule: None,
            briefing_schedule: None,
            briefing_workdays_only: None,
            dream_schedule: None,
            max_turns: None,
            max_tool_result_bytes: None,
            max_turn_result_bytes: None,
            tool_timeout_secs: None,
            max_history_messages: None,
            llm_timeout_secs: None,
            channels: None,
            policy: None,
        }
    }
}

/// `[policy]` table: the configurable permission layer.
#[derive(Debug)]
pub struct PolicyFileConfig {
    /// Fallback for a normal action no rule matches: `ask`, `deny`, or `allow`.
    pub default_normal: Option<String>,
    /// `[[policy.rule]]` entries, evaluated deny-first.
    pub rule: Vec<PolicyRuleFileConfig>,
}

impl Default for PolicyFileConfig {
    fn default() -> (r: Self)
        ensures
            r.default_normal is None,
            r.rule@.len() == 0,
    {
        PolicyFileConfig {
            default_normal: None,
            rule: Vec::new(),
        }
    }
}

/// One `[[policy.rule]]` entry.
#[derive(Debug)]
pub struct PolicyRuleFileConfig {
    /// `shell` | `file` | `network` | `homeassistant`.
    pub category: String,
    /// `prefix` | `suffix` | `exact` | `contains`.
    pub matcher: String,
    /// The string compared against the action's target.
    pub value: String,
    /// `allow` | `deny`.
    pub effect: String,
    /// `file`-only: `read` | `write`. Omit = either.
    pub access: Option<String>,
    /// Channel scope. Omit/empty = all channels.
    pub channels: Option<Vec<String>>,
    /// Let an `allow` rule grant dangerous actions too.
    pub include_dangerous: Option<bool>,
    /// Let an `allow` rule grant without a session too.
    pub unattended: Option<bool>,
}

impl Default for PolicyRuleFileConfig {
    fn default() -> (r: Self)
        ensures
            r.category@.len() == 0,
            r.matcher@.len() == 0,
            r.value@.len() == 0,
            r.effect@.len() == 0,
            r.access is None,
            r.channels is None,
            r.include_dangerous is None,
            r.unattended is None,
    {
        PolicyRuleFileConfig {
            category: String::new(),
            matcher: String::new(),
            value: String::new(),
            effect: String::new(),
            access: None,
            channels: None,
            include_dangerous: None,
            unattended: None,
        }
    }
}

/// `[channels]` namespace: one optional table per transport.
#[derive(Debug)]
pub struct ChannelsFileConfig {
    pub feishu: Option<FeishuFileConfig>,
    pub telegram: Option<TelegramFileConfig>,
    pub wechat: Option<WeChatFileConfig>,
    pub homeassistant: Option<HomeAssistantChannelFileConfig>,
    pub api: Option<ApiFileConfig>,
}

impl Default for ChannelsFileConfig {
    fn default() -> (r: Self)
        ensures
            r.feishu is None,
            r.telegram is None,
            r.wechat is None,
            r.homeassistant is None,
            r.api is None,
    {
        ChannelsFileConfig {
            feishu: None,
            telegram: None,
            wechat: None,
            homeassistant: None,
            api: None,
        }
    }
}

/// `[channels.homeassistant]` table: event-filter behavior only.
#[derive(Debug)]
pub struct HomeAssistantChannelFileConfig {
    pub enabled: bool,
    /// Forward state changes for entities in these domains.
    pub watch_domains: Vec<String>,
    /// Forward state changes for these specific entity ids.
    pub watch_entities: Vec<String>,
    /// Never forward these entity ids.
    pub ignore_entities: Vec<String>,
    /// Forward every entity's state change.
    pub watch_all: bool,
    /// Per-entity minimum seconds between forwarded events.
    pub cooldown_seconds: Option<u64>,
}

impl Default for HomeAssistantChannelFileConfig {
    fn default() -> (r: Self)
        ensures
            !r.enabled,
            r.watch_domains@.len() == 0,
            r.watch_entities@.len() == 0,
            r.ignore_entities@.len() == 0,
            !r.watch_all,
            r.cooldown_seconds is None,
    {
        HomeAssistantChannelFileConfig {
            enabled: false,
            watch_domains: Vec::new(),
            watch_entities: Vec::new(),
            ignore_entities: Vec::new(),
            watch_all: false,
            cooldown_seconds: None,
        }
    }
}

/// `[channels.feishu]` table.
#[derive(Debug)]
pub struct FeishuFileConfig {
    pub enabled: bool,
    /// Sender allowlist. Empty = anyone who can reach the bot.
    pub allow_from: Vec<String>,
    /// Whether group messages must mention someone (default true).
    pub require_mention: Option<bool>,
    /// Chat id that receives proactive output.
    pub home_chat: Option<String>,
}

impl Default for FeishuFileConfig {
    fn default() -> (r: Self)
        ensures
            !r.enabled,
            r.allow_from@.len() == 0,
            r.require_mention is None,
            r.home_chat is None,
    {
        FeishuFileConfig {
            enabled: false,
            allow_from: Vec::new(),
            require_mention: None,
            home_chat: None,
        }
    }
}

/// `[channels.telegram]` table.
#[derive(Debug)]
pub struct TelegramFileConfig {
    pub enabled: bool,
    /// Sender allowlist. Empty = anyone who can reach the bot.
    pub allow_from: Vec<String>,
    /// Group chat-id allowlist.
    pub allowed_chats: Vec<String>,
    /// Whether group messages must mention the bot (default true).
    pub require_mention: Option<bool>,
    /// Chat id that receives proactive output.
    pub home_chat: Option<String>,
}

impl Default for TelegramFileConfig {
    fn default() -> (r: Self)
        ensures
            !r.enabled,
            r.allow_from@.len() == 0,
            r.allowed_chats@.len() == 0,
            r.require_mention is None,
            r.home_chat is None,
    {
        TelegramFileConfig {
            enabled: false,
            allow_from: Vec::new(),
            allowed_chats: Vec::new(),
            require_mention: None,
            home_chat: None,
        }
    }
}

/// `[channels.wechat]` table.
#[derive(Debug)]
pub struct WeChatFileConfig {
    pub enabled: bool,
    /// Sender allowlist. Empty = anyone who can reach the bot.
    pub allow_from: Vec<String>,
    /// User id that receives proactive output.
    pub home_chat: Option<String>,
}

impl Default for WeChatFileConfig {
    fn default() -> (r: Self)
        ensures
            !r.enabled,
            r.allow_from@.len() == 0,
            r.home_chat is None,
    {
        WeChatFileConfig {
            enabled: false,
            allow_from: Vec::new(),
            home_chat: None,
        }
    }
}

/// `[channels.api]` table: the HTTP API. The channel is always on; `enabled`
/// widens it from loopback-only to an external address.
#[derive(Debug)]
pub struct ApiFileConfig {
    pub enabled: bool,
    /// Bind address (default loopback).
    pub bind: Option<String>,
    /// Listen port.
    pub port: Option<u16>,
}

impl Default for ApiFileConfig {
    fn default() -> (r: Self)
        ensures
            !r.enabled,
            r.bind is None,
            r.port is None,
    {
        ApiFileConfig {
            enabled: false,
            bind: None,
            port: None,
        }
    }
}

} // verus!
