//! Pure resolution: raw sources to one runtime snapshot.
//!
//! Precedence is applied here exactly once (built-in defaults, then
//! `config.toml`, then the environment), and every problem found becomes an
//! issue instead of an early error.
use crate::config::provider::Provider;
use crate::domain::policy::Policy;
use crate::number;
use crate::text;
use vstd::prelude::*;
use vstd::string::*;

verus! {

/// Built-in default for `max_turns`.
pub const DEFAULT_MAX_TURNS: usize = 30;

/// Built-in per-completion timeout in seconds.
pub const DEFAULT_LLM_TIMEOUT_SECS: u64 = 180;

/// Built-in byte cap on a tool result handed back to the model.
pub const DEFAULT_MAX_TOOL_RESULT_BYTES: usize = 16384;

/// Built-in default for `max_history_messages`.
pub const DEFAULT_MAX_HISTORY_MESSAGES: usize = 50;

/// Built-in cadence of looking a session over: every this many user turns.
pub const DEFAULT_REVIEW_INTERVAL: usize = 10;

/// Default maintenance cron: hourly.
pub const DEFAULT_MAINTENANCE_SCHEDULE: &'static str = "0 * * * *";

/// Default memory-sweep schedule: nightly at 3am. The sweep is on by default.
pub const DEFAULT_DREAM_SCHEDULE: &'static str = "0 3 * * *";

/// Default Home Assistant URL.
pub const DEFAULT_HASS_URL: &'static str = "http://homeassistant.local:8123";

/// Default bind address for the HTTP API channel: loopback only.
pub const DEFAULT_API_BIND: &'static str = "127.0.0.1";

/// Default API port.
pub const DEFAULT_API_PORT: u16 = 8765;

/// Default seconds between forwarded events of one Home Assistant entity.
pub const DEFAULT_COOLDOWN_SECONDS: u64 = 30;

/// Everything the running program needs, fully resolved.
///
/// It has no debug form on purpose: several fields carry credentials.
pub struct RuntimeConfig {
    /// The home directory the snapshot was resolved against.
    pub home: String,
    /// URL of the disposable session and state database.
    pub db_url: String,
    /// URL of the durable task database.
    pub kanban_db_url: String,
    /// URL of the durable memory database.
    pub memory_db_url: String,
    /// Provider and model selection plus the agent-loop knobs that ride with it.
    pub model: ModelConfig,
    /// Look a session over every this many user turns.
    pub review_interval: usize,
    /// Maintenance sweep cron.
    pub maintenance_schedule: String,
    /// Daily briefing cron; `None` = disabled.
    pub briefing_schedule: Option<String>,
    /// Gate the briefing to Chinese working days.
    pub briefing_workdays_only: bool,
    /// Memory sweep cron; `None` = explicitly disabled.
    pub dream_schedule: Option<String>,
    /// The permission policy plus its load diagnostics.
    pub policy: PolicyReport,
    /// Extra skill directories, highest priority first.
    pub skills_path: Vec<String>,
    /// Credentials of the Home Assistant tool; `None` = tool not registered.
    pub homeassistant_tool: Option<HomeAssistantConfig>,
    pub feishu: ChannelState<FeishuConfig>,
    pub telegram: ChannelState<TelegramConfig>,
    pub wechat: ChannelState<WeChatConfig>,
    pub homeassistant_channel: ChannelState<HomeAssistantChannelConfig>,
    /// The HTTP API channel is always on: this is never `Disabled`.
    pub api: ChannelState<ApiConfig>,
}

/// One ingress channel's resolved state.
#[derive(Debug)]
pub enum ChannelState<T> {
    /// Not declared, or declared with `enabled = false`.
    Disabled,
    /// Enabled and fully configured.
    Ready(T),
    /// Enabled but unusable; the message names what is missing.
    Misconfigured(String),
}

impl<T> ChannelState<T> {
    /// The config when the channel is ready to serve.
    pub fn ready(&self) -> (r: Option<&T>)
        ensures
            match *self {
                ChannelState::Ready(cfg) => r == Some(&cfg),
                _ => r is None,
            },
    {
        match self {
            ChannelState::Ready(cfg) => Some(cfg),
            _ => None,
        }
    }
}

/// Resolved model selection: provider, model id, API key, and optional overrides.
pub struct ModelConfig {
    pub provider: Provider,
    pub model: String,
    /// Empty for Codex and when the key is missing.
    pub api_key: String,
    /// Optional base-URL override for OpenAI-compatible endpoints.
    pub base_url: Option<String>,
    /// Optional cheaper model for auxiliary sub-tasks.
    pub aux_model: Option<String>,
    /// Maximum tool-calling round-trips per user turn.
    pub max_turns: usize,
    /// Byte cap on a tool result handed back to the model.
    pub max_tool_result_bytes: usize,
    /// Max prior messages replayed as history per turn (`0` = unlimited).
    pub max_history_messages: usize,
    /// Per-completion timeout in seconds (`0` = no timeout).
    pub llm_timeout_secs: u64,
}

/// The resolved policy plus load diagnostics.
pub struct PolicyReport {
    pub policy: Policy,
    /// Positions of the ignored invalid `[[policy.rule]]` entries.
    pub invalid: Vec<usize>,
    /// Whether a `[policy]` table was present at all.
    pub configured: bool,
}

/// Resolved Feishu channel settings.
pub struct FeishuConfig {
    pub app_id: String,
    pub app_secret: String,
    pub allow_from: Vec<String>,
    pub require_mention: bool,
    pub home_chat: Option<String>,
}

/// Resolved Telegram channel settings.
pub struct TelegramConfig {
    pub bot_token: String,
    pub allow_from: Vec<String>,
    pub allowed_chats: Vec<String>,
    pub require_mention: bool,
    pub home_chat: Option<String>,
}

/// Resolved WeChat channel settings.
pub struct WeChatConfig {
    pub allow_from: Vec<String>,
    pub home_chat: Option<String>,
}

/// Resolved Home Assistant settings (shared by the tool and the channel).
pub struct HomeAssistantConfig {
    pub base_url: String,
    pub token: String,
}

/// Resolved Home Assistant channel settings (behavior + shared credentials).
pub struct HomeAssistantChannelConfig {
    pub base_url: String,
    pub token: String,
    pub watch_domains: Vec<String>,
    pub watch_entities: Vec<String>,
    pub ignore_entities: Vec<String>,
    pub watch_all: bool,
    pub cooldown_seconds: u64,
}

/// Resolved HTTP API channel settings.
pub struct ApiConfig {
    pub bind: String,
    /// `0` means "let the system assign an ephemeral port".
    pub port: u16,
    pub server_key: String,
}

// ---------------------------------------------------------------------------
// Masking
// ---------------------------------------------------------------------------

/// What a key shows of itself: its first three and last four characters, and
/// nothing when it is short.
pub open spec fn masked(s: Seq<char>) -> Seq<char> {
    if s.len() <= 7 {
        "***"@
    } else {
        s.take(3) + "..."@ + s.skip(s.len() - 4)
    }
}

/// Show first 3 and last 4 chars; fully mask short keys.
pub fn mask_secret(s: &str) -> (r: String)
    ensures
        r@ == masked(s@),
{
    let n: usize = s.unicode_len();
    if n <= 7 {
        return "***".to_owned();
    }
    let mut out = s.substring_char(0, 3).to_owned();
    out.push_str("...");
    out.push_str(s.substring_char(n - 4, n));
    assert(s@.take(3) =~= s@.subrange(0, 3));
    assert(s@.skip(s@.len() - 4) =~= s@.subrange(s@.len() - 4, s@.len() as int));
    out
}

/// A masked key tells nothing but its first three and last four characters.
pub proof fn mask_hides_the_middle(a: Seq<char>, b: Seq<char>)
    requires
        a.len() > 7,
        b.len() > 7,
        a.take(3) == b.take(3),
        a.skip(a.len() - 4) == b.skip(b.len() - 4),
    ensures
        masked(a) == masked(b),
{
}

/// The quoted form of a text in diagnostics, as `str`'s `Debug` writes it.
pub uninterp spec fn quoted(s: Seq<char>) -> Seq<char>;

/// `str`'s `Debug` form: the text in double quotes, with special characters
/// escaped. It is a function of the text alone.
#[verifier::external_body]
fn quote(s: &str) -> (r: String)
    ensures
        r@ == quoted(s@),
{
    format!("{:?}", s)
}

/// An optional text in diagnostics.
pub open spec fn quoted_opt(o: Option<String>) -> Seq<char> {
    match o {
        Some(s) => "Some("@ + quoted(s@) + ")"@,
        None => "None"@,
    }
}

fn quote_opt(o: &Option<String>) -> (r: String)
    ensures
        r@ == quoted_opt(*o),
{
    match o {
        Some(s) => {
            let mut out = "Some(".to_owned();
            out.push_str(&quote(s));
            out.push_str(")");
            out
        },
        None => "None".to_owned(),
    }
}

impl ModelConfig {
    /// The settings in diagnostics, given the written forms of the texts in
    /// them.
    pub open spec fn shown_with(
        self,
        model: Seq<char>,
        api_key: Seq<char>,
        base_url: Seq<char>,
        aux_model: Seq<char>,
    ) -> Seq<char> {
        "ModelConfig { provider: "@ + self.provider.label_spec() + ", model: "@ + model
            + ", api_key: "@ + api_key + ", base_url: "@ + base_url + ", aux_model: "@ + aux_model
            + ", max_turns: "@ + number::decimal(self.max_turns as nat)
            + ", max_tool_result_bytes: "@ + number::decimal(self.max_tool_result_bytes as nat)
            + ", max_history_messages: "@ + number::decimal(self.max_history_messages as nat)
            + ", llm_timeout_secs: "@ + number::decimal(self.llm_timeout_secs as nat) + " }"@
    }

    /// The settings for diagnostics, given the written forms of the texts in
    /// them.
    pub fn debug_with(&self, model: &str, api_key: &str, base_url: &str, aux_model: &str) -> (r:
        String)
        ensures
            r@ == self.shown_with(model@, api_key@, base_url@, aux_model@),
    {
        let mut out = "ModelConfig { provider: ".to_owned();
        out.push_str(self.provider.label());
        out.push_str(", model: ");
        out.push_str(model);
        out.push_str(", api_key: ");
        out.push_str(api_key);
        out.push_str(", base_url: ");
        out.push_str(base_url);
        out.push_str(", aux_model: ");
        out.push_str(aux_model);
        out.push_str(", max_turns: ");
        out.push_str(&number::write_size(self.max_turns));
        out.push_str(", max_tool_result_bytes: ");
        out.push_str(&number::write_size(self.max_tool_result_bytes));
        out.push_str(", max_history_messages: ");
        out.push_str(&number::write_size(self.max_history_messages));
        out.push_str(", llm_timeout_secs: ");
        out.push_str(&number::write_unsigned(self.llm_timeout_secs));
        out.push_str(" }");
        out
    }

    /// The settings for diagnostics, the key masked.
    pub fn debug_text(&self) -> (r: String)
        ensures
            r@ == self.shown_with(
                quoted(self.model@),
                quoted(masked(self.api_key@)),
                quoted_opt(self.base_url),
                quoted_opt(self.aux_model),
            ),
    {
        self.debug_with(
            &quote(&self.model),
            &quote(&mask_secret(&self.api_key)),
            &quote_opt(&self.base_url),
            &quote_opt(&self.aux_model),
        )
    }

    /// A variant using the cheaper `aux_model`, falling back to the main model.
    pub fn aux_variant(&self) -> (r: ModelConfig)
        ensures
            r == (ModelConfig {
                model: match self.aux_model {
                    Some(m) => m,
                    None => self.model,
                },
                ..*self
            }),
    {
        let model = match &self.aux_model {
            Some(m) => m.clone(),
            None => self.model.clone(),
        };
        ModelConfig {
            provider: self.provider,
            model,
            api_key: self.api_key.clone(),
            base_url: text::clone_opt(&self.base_url),
            aux_model: text::clone_opt(&self.aux_model),
            max_turns: self.max_turns,
            max_tool_result_bytes: self.max_tool_result_bytes,
            max_history_messages: self.max_history_messages,
            llm_timeout_secs: self.llm_timeout_secs,
        }
    }
}

} // verus!
