//! What a resolution of the configuration promises, over the settings that go in and the
//! settings that come out.
use crate::casing;
use crate::config::provider::Provider;
use crate::config::report::ConfigReport;
use crate::config::resolve;
use crate::config::resolved::{ChannelState, RuntimeConfig};
use crate::config::snapshot;
use crate::config::snapshot::ConfigSnapshot;
use crate::config::sources::{ConfigSources, PolicyFileConfig, PolicyRuleFileConfig};
use crate::config::strict;
use crate::domain::policy::{Access, Category, Effect, Matcher, Policy, Rule, Verdict};
use crate::system;
use crate::text;
use crate::text_laws;
use vstd::prelude::*;

verus! {

/// Whether a value comes from the environment, else from the file, else is the default.
pub open spec fn comes_from<T>(got: T, env: Option<T>, file: Option<T>, default: T) -> bool {
    match env {
        Some(v) => got == v,
        None => match file {
            Some(v) => got == v,
            None => got == default,
        },
    }
}

/// Whether a text comes from the environment, else from the file, else is the default.
pub open spec fn text_comes_from(
    got: Seq<char>,
    env: Option<String>,
    file: Option<String>,
    default: Seq<char>,
) -> bool {
    match env {
        Some(v) => got == v@,
        None => match file {
            Some(v) => got == v@,
            None => got == default,
        },
    }
}

/// Whether an optional text comes from the environment, else from the file, else is unset.
pub open spec fn option_comes_from(
    got: Option<String>,
    env: Option<String>,
    file: Option<String>,
) -> bool {
    match env {
        Some(v) => got is Some && got->0@ == v@,
        None => match file {
            Some(v) => got is Some && got->0@ == v@,
            None => got is None,
        },
    }
}

/// Whether an optional text is set and not empty.
pub open spec fn is_set(o: Option<String>) -> bool {
    o is Some && o->0@.len() > 0
}

/// The environment beats the file and the file the built-in default, for every setting
/// that both can hold.
pub proof fn settings_are_layered(s: ConfigSources, r: (RuntimeConfig, ConfigReport))
    requires
        call_ensures(resolve::resolve, (s,), r),
    ensures
        ({
            let m = r.0.model;
            &&& text_comes_from(m.model@, s.env.model, s.file.model, m.provider.default_model_spec())
            &&& option_comes_from(m.base_url, s.env.base_url, s.file.base_url)
            &&& option_comes_from(m.aux_model, s.env.aux_model, s.file.aux_model)
            &&& comes_from(m.max_turns, s.env.max_turns, s.file.max_turns, 30)
            &&& comes_from(
                m.max_tool_result_bytes,
                s.env.max_tool_result_bytes,
                s.file.max_tool_result_bytes,
                16384,
            )
            &&& comes_from(
                m.max_history_messages,
                s.env.max_history_messages,
                s.file.max_history_messages,
                50,
            )
            &&& comes_from(m.llm_timeout_secs, s.env.llm_timeout_secs, s.file.llm_timeout_secs, 180)
        }),
        text_comes_from(
            r.0.maintenance_schedule@,
            s.env.schedule,
            s.file.schedule,
            "0 * * * *"@,
        ),
        option_comes_from(r.0.briefing_schedule, s.env.briefing_schedule, s.file.briefing_schedule),
        comes_from(
            r.0.briefing_workdays_only,
            s.env.briefing_workdays_only,
            s.file.briefing_workdays_only,
            false,
        ),
{
}

/// The memory sweep runs on the schedule of the environment, else of the file, else
/// nightly at three; a blank one, or `off`, `none` or `disabled` in any case, switches it
/// off.
pub proof fn the_sweep_runs_unless_switched_off(
    s: ConfigSources,
    r: (RuntimeConfig, ConfigReport),
)
    requires
        call_ensures(resolve::resolve, (s,), r),
    ensures
        ({
            let set = if s.env.dream_schedule is Some {
                s.env.dream_schedule
            } else {
                s.file.dream_schedule
            };
            match set {
                None => r.0.dream_schedule is Some && r.0.dream_schedule->0@ == "0 3 * * *"@,
                Some(w) => {
                    let word = casing::ascii_lowered(text::trimmed(w@));
                    if word.len() == 0 || word == "off"@ || word == "none"@ || word == "disabled"@ {
                        r.0.dream_schedule is None
                    } else {
                        r.0.dream_schedule is Some && r.0.dream_schedule->0@ == w@
                    }
                },
            }
        }),
{
}

/// What comes from the environment or the home directory alone: the cadence of looking a
/// session over, never zero, and where the databases lie.
pub proof fn single_sources_are_kept(s: ConfigSources, r: (RuntimeConfig, ConfigReport))
    requires
        call_ensures(resolve::resolve, (s,), r),
    ensures
        r.0.home@ == s.home@,
        r.0.review_interval == match s.env.review_interval {
            Some(n) => if n == 0 {
                10
            } else {
                n
            },
            None => 10,
        },
        s.home@.len() > 0 && s.home@.last() != '/' ==> {
            &&& r.0.db_url@ == "turso:"@ + (s.home@.push('/') + "state.db"@)
            &&& r.0.kanban_db_url@ == "turso:"@ + (s.home@.push('/') + "kanban.db"@)
            &&& r.0.memory_db_url@ == "turso:"@ + (s.home@.push('/') + "memory.db"@)
        },
{
    reveal_strlit("state.db");
    reveal_strlit("kanban.db");
    reveal_strlit("memory.db");
}

/// The key of a provider among the credentials.
pub open spec fn key_of(s: ConfigSources, p: Provider) -> Option<String> {
    match p {
        Provider::DeepSeek => s.secrets.deepseek_api_key,
        Provider::OpenAi => s.secrets.openai_api_key,
        Provider::Anthropic => s.secrets.anthropic_api_key,
        Provider::OpenRouter => s.secrets.openrouter_api_key,
        Provider::Codex => None,
    }
}

/// The selected provider's own key is used, and no other one's; an unset key is empty.
pub proof fn the_key_is_the_provider_s_own(s: ConfigSources, r: (RuntimeConfig, ConfigReport))
    requires
        call_ensures(resolve::resolve, (s,), r),
    ensures
        is_set(key_of(s, r.0.model.provider)) ==> r.0.model.api_key@ == key_of(
            s,
            r.0.model.provider,
        )->0@,
        !is_set(key_of(s, r.0.model.provider)) ==> r.0.model.api_key@.len() == 0,
{
}

/// The provider that a canonical name or a short form of it names.
pub open spec fn provider_called(word: Seq<char>, p: Provider) -> bool {
    match p {
        Provider::DeepSeek => word == "deepseek"@ || word == "ds"@,
        Provider::OpenAi => word == "openai"@ || word == "oai"@ || word == "gpt"@,
        Provider::Anthropic => word == "anthropic"@,
        Provider::OpenRouter => word == "openrouter"@ || word == "or"@,
        Provider::Codex => word == "codex"@ || word == "openai-codex"@,
    }
}

proof fn lemma_provider_called(word: Seq<char>, p: Provider)
    ensures
        provider_called(word, p) <==> Provider::named(word) == Some(p),
{
    reveal_strlit("deepseek");
    reveal_strlit("ds");
    reveal_strlit("openai");
    reveal_strlit("oai");
    reveal_strlit("gpt");
    reveal_strlit("anthropic");
    reveal_strlit("openrouter");
    reveal_strlit("or");
    reveal_strlit("codex");
    reveal_strlit("openai-codex");
    assert("ds"@.len() == 2 && "or"@.len() == 2 && "oai"@.len() == 3 && "gpt"@.len() == 3);
    assert("codex"@.len() == 5 && "openai"@.len() == 6 && "deepseek"@.len() == 8);
    assert("anthropic"@.len() == 9 && "openrouter"@.len() == 10 && "openai-codex"@.len() == 12);
    assert("ds"@[0] == 'd' && "or"@[0] == 'o' && "oai"@[0] == 'o' && "gpt"@[0] == 'g');
}

/// A word names a provider whatever its case and the space around it; a word that names
/// none is an error.
pub proof fn words_name_providers(s: &str, r: Result<Provider, String>)
    requires
        call_ensures(Provider::parse, (s,), r),
    ensures
        match r {
            Ok(p) => provider_called(casing::lowercase(text::trimmed(s@)), p),
            Err(_) => forall|p: Provider|
                !#[trigger] provider_called(casing::lowercase(text::trimmed(s@)), p),
        },
{
    let word = casing::lowercase(text::trimmed(s@));
    if r is Ok {
        lemma_provider_called(word, r->Ok_0);
    } else {
        assert forall|p: Provider| !#[trigger] provider_called(word, p) by {
            lemma_provider_called(word, p);
        }
    }
}

/// The word that selects the provider: the environment's, else the file's, in small letters
/// and without space around it; none where neither names one.
pub open spec fn selecting_word(s: ConfigSources) -> Option<Seq<char>> {
    match s.env.provider {
        Some(w) => Some(casing::lowercase(text::trimmed(w@))),
        None => match s.file.provider {
            Some(w) => Some(casing::lowercase(text::trimmed(w@))),
            None => None,
        },
    }
}

/// Whether a word names some provider.
pub open spec fn names_some(word: Seq<char>) -> bool {
    exists|p: Provider| #[trigger] provider_called(word, p)
}

proof fn lemma_names_some(word: Seq<char>)
    ensures
        names_some(word) <==> Provider::named(word) is Some,
{
    match Provider::named(word) {
        Some(p) => {
            lemma_provider_called(word, p);
        },
        None => {
            assert forall|p: Provider| !#[trigger] provider_called(word, p) by {
                lemma_provider_called(word, p);
            }
        },
    }
}

/// The provider is the one that the environment names, else the file; with neither, or
/// with a name that means nothing, it is DeepSeek.
pub proof fn the_named_provider_is_selected(s: ConfigSources, r: (RuntimeConfig, ConfigReport))
    requires
        call_ensures(resolve::resolve, (s,), r),
    ensures
        match selecting_word(s) {
            Some(word) => if names_some(word) {
                provider_called(word, r.0.model.provider)
            } else {
                r.0.model.provider == Provider::DeepSeek
            },
            None => r.0.model.provider == Provider::DeepSeek,
        },
{
    if selecting_word(s) is Some {
        let word = selecting_word(s)->0;
        lemma_names_some(word);
        lemma_provider_called(word, r.0.model.provider);
    }
}

/// Each ingress channel runs exactly where it is enabled and its credentials are set, with
/// the settings of its own table; enabled without a credential it is misconfigured, and
/// otherwise off.
pub proof fn channels_run_where_enabled(s: ConfigSources, r: (RuntimeConfig, ConfigReport))
    requires
        call_ensures(resolve::resolve, (s,), r),
        s.file.channels is Some,
    ensures
        ({
            let c = s.file.channels->0;
            let on = c.feishu is Some && c.feishu->0.enabled;
            let keyed = is_set(s.secrets.feishu_app_id) && is_set(s.secrets.feishu_app_secret);
            &&& r.0.feishu is Disabled <==> !on
            &&& r.0.feishu is Misconfigured <==> on && !keyed
            &&& r.0.feishu matches ChannelState::Ready(f) ==> {
                &&& f.app_id@ == s.secrets.feishu_app_id->0@
                &&& f.app_secret@ == s.secrets.feishu_app_secret->0@
                &&& f.allow_from@ == c.feishu->0.allow_from@
                &&& f.require_mention == (c.feishu->0.require_mention != Some(false))
                &&& f.home_chat == c.feishu->0.home_chat
            }
        }),
        ({
            let c = s.file.channels->0;
            let on = c.telegram is Some && c.telegram->0.enabled;
            let keyed = is_set(s.secrets.telegram_bot_token);
            &&& r.0.telegram is Disabled <==> !on
            &&& r.0.telegram is Misconfigured <==> on && !keyed
            &&& r.0.telegram matches ChannelState::Ready(f) ==> {
                &&& f.bot_token@ == s.secrets.telegram_bot_token->0@
                &&& f.allow_from@ == c.telegram->0.allow_from@
                &&& f.allowed_chats@ == c.telegram->0.allowed_chats@
                &&& f.require_mention == (c.telegram->0.require_mention != Some(false))
                &&& f.home_chat == c.telegram->0.home_chat
            }
        }),
        ({
            let c = s.file.channels->0;
            let on = c.wechat is Some && c.wechat->0.enabled;
            &&& r.0.wechat is Ready <==> on
            &&& r.0.wechat is Disabled <==> !on
            &&& r.0.wechat matches ChannelState::Ready(f) ==> {
                &&& f.allow_from@ == c.wechat->0.allow_from@
                &&& f.home_chat == c.wechat->0.home_chat
            }
        }),
        ({
            let c = s.file.channels->0;
            let on = c.homeassistant is Some && c.homeassistant->0.enabled;
            let keyed = is_set(s.secrets.hass_token);
            &&& r.0.homeassistant_channel is Disabled <==> !on
            &&& r.0.homeassistant_channel is Misconfigured <==> on && !keyed
            &&& r.0.homeassistant_channel matches ChannelState::Ready(f) ==> {
                &&& f.token@ == s.secrets.hass_token->0@
                &&& f.watch_domains@ == c.homeassistant->0.watch_domains@
                &&& f.watch_entities@ == c.homeassistant->0.watch_entities@
                &&& f.ignore_entities@ == c.homeassistant->0.ignore_entities@
                &&& f.watch_all == c.homeassistant->0.watch_all
                &&& f.cooldown_seconds == match c.homeassistant->0.cooldown_seconds {
                    Some(n) => n,
                    None => 30,
                }
            }
        }),
{
}

/// Without a table of channels only the API channel runs.
pub proof fn undeclared_channels_are_off(s: ConfigSources, r: (RuntimeConfig, ConfigReport))
    requires
        call_ensures(resolve::resolve, (s,), r),
        s.file.channels is None,
    ensures
        r.0.feishu is Disabled,
        r.0.telegram is Disabled,
        r.0.wechat is Disabled,
        r.0.homeassistant_channel is Disabled,
        r.0.api is Ready,
{
}

/// The API channel always runs: on loopback, at a port that the system picks, unless its
/// table is enabled, which needs a key and may name its address and port. Its key is the
/// configured one; without one, a loopback channel gets a generated key of 32 hexadecimal
/// digits.
pub proof fn the_api_is_reached_with_its_key(s: ConfigSources, r: (RuntimeConfig, ConfigReport))
    requires
        call_ensures(resolve::resolve, (s,), r),
    ensures
        ({
            let table = if s.file.channels is Some {
                s.file.channels->0.api
            } else {
                None
            };
            let external = table is Some && table->0.enabled;
            let key = s.secrets.api_server_key;
            &&& r.0.api is Misconfigured <==> external && !is_set(key)
            &&& !(r.0.api is Disabled)
            &&& r.0.api matches ChannelState::Ready(a) ==> {
                &&& is_set(key) ==> a.server_key@ == key->0@
                &&& !is_set(key) ==> system::is_token(a.server_key@) && system::is_drawn(
                    a.server_key@,
                )
                &&& !external ==> a.bind@ == "127.0.0.1"@ && a.port == 0
                &&& external ==> a.port == match table->0.port {
                    Some(p) => p,
                    None => 8765,
                }
                &&& external && is_set(table->0.bind) ==> a.bind@ == table->0.bind->0@
                &&& external && !is_set(table->0.bind) ==> a.bind@ == "127.0.0.1"@
            }
        }),
{
}

proof fn lemma_unslashed(s: Seq<char>)
    ensures
        resolve::unslashed(s).is_prefix_of(s),
        resolve::unslashed(s).len() == 0 || resolve::unslashed(s).last() != '/',
        forall|k: int| resolve::unslashed(s).len() <= k < s.len() ==> #[trigger] s[k] == '/',
    decreases s.len(),
{
    if s.len() > 0 && s.last() == '/' {
        let t = s.drop_last();
        lemma_unslashed(t);
        assert forall|k: int| resolve::unslashed(s).len() <= k < s.len() implies #[trigger] s[k]
            == '/' by {
            if k < t.len() {
                assert(t[k] == s[k]);
            }
        }
    }
}

/// The Home Assistant tool is there exactly where its token is set, and calls the
/// configured address, else the usual one, without slashes at its end.
pub proof fn the_home_tool_needs_its_token(s: ConfigSources, r: (RuntimeConfig, ConfigReport))
    requires
        call_ensures(resolve::resolve, (s,), r),
    ensures
        r.0.homeassistant_tool is Some <==> is_set(s.secrets.hass_token),
        r.0.homeassistant_tool matches Some(t) ==> {
            let given = if is_set(s.secrets.hass_url) {
                s.secrets.hass_url->0@
            } else {
                "http://homeassistant.local:8123"@
            };
            &&& t.token@ == s.secrets.hass_token->0@
            &&& t.base_url@.is_prefix_of(given)
            &&& t.base_url@.len() == 0 || t.base_url@.last() != '/'
            &&& forall|k: int| t.base_url@.len() <= k < given.len() ==> #[trigger] given[k] == '/'
        },
{
    let given = if is_set(s.secrets.hass_url) {
        s.secrets.hass_url->0@
    } else {
        "http://homeassistant.local:8123"@
    };
    lemma_unslashed(given);
}

/// The gateway starts exactly where the environment could be read, the provider's name
/// means something, and no enabled channel that must not start without its credential
/// lacks it. A missing model key, an invalid rule or a Home Assistant channel without its
/// token stops nothing.
pub proof fn the_gateway_starts_unless_something_is_fatal(
    s: ConfigSources,
    c: ConfigSnapshot,
    r: Result<(), String>,
)
    requires
        call_ensures(ConfigSnapshot::from_sources, (s,), c),
        call_ensures(ConfigSnapshot::validate_gateway, (&c,), r),
        s.file.channels is Some,
        selecting_word(s) is Some,
    ensures
        ({
            let t = s.file.channels->0;
            r is Ok <==> {
                &&& s.env_error is None
                &&& names_some(selecting_word(s)->0)
                &&& t.feishu is Some && t.feishu->0.enabled ==> is_set(s.secrets.feishu_app_id)
                    && is_set(s.secrets.feishu_app_secret)
                &&& t.telegram is Some && t.telegram->0.enabled ==> is_set(
                    s.secrets.telegram_bot_token,
                )
                &&& t.api is Some && t.api->0.enabled ==> is_set(s.secrets.api_server_key)
            }
        }),
{
    let spare = choose|spare: Seq<char>|
        system::is_token(spare) && #[trigger] resolve::is_resolution(s, spare, c.runtime, c.report);
    snapshot::gateway_starts_unless(s, spare, c, r);
    lemma_names_some(selecting_word(s)->0);
}

/// An agent turn is possible exactly where the environment could be read and the
/// provider's name means something: no channel's problem stands in its way.
pub proof fn turns_run_unless_the_model_is_unusable(
    s: ConfigSources,
    c: ConfigSnapshot,
    r: Result<(), String>,
)
    requires
        call_ensures(ConfigSnapshot::from_sources, (s,), c),
        call_ensures(ConfigSnapshot::validate_agent, (&c,), r),
        selecting_word(s) is Some,
    ensures
        r is Ok <==> s.env_error is None && names_some(selecting_word(s)->0),
{
    let spare = choose|spare: Seq<char>|
        system::is_token(spare) && #[trigger] resolve::is_resolution(s, spare, c.runtime, c.report);
    snapshot::agent_starts_unless(s, spare, c, r);
    lemma_names_some(selecting_word(s)->0);
}

/// Whether a word in any case, space around it aside, is the given one.
pub open spec fn reads(word: Seq<char>, as_word: Seq<char>) -> bool {
    casing::lowercase(text::trimmed(word)) == as_word
}

/// Whether a rule is what an entry of the policy table states.
pub open spec fn states(e: PolicyRuleFileConfig, rule: Rule) -> bool {
    &&& e.value@.len() > 0
    &&& rule.value@ == e.value@
    &&& match rule.category {
        Category::Shell => reads(e.category@, "shell"@),
        Category::File => reads(e.category@, "file"@),
        Category::Network => reads(e.category@, "network"@) || reads(e.category@, "net"@),
        Category::HomeAssistant => reads(e.category@, "homeassistant"@) || reads(
            e.category@,
            "ha"@,
        ),
    }
    &&& match rule.matcher {
        Matcher::Prefix => reads(e.matcher@, "prefix"@),
        Matcher::Suffix => reads(e.matcher@, "suffix"@),
        Matcher::Exact => reads(e.matcher@, "exact"@),
        Matcher::Contains => reads(e.matcher@, "contains"@),
    }
    &&& match rule.effect {
        Effect::Allow => reads(e.effect@, "allow"@),
        Effect::Deny => reads(e.effect@, "deny"@),
    }
    &&& match rule.access {
        None => e.access is None,
        Some(Access::Read) => e.access is Some && reads(e.access->0@, "read"@),
        Some(Access::Write) => e.access is Some && reads(e.access->0@, "write"@),
    }
    &&& match rule.channels {
        None => e.channels is None || e.channels->0@.len() == 0,
        Some(list) => list@.len() > 0 && e.channels is Some && e.channels->0@ == list@,
    }
    &&& rule.include_dangerous == (e.include_dangerous == Some(true))
    &&& rule.unattended == (e.unattended == Some(true))
}

/// An entry of the policy table becomes the rule that it states, and no other.
pub proof fn entries_become_the_rules_they_state(e: PolicyRuleFileConfig, r: Option<Rule>)
    requires
        call_ensures(resolve::build_rule, (e,), r),
    ensures
        r is Some ==> states(e, r->0),
{
}

/// An entry whose words all mean something and whose value is not empty becomes a rule.
pub proof fn meaningful_entries_become_rules(e: PolicyRuleFileConfig, r: Option<Rule>)
    requires
        call_ensures(resolve::build_rule, (e,), r),
        e.value@.len() > 0,
        reads(e.category@, "shell"@) || reads(e.category@, "file"@) || reads(
            e.category@,
            "network"@,
        ) || reads(e.category@, "net"@) || reads(e.category@, "homeassistant"@) || reads(
            e.category@,
            "ha"@,
        ),
        reads(e.matcher@, "prefix"@) || reads(e.matcher@, "suffix"@) || reads(
            e.matcher@,
            "exact"@,
        ) || reads(e.matcher@, "contains"@),
        reads(e.effect@, "allow"@) || reads(e.effect@, "deny"@),
        e.access is Some ==> reads(e.access->0@, "read"@) || reads(e.access->0@, "write"@),
    ensures
        r is Some,
{
}

proof fn lemma_rules_of(entries: Seq<PolicyRuleFileConfig>)
    requires
        forall|i: int| 0 <= i < entries.len() ==> resolve::rule_of(#[trigger] entries[i]) is Some,
    ensures
        resolve::rules_of(entries).len() == entries.len(),
        forall|i: int|
            0 <= i < entries.len() ==> resolve::rule_of(entries[i]) == Some(
                #[trigger] resolve::rules_of(entries)[i],
            ),
    decreases entries.len(),
{
    if entries.len() > 0 {
        let init = entries.drop_last();
        assert forall|i: int| 0 <= i < init.len() implies resolve::rule_of(
            #[trigger] init[i],
        ) is Some by {
            assert(init[i] == entries[i]);
        }
        lemma_rules_of(init);
        assert(entries[entries.len() - 1] == entries.last());
    }
}

proof fn lemma_invalid_of(entries: Seq<PolicyRuleFileConfig>)
    ensures
        forall|k: int|
            #[trigger] resolve::invalid_of(entries).contains(k) <==> 0 <= k < entries.len()
                && resolve::rule_of(entries[k]) is None,
        resolve::invalid_of(entries).len() == 0 ==> forall|k: int|
            0 <= k < entries.len() ==> resolve::rule_of(#[trigger] entries[k]) is Some,
    decreases entries.len(),
{
    if entries.len() > 0 {
        let init = entries.drop_last();
        lemma_invalid_of(init);
        let before = resolve::invalid_of(init);
        let now = resolve::invalid_of(entries);
        assert forall|k: int| #[trigger] now.contains(k) <==> 0 <= k < entries.len()
            && resolve::rule_of(entries[k]) is None by {
            if now.contains(k) {
                let j = choose|j: int| 0 <= j < now.len() && now[j] == k;
                if j < before.len() {
                    assert(before[j] == k);
                    assert(before.contains(k));
                }
            }
            if 0 <= k < init.len() && resolve::rule_of(entries[k]) is None {
                assert(init[k] == entries[k]);
                assert(before.contains(k));
                let j = choose|j: int| 0 <= j < before.len() && before[j] == k;
                assert(now[j] == k);
            }
            if k == entries.len() - 1 && resolve::rule_of(entries[k]) is None {
                assert(now[now.len() - 1] == k);
            }
        }
        if now.len() == 0 {
            assert forall|k: int| 0 <= k < entries.len() implies resolve::rule_of(
                #[trigger] entries[k],
            ) is Some by {
                assert(!now.contains(k));
            }
        }
    }
}

/// Where every entry of the policy table is valid, the policy has one rule for each, in
/// their order, and the table's default, or asking where it names none.
pub proof fn valid_tables_become_policies(s: ConfigSources, r: (RuntimeConfig, ConfigReport))
    requires
        call_ensures(resolve::resolve, (s,), r),
        s.file.policy is Some,
        r.0.policy.invalid@.len() == 0,
    ensures
        ({
            let t = s.file.policy->0;
            let rules = r.0.policy.policy.rule_list();
            &&& r.0.policy.configured
            &&& rules.len() == t.rule@.len()
            &&& forall|i: int| 0 <= i < rules.len() ==> states(t.rule@[i], #[trigger] rules[i])
            &&& r.0.policy.policy.normal_verdict() == match t.default_normal {
                Some(w) => if reads(w@, "allow"@) {
                    Verdict::Allow
                } else if reads(w@, "deny"@) {
                    Verdict::Deny
                } else {
                    Verdict::Ask
                },
                None => Verdict::Ask,
            }
        }),
{
    reveal_strlit("allow");
    reveal_strlit("deny");
    reveal_strlit("ask");
    assert("allow"@.len() == 5 && "deny"@.len() == 4 && "ask"@.len() == 3);
    let t = s.file.policy->0;
    lemma_invalid_of(t.rule@);
    assert(resolve::as_ints(r.0.policy.invalid@).len() == 0);
    lemma_rules_of(t.rule@);
    let rules = r.0.policy.policy.rule_list();
    assert forall|i: int| 0 <= i < rules.len() implies states(t.rule@[i], #[trigger] rules[i]) by {
        assert(resolve::rule_of(t.rule@[i]) == Some(rules[i]));
    }
}

/// The positions that a policy report lists as invalid are those of the entries that
/// become no rule, and those only.
pub proof fn invalid_entries_are_listed(
    s: ConfigSources,
    r: (RuntimeConfig, ConfigReport),
    k: usize,
    e: Option<Rule>,
)
    requires
        call_ensures(resolve::resolve, (s,), r),
        s.file.policy is Some,
        k < s.file.policy->0.rule@.len(),
        call_ensures(resolve::build_rule, (s.file.policy->0.rule@[k as int],), e),
    ensures
        r.0.policy.invalid@.contains(k) <==> e is None,
{
    let entries = s.file.policy->0.rule@;
    let listed = resolve::as_ints(r.0.policy.invalid@);
    lemma_invalid_of(entries);
    assert(listed.contains(k as int) == r.0.policy.invalid@.contains(k)) by {
        if listed.contains(k as int) {
            let j = choose|j: int| 0 <= j < listed.len() && listed[j] == k as int;
            assert(r.0.policy.invalid@[j] == k);
        }
        if r.0.policy.invalid@.contains(k) {
            let j = choose|j: int|
                0 <= j < r.0.policy.invalid@.len() && r.0.policy.invalid@[j] == k;
            assert(listed[j] == k as int);
        }
    }
}

proof fn lemma_nonempty_apart(a: Seq<Seq<char>>, b: Seq<Seq<char>>)
    ensures
        resolve::nonempty_parts(a + b) == resolve::nonempty_parts(a) + resolve::nonempty_parts(b),
    decreases b.len(),
{
    if b.len() == 0 {
        assert(a + b =~= a);
        assert(resolve::nonempty_parts(a) + resolve::nonempty_parts(b) =~= resolve::nonempty_parts(a));
    } else {
        lemma_nonempty_apart(a, b.drop_last());
        assert((a + b).drop_last() =~= a + b.drop_last());
        assert((a + b).last() == b.last());
        assert(resolve::nonempty_parts(a + b) =~= resolve::nonempty_parts(a)
            + resolve::nonempty_parts(b));
    }
}

/// A list of skill directories is cut at its colons: the list of two lists with a colon
/// between names what the one and then the other names.
pub proof fn skill_lists_are_cut_at_colons(
    a: &Option<String>,
    b: &Option<String>,
    both: &Option<String>,
    x: Vec<String>,
    y: Vec<String>,
    z: Vec<String>,
)
    requires
        call_ensures(resolve::skills_dirs, (a,), x),
        call_ensures(resolve::skills_dirs, (b,), y),
        call_ensures(resolve::skills_dirs, (both,), z),
        a is Some,
        b is Some,
        both is Some,
        both->0@ == a->0@ + seq![':'] + b->0@,
    ensures
        text::views(z@) == text::views(x@) + text::views(y@),
{
    text_laws::lemma_pieces_apart(a->0@, ':', b->0@);
    lemma_nonempty_apart(text::pieces(a->0@, ':'), text::pieces(b->0@, ':'));
}

/// A list without a colon names the one directory, and an empty list or none at all names
/// none.
pub proof fn single_skill_directories_are_kept(list: &Option<String>, r: Vec<String>)
    requires
        call_ensures(resolve::skills_dirs, (list,), r),
        list matches Some(s) ==> !s@.contains(':'),
    ensures
        list is None ==> r@.len() == 0,
        list matches Some(s) ==> s@.len() == 0 ==> r@.len() == 0,
        list matches Some(s) ==> s@.len() > 0 ==> r@.len() == 1 && r@[0]@ == s@,
{
    assert(text::views(r@).len() == r@.len());
    if let Some(s) = list {
        text_laws::lemma_one_piece(s@, ':');
        let p = text::pieces(s@, ':');
        reveal_with_fuel(resolve::nonempty_parts, 3);
        assert(p.drop_last() =~= Seq::empty());
        if s@.len() > 0 {
            assert(text::views(r@) == resolve::nonempty_parts(p));
            assert(text::views(r@)[0] == s@);
        }
    }
}

/// Read strictly, a policy table with an entry that becomes no rule gives no rules and
/// asks.
pub proof fn invalid_strict_tables_ask(
    t: Option<PolicyFileConfig>,
    p: Policy,
    k: int,
    e: Option<Rule>,
)
    requires
        call_ensures(strict::policy_config, (t,), p),
        t is Some,
        0 <= k < t->0.rule@.len(),
        call_ensures(resolve::build_rule, (t->0.rule@[k],), e),
        e is None,
    ensures
        p.rule_list().len() == 0,
        p.normal_verdict() == Verdict::Ask,
{
    let entries = t->0.rule@;
    lemma_invalid_of(entries);
    assert(resolve::invalid_of(entries).contains(k));
}

/// Read strictly, a policy has no rules where there is no table, and otherwise none but
/// those that the table's entries state, one for each, in their order.
pub proof fn strict_rules_are_the_entries(t: Option<PolicyFileConfig>, p: Policy)
    requires
        call_ensures(strict::policy_config, (t,), p),
    ensures
        t is None ==> p.rule_list().len() == 0 && p.normal_verdict() == Verdict::Ask,
        p.rule_list().len() > 0 ==> t is Some && p.rule_list().len() == t->0.rule@.len(),
        forall|i: int|
            0 <= i < p.rule_list().len() ==> states(t->0.rule@[i], #[trigger] p.rule_list()[i]),
        t matches Some(c) ==> (forall|k: int|
            0 <= k < c.rule@.len() ==> resolve::rule_of(#[trigger] c.rule@[k]) is Some)
            ==> p.rule_list().len() == c.rule@.len(),
{
    if let Some(c) = t {
        let entries = c.rule@;
        lemma_invalid_of(entries);
        if resolve::invalid_of(entries).len() == 0 {
            lemma_rules_of(entries);
            let rules = p.rule_list();
            assert forall|i: int| 0 <= i < rules.len() implies states(
                entries[i],
                #[trigger] rules[i],
            ) by {
                assert(resolve::rule_of(entries[i]) == Some(rules[i]));
            }
        } else {
            let bad = resolve::invalid_of(entries);
            assert(bad.contains(bad[0]));
        }
    }
}

} // verus!
