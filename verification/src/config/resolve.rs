//! How the sources become a snapshot.
use crate::casing;
use crate::config::provider;
use crate::config::provider::Provider;
use crate::config::report;
use crate::config::report::{ConfigIssue, ConfigReport, IssueSeverity, Origin};
use crate::config::resolved::{
    ApiConfig, ChannelState, FeishuConfig, HomeAssistantChannelConfig, HomeAssistantConfig,
    ModelConfig, PolicyReport, RuntimeConfig, TelegramConfig, WeChatConfig, DEFAULT_API_BIND,
    DEFAULT_API_PORT, DEFAULT_COOLDOWN_SECONDS, DEFAULT_DREAM_SCHEDULE, DEFAULT_HASS_URL,
    DEFAULT_LLM_TIMEOUT_SECS, DEFAULT_MAINTENANCE_SCHEDULE, DEFAULT_MAX_HISTORY_MESSAGES,
    DEFAULT_MAX_TOOL_RESULT_BYTES, DEFAULT_MAX_TURNS, DEFAULT_REVIEW_INTERVAL,
};
use crate::config::sources::{
    ApiFileConfig, ChannelsFileConfig, ConfigSources, FeishuFileConfig,
    HomeAssistantChannelFileConfig, PolicyFileConfig, PolicyRuleFileConfig, Secrets,
    TelegramFileConfig, WeChatFileConfig,
};
use crate::domain::policy::{Access, Category, Effect, Matcher, Policy, Rule, Verdict};
use crate::number;
use crate::path;
use crate::system;
use crate::text;
use vstd::prelude::*;
use vstd::string::*;

verus! {

// ---------------------------------------------------------------------------
// Precedence
// ---------------------------------------------------------------------------

/// The text that a value resolves to: environment, then file, then default.
pub open spec fn chosen(env: Option<String>, file: Option<String>, default: Seq<char>) -> Seq<char> {
    match env {
        Some(v) => v@,
        None => match file {
            Some(v) => v@,
            None => default,
        },
    }
}

/// Where a value comes from.
pub open spec fn origin(env: Option<String>, file: Option<String>) -> Origin {
    if env is Some {
        Origin::Env
    } else if file is Some {
        Origin::File
    } else {
        Origin::Default
    }
}

/// Environment, then file, then default, with where the value came from.
pub fn pick(env: &Option<String>, file: &Option<String>, default: &str) -> (r: (String, Origin))
    ensures
        r.0@ == chosen(*env, *file, default@),
        r.1 == origin(*env, *file),
{
    match (env, file) {
        (Some(v), _) => (v.clone(), Origin::Env),
        (None, Some(v)) => (v.clone(), Origin::File),
        (None, None) => (default.to_owned(), Origin::Default),
    }
}

// ---------------------------------------------------------------------------
// Schedules and directories
// ---------------------------------------------------------------------------

/// Whether a configured memory-sweep schedule switches the sweep off.
pub open spec fn is_off(s: Seq<char>) -> bool {
    let t = text::trimmed(s);
    let w = casing::ascii_lowered(t);
    t.len() == 0 || w == "off"@ || w == "none"@ || w == "disabled"@
}

/// The memory-sweep schedule in effect: the default when nothing is configured,
/// none when it is switched off, and the configured expression otherwise.
pub open spec fn dream_schedule(configured: Option<String>) -> Option<Seq<char>> {
    match configured {
        Some(s) => if is_off(s@) {
            None
        } else {
            Some(s@)
        },
        None => Some(DEFAULT_DREAM_SCHEDULE@),
    }
}

/// The memory-sweep schedule in effect.
pub fn resolve_dream_schedule(configured: Option<String>) -> (r: Option<String>)
    ensures
        text::opt_text(r) == dream_schedule(configured),
{
    match configured {
        Some(s) => {
            let t = text::trim(&s);
            let w = casing::ascii_lower_text(t);
            if t.is_empty() || text::same(&w, "off") || text::same(&w, "none") || text::same(
                &w,
                "disabled",
            ) {
                None
            } else {
                Some(s)
            }
        },
        None => Some(DEFAULT_DREAM_SCHEDULE.to_owned()),
    }
}

/// The texts of `parts` that are not empty, in order.
pub open spec fn nonempty_parts(parts: Seq<Seq<char>>) -> Seq<Seq<char>>
    decreases parts.len(),
{
    if parts.len() == 0 {
        Seq::empty()
    } else {
        let init = nonempty_parts(parts.drop_last());
        if parts.last().len() == 0 {
            init
        } else {
            init.push(parts.last())
        }
    }
}

/// The extra skill directories of a colon-separated list.
pub open spec fn skill_dirs(list: Option<String>) -> Seq<Seq<char>> {
    match list {
        Some(s) => nonempty_parts(text::pieces(s@, ':')),
        None => Seq::empty(),
    }
}

/// The extra skill directories of a colon-separated list, order preserved.
pub fn skills_dirs(list: &Option<String>) -> (r: Vec<String>)
    ensures
        text::views(r@) == skill_dirs(*list),
{
    broadcast use text::lemma_views_push;

    let mut out: Vec<String> = Vec::new();
    match list {
        Some(s) => {
            let parts = text::split(s, ':');
            let mut i: usize = 0;
            assert(text::views(out@) =~= nonempty_parts(text::views(parts@).take(0)));
            while i < parts.len()
                invariant
                    i <= parts.len(),
                    text::views(out@) == nonempty_parts(text::views(parts@).take(i as int)),
                decreases parts.len() - i,
            {
                assert(text::views(parts@).take(i + 1).drop_last() =~= text::views(parts@).take(
                    i as int,
                ));
                if !parts[i].as_str().is_empty() {
                    out.push(parts[i].clone());
                }
                i = i + 1;
            }
            assert(text::views(parts@).take(i as int) =~= text::views(parts@));
        },
        None => {
            assert(text::views(out@) =~= Seq::<Seq<char>>::empty());
        },
    }
    out
}

/// The database URL of a file in the home directory.
pub open spec fn database_url(home: Seq<char>, file: Seq<char>) -> Seq<char> {
    "turso:"@ + path::joined(home, file)
}

/// The database URL of a file in the home directory.
pub fn db_url(home: &str, file: &str) -> (r: String)
    ensures
        r@ == database_url(home@, file@),
{
    let mut out = "turso:".to_owned();
    out.push_str(&path::join(home, file));
    out
}

// ---------------------------------------------------------------------------
// Policy
// ---------------------------------------------------------------------------

/// A rule entry's channel scope: an empty list counts as none.
pub open spec fn channel_scope(c: Option<Vec<String>>) -> Option<Vec<String>> {
    match c {
        Some(list) => if list@.len() == 0 {
            None
        } else {
            c
        },
        None => None,
    }
}

/// The rule that an entry states, given what its words parse to; none when a
/// word means nothing or the value is empty.
pub open spec fn rule_with(
    r: PolicyRuleFileConfig,
    category: Option<Category>,
    matcher: Option<Matcher>,
    access: Option<Access>,
    effect: Option<Effect>,
) -> Option<Rule> {
    if r.value@.len() == 0 || category is None || matcher is None || (r.access is Some && access
        is None) || effect is None {
        None
    } else {
        Some(
            Rule {
                channels: channel_scope(r.channels),
                category: category->0,
                matcher: matcher->0,
                value: r.value,
                access: if r.access is Some {
                    access
                } else {
                    None
                },
                effect: effect->0,
                include_dangerous: r.include_dangerous == Some(true),
                unattended: r.unattended == Some(true),
            },
        )
    }
}

/// The rule that an entry states, given what its words parse to.
pub fn rule_from_parts(
    r: PolicyRuleFileConfig,
    category: Option<Category>,
    matcher: Option<Matcher>,
    access: Option<Access>,
    effect: Option<Effect>,
) -> (out: Option<Rule>)
    ensures
        out == rule_with(r, category, matcher, access, effect),
{
    if r.value.as_str().is_empty() {
        return None;
    }
    if r.access.is_some() && access.is_none() {
        return None;
    }
    let access = if r.access.is_some() {
        access
    } else {
        None
    };
    match (category, matcher, effect) {
        (Some(category), Some(matcher), Some(effect)) => {
            let channels = match r.channels {
                Some(list) => {
                    if list.is_empty() {
                        None
                    } else {
                        Some(list)
                    }
                },
                None => None,
            };
            let include_dangerous = match r.include_dangerous {
                Some(b) => b,
                None => false,
            };
            let unattended = match r.unattended {
                Some(b) => b,
                None => false,
            };
            Some(
                Rule {
                    channels,
                    category,
                    matcher,
                    value: r.value,
                    access,
                    effect,
                    include_dangerous,
                    unattended,
                },
            )
        },
        _ => None,
    }
}

/// A configuration word as it is compared: trimmed and lower-cased.
pub open spec fn folded(s: Seq<char>) -> Seq<char> {
    casing::lowercase(text::trimmed(s))
}

/// The rule that an entry states.
pub open spec fn rule_of(r: PolicyRuleFileConfig) -> Option<Rule> {
    rule_with(
        r,
        Category::named(folded(r.category@)),
        Matcher::named(folded(r.matcher@)),
        match r.access {
            Some(a) => Access::named(folded(a@)),
            None => None,
        },
        Effect::named(folded(r.effect@)),
    )
}

/// The rule that an entry states, or none when the entry is invalid.
pub fn build_rule(r: PolicyRuleFileConfig) -> (out: Option<Rule>)
    ensures
        out == rule_of(r),
{
    let category = Category::parse(&r.category);
    let matcher = Matcher::parse(&r.matcher);
    let access = match &r.access {
        Some(a) => Access::parse(a),
        None => None,
    };
    let effect = Effect::parse(&r.effect);
    rule_from_parts(r, category, matcher, access, effect)
}

/// The rules that valid entries state, in order.
pub open spec fn rules_of(entries: Seq<PolicyRuleFileConfig>) -> Seq<Rule>
    decreases entries.len(),
{
    if entries.len() == 0 {
        Seq::empty()
    } else {
        let init = rules_of(entries.drop_last());
        match rule_of(entries.last()) {
            Some(rule) => init.push(rule),
            None => init,
        }
    }
}

/// The positions of the invalid entries, in order.
pub open spec fn invalid_of(entries: Seq<PolicyRuleFileConfig>) -> Seq<int>
    decreases entries.len(),
{
    if entries.len() == 0 {
        Seq::empty()
    } else {
        let init = invalid_of(entries.drop_last());
        match rule_of(entries.last()) {
            Some(rule) => init,
            None => init.push(entries.len() - 1),
        }
    }
}

/// The warning for the invalid entry at position `i`.
pub open spec fn invalid_rule_issue(i: int) -> report::Issue {
    report::Issue {
        path: "policy.rule"@,
        severity: IssueSeverity::Warning,
        message: "[[policy.rule]] #"@ + number::signed(i) + " is invalid, ignoring it"@,
    }
}

/// The warnings for invalid entries, in order.
pub open spec fn policy_issues(entries: Seq<PolicyRuleFileConfig>) -> Seq<report::Issue> {
    let bad = invalid_of(entries);
    Seq::new(bad.len(), |k: int| invalid_rule_issue(bad[k]))
}

/// The fallback verdict that the `[policy]` table sets.
pub open spec fn default_verdict(word: Option<String>) -> Verdict {
    match word {
        Some(w) => match Verdict::named(folded(w@)) {
            Some(v) => v,
            None => Verdict::Ask,
        },
        None => Verdict::Ask,
    }
}

/// Positions as integers.
pub open spec fn as_ints(v: Seq<usize>) -> Seq<int> {
    Seq::new(v.len(), |i: int| v[i] as int)
}

/// Whether `out` is what the optional `[policy]` table resolves to.
pub open spec fn is_policy(cfg: Option<PolicyFileConfig>, out: PolicyReport) -> bool {
    match cfg {
        Some(c) => {
            &&& out.configured
            &&& out.policy.rule_list() == rules_of(c.rule@)
            &&& out.policy.normal_verdict() == default_verdict(c.default_normal)
            &&& as_ints(out.invalid@) == invalid_of(c.rule@)
        },
        None => {
            &&& !out.configured
            &&& out.policy.rule_list() == Seq::<Rule>::empty()
            &&& out.policy.normal_verdict() == Verdict::Ask
            &&& out.invalid@.len() == 0
        },
    }
}

/// The warnings that the optional `[policy]` table gives.
pub open spec fn table_issues(cfg: Option<PolicyFileConfig>) -> Seq<report::Issue> {
    match cfg {
        Some(c) => policy_issues(c.rule@),
        None => Seq::empty(),
    }
}

/// Resolve the optional `[policy]` table, with its warnings.
pub fn build_policy(cfg: Option<PolicyFileConfig>) -> (r: (PolicyReport, Vec<ConfigIssue>))
    ensures
        is_policy(cfg, r.0),
        report::issues_of(r.1@) == table_issues(cfg),
{
    let mut issues: Vec<ConfigIssue> = Vec::new();
    let mut invalid: Vec<usize> = Vec::new();
    match cfg {
        None => {
            assert(report::issues_of(issues@) =~= Seq::<report::Issue>::empty());
            (PolicyReport { policy: Policy::default(), invalid, configured: false }, issues)
        },
        Some(c) => {
            let default_normal = match &c.default_normal {
                Some(w) => match Verdict::parse_default(w) {
                    Some(v) => v,
                    None => Verdict::Ask,
                },
                None => Verdict::Ask,
            };
            let mut rules: Vec<Rule> = Vec::new();
            let ghost entries = c.rule@;
            let total: usize = c.rule.len();
            let mut i: usize = 0;
            proof {
                assert(entries.take(0).len() == 0);
                assert(as_ints(invalid@) =~= invalid_of(entries.take(0)));
                assert(report::issues_of(issues@) =~= policy_issues(entries.take(0)));
            }
            for entry in it: c.rule
                invariant
                    it.seq() == entries,
                    i == it.index(),
                    i <= total == entries.len(),
                    rules@ == rules_of(entries.take(i as int)),
                    as_ints(invalid@) == invalid_of(entries.take(i as int)),
                    report::issues_of(issues@) == policy_issues(entries.take(i as int)),
            {
                proof {
                    assert(entries.take(i + 1).drop_last() =~= entries.take(i as int));
                    assert(entries.take(i + 1).last() == entry);
                }
                match build_rule(entry) {
                    Some(rule) => {
                        rules.push(rule);
                    },
                    None => {
                        let mut message = "[[policy.rule]] #".to_owned();
                        message.push_str(&number::write_size(i));
                        message.push_str(" is invalid, ignoring it");
                        report::record(&mut issues, "policy.rule", IssueSeverity::Warning, message);
                        let ghost before = invalid@;
                        invalid.push(i);
                        proof {
                            assert(as_ints(invalid@) =~= as_ints(before).push(i as int));
                            assert(report::issues_of(issues@) =~= policy_issues(
                                entries.take(i + 1),
                            ));
                        }
                    },
                }
                i = i + 1;
            }
            assert(entries.take(i as int) =~= entries);
            (
                PolicyReport {
                    policy: Policy::new(rules, default_normal),
                    invalid,
                    configured: true,
                },
                issues,
            )
        },
    }
}

// ---------------------------------------------------------------------------
// Channels
// ---------------------------------------------------------------------------

/// The message for an enabled channel whose credential is missing.
pub open spec fn missing_secret(channel: Seq<char>, var: Seq<char>) -> Seq<char> {
    "[channels."@ + channel + "] is enabled but "@ + var
        + " is not set (put it in ~/.komo/.env)"@
}

/// A required channel credential; an enabled channel missing it gets one uniform
/// message.
pub fn require_secret(value: &Option<String>, channel: &str, var: &str) -> (r: Result<
    String,
    String,
>)
    ensures
        match r {
            Ok(s) => text::set_text(*value) == Some(s@),
            Err(m) => text::set_text(*value) is None && m@ == missing_secret(channel@, var@),
        },
{
    match text::nonempty(value) {
        Some(s) => Ok(s.to_owned()),
        None => {
            let mut m = "[channels.".to_owned();
            m.push_str(channel);
            m.push_str("] is enabled but ");
            m.push_str(var);
            m.push_str(" is not set (put it in ~/.komo/.env)");
            Err(m)
        },
    }
}

/// The issues that an optional fault gives: one, or none.
pub open spec fn fault_issues(path: Seq<char>, severity: IssueSeverity, fault: Option<Seq<char>>) -> Seq<
    report::Issue,
> {
    match fault {
        Some(message) => seq![report::Issue { path, severity, message }],
        None => Seq::empty(),
    }
}

/// `s` without the slashes at its end.
pub open spec fn unslashed(s: Seq<char>) -> Seq<char>
    decreases s.len(),
{
    if s.len() > 0 && s.last() == '/' {
        unslashed(s.drop_last())
    } else {
        s
    }
}

/// `s` without the slashes at its end.
pub fn trim_slashes(s: &str) -> (r: &str)
    ensures
        r@ == unslashed(s@),
{
    let mut n: usize = s.unicode_len();
    assert(s@.take(n as int) =~= s@);
    while n > 0 && s.get_char(n - 1) == '/'
        invariant
            n <= s@.len(),
            unslashed(s@) == unslashed(s@.take(n as int)),
        decreases n,
    {
        assert(s@.take(n as int).drop_last() =~= s@.take(n - 1));
        n = n - 1;
    }
    assert(s@.take(n as int) =~= s@.subrange(0, n as int));
    s.substring_char(0, n)
}

/// Whether `out` holds the Home Assistant credentials: present exactly when the
/// token is, with the address cleared of slashes at its end.
pub open spec fn is_ha_tool(s: Secrets, out: Option<HomeAssistantConfig>) -> bool {
    match out {
        Some(c) => {
            &&& text::set_text(s.hass_token) == Some(c.token@)
            &&& c.base_url@ == unslashed(
                match text::set_text(s.hass_url) {
                    Some(u) => u,
                    None => DEFAULT_HASS_URL@,
                },
            )
        },
        None => text::set_text(s.hass_token) is None,
    }
}

/// The Home Assistant credentials, shared by the tool and the event channel.
pub fn ha_tool(s: &Secrets) -> (r: Option<HomeAssistantConfig>)
    ensures
        is_ha_tool(*s, r),
{
    match text::nonempty(&s.hass_token) {
        Some(token) => {
            let url = match text::nonempty(&s.hass_url) {
                Some(u) => u,
                None => DEFAULT_HASS_URL,
            };
            Some(
                HomeAssistantConfig {
                    base_url: trim_slashes(url).to_owned(),
                    token: token.to_owned(),
                },
            )
        },
        None => None,
    }
}

/// The Feishu table of the configuration file, if there is one.
pub open spec fn feishu_table(c: Option<ChannelsFileConfig>) -> Option<FeishuFileConfig> {
    match c {
        Some(ch) => ch.feishu,
        None => None,
    }
}

/// The Telegram table of the configuration file, if there is one.
pub open spec fn telegram_table(c: Option<ChannelsFileConfig>) -> Option<TelegramFileConfig> {
    match c {
        Some(ch) => ch.telegram,
        None => None,
    }
}

/// The WeChat table of the configuration file, if there is one.
pub open spec fn wechat_table(c: Option<ChannelsFileConfig>) -> Option<WeChatFileConfig> {
    match c {
        Some(ch) => ch.wechat,
        None => None,
    }
}

/// The Home Assistant table of the configuration file, if there is one.
pub open spec fn ha_table(c: Option<ChannelsFileConfig>) -> Option<HomeAssistantChannelFileConfig> {
    match c {
        Some(ch) => ch.homeassistant,
        None => None,
    }
}

/// The API table of the configuration file, if there is one.
pub open spec fn api_table(c: Option<ChannelsFileConfig>) -> Option<ApiFileConfig> {
    match c {
        Some(ch) => ch.api,
        None => None,
    }
}

/// What an enabled Feishu channel lacks: its app id first, then its secret.
pub open spec fn feishu_fault(e: Option<FeishuFileConfig>, s: Secrets) -> Option<Seq<char>> {
    if e is None || !e->0.enabled {
        None
    } else if text::set_text(s.feishu_app_id) is None {
        Some(missing_secret("feishu"@, "FEISHU_APP_ID"@))
    } else if text::set_text(s.feishu_app_secret) is None {
        Some(missing_secret("feishu"@, "FEISHU_APP_SECRET"@))
    } else {
        None
    }
}

/// Whether `out` is the resolved state of the Feishu channel.
pub open spec fn is_feishu(
    e: Option<FeishuFileConfig>,
    s: Secrets,
    out: ChannelState<FeishuConfig>,
) -> bool {
    if e is None || !e->0.enabled {
        out is Disabled
    } else {
        let f = e->0;
        match (feishu_fault(e, s), out) {
            (Some(m), ChannelState::Misconfigured(message)) => message@ == m,
            (None, ChannelState::Ready(cfg)) => {
                &&& text::set_text(s.feishu_app_id) == Some(cfg.app_id@)
                &&& text::set_text(s.feishu_app_secret) == Some(cfg.app_secret@)
                &&& cfg.allow_from == f.allow_from
                &&& cfg.require_mention == (f.require_mention != Some(false))
                &&& cfg.home_chat == f.home_chat
            },
            _ => false,
        }
    }
}

/// What an enabled Telegram channel lacks.
pub open spec fn telegram_fault(e: Option<TelegramFileConfig>, s: Secrets) -> Option<Seq<char>> {
    if e is Some && e->0.enabled && text::set_text(s.telegram_bot_token) is None {
        Some(missing_secret("telegram"@, "TELEGRAM_BOT_TOKEN"@))
    } else {
        None
    }
}

/// Whether `out` is the resolved state of the Telegram channel.
pub open spec fn is_telegram(
    e: Option<TelegramFileConfig>,
    s: Secrets,
    out: ChannelState<TelegramConfig>,
) -> bool {
    if e is None || !e->0.enabled {
        out is Disabled
    } else {
        let f = e->0;
        match (telegram_fault(e, s), out) {
            (Some(m), ChannelState::Misconfigured(message)) => message@ == m,
            (None, ChannelState::Ready(cfg)) => {
                &&& text::set_text(s.telegram_bot_token) == Some(cfg.bot_token@)
                &&& cfg.allow_from == f.allow_from
                &&& cfg.allowed_chats == f.allowed_chats
                &&& cfg.require_mention == (f.require_mention != Some(false))
                &&& cfg.home_chat == f.home_chat
            },
            _ => false,
        }
    }
}

/// Whether `out` is the resolved state of the WeChat channel, which has no
/// credential to check here.
pub open spec fn is_wechat(e: Option<WeChatFileConfig>, out: ChannelState<WeChatConfig>) -> bool {
    if e is None || !e->0.enabled {
        out is Disabled
    } else {
        match out {
            ChannelState::Ready(cfg) => cfg.allow_from == e->0.allow_from && cfg.home_chat
                == e->0.home_chat,
            _ => false,
        }
    }
}

/// What an enabled Home Assistant channel lacks.
pub open spec fn ha_fault(e: Option<HomeAssistantChannelFileConfig>, s: Secrets) -> Option<
    Seq<char>,
> {
    if e is Some && e->0.enabled && text::set_text(s.hass_token) is None {
        Some(
            "[channels.homeassistant] is enabled but HASS_TOKEN is not set (put it in ~/.komo/.env); the channel stays offline"@,
        )
    } else {
        None
    }
}

/// Whether `out` is the resolved state of the Home Assistant channel.
pub open spec fn is_ha_channel(
    e: Option<HomeAssistantChannelFileConfig>,
    s: Secrets,
    out: ChannelState<HomeAssistantChannelConfig>,
) -> bool {
    if e is None || !e->0.enabled {
        out is Disabled
    } else {
        let f = e->0;
        match (ha_fault(e, s), out) {
            (Some(m), ChannelState::Misconfigured(message)) => message@ == m,
            (None, ChannelState::Ready(cfg)) => {
                &&& is_ha_tool(
                    s,
                    Some(HomeAssistantConfig { base_url: cfg.base_url, token: cfg.token }),
                )
                &&& cfg.watch_domains == f.watch_domains
                &&& cfg.watch_entities == f.watch_entities
                &&& cfg.ignore_entities == f.ignore_entities
                &&& cfg.watch_all == f.watch_all
                &&& cfg.cooldown_seconds == match f.cooldown_seconds {
                    Some(n) => n,
                    None => DEFAULT_COOLDOWN_SECONDS,
                }
            },
            _ => false,
        }
    }
}

/// What an externally reachable API channel lacks.
pub open spec fn api_fault(e: Option<ApiFileConfig>, s: Secrets) -> Option<Seq<char>> {
    if e is Some && e->0.enabled && text::set_text(s.api_server_key) is None {
        Some(missing_secret("api"@, "API_SERVER_KEY"@))
    } else {
        None
    }
}

/// Whether `out` is the resolved state of the API channel: external where it is
/// enabled, and otherwise on loopback with an ephemeral port and the configured
/// key or `spare`.
pub open spec fn is_api(
    e: Option<ApiFileConfig>,
    s: Secrets,
    spare: Seq<char>,
    out: ChannelState<ApiConfig>,
) -> bool {
    if e is None || !e->0.enabled {
        match out {
            ChannelState::Ready(cfg) => {
                &&& cfg.bind@ == DEFAULT_API_BIND@
                &&& cfg.port == 0
                &&& cfg.server_key@ == match text::set_text(s.api_server_key) {
                    Some(k) => k,
                    None => spare,
                }
            },
            _ => false,
        }
    } else {
        let f = e->0;
        match (api_fault(e, s), out) {
            (Some(m), ChannelState::Misconfigured(message)) => message@ == m,
            (None, ChannelState::Ready(cfg)) => {
                &&& cfg.bind@ == match text::set_text(f.bind) {
                    Some(b) => b,
                    None => DEFAULT_API_BIND@,
                }
                &&& cfg.port == match f.port {
                    Some(p) => p,
                    None => DEFAULT_API_PORT,
                }
                &&& text::set_text(s.api_server_key) == Some(cfg.server_key@)
            },
            _ => false,
        }
    }
}

/// The state of a broken channel, whose fault is also recorded as an issue.
fn misconfigured<T>(
    issues: &mut Vec<ConfigIssue>,
    path: &'static str,
    severity: IssueSeverity,
    message: String,
) -> (r: ChannelState<T>)
    ensures
        r == ChannelState::<T>::Misconfigured(message),
        report::issues_of(final(issues)@) == report::issues_of(old(issues)@) + fault_issues(
            path@,
            severity,
            Some(message@),
        ),
{
    report::record(issues, path, severity, message.clone());
    assert(report::issues_of(issues@) =~= report::issues_of(old(issues)@) + fault_issues(
        path@,
        severity,
        Some(message@),
    ));
    ChannelState::Misconfigured(message)
}

proof fn lemma_no_issue(issues: Seq<ConfigIssue>, path: Seq<char>, severity: IssueSeverity)
    ensures
        report::issues_of(issues) == report::issues_of(issues) + fault_issues(path, severity, None),
{
    assert(report::issues_of(issues) =~= report::issues_of(issues) + fault_issues(
        path,
        severity,
        None,
    ));
}

/// Resolve the Feishu channel.
pub fn resolve_feishu(
    entry: Option<FeishuFileConfig>,
    s: &Secrets,
    issues: &mut Vec<ConfigIssue>,
) -> (r: ChannelState<FeishuConfig>)
    ensures
        is_feishu(entry, *s, r),
        report::issues_of(final(issues)@) == report::issues_of(old(issues)@) + fault_issues(
            "channels.feishu"@,
            IssueSeverity::Fatal,
            feishu_fault(entry, *s),
        ),
{
    proof {
        lemma_no_issue(issues@, "channels.feishu"@, IssueSeverity::Fatal);
    }
    match entry {
        Some(cfg) => {
            if !cfg.enabled {
                return ChannelState::Disabled;
            }
            let app_id = match require_secret(&s.feishu_app_id, "feishu", "FEISHU_APP_ID") {
                Ok(v) => v,
                Err(m) => {
                    return misconfigured(issues, "channels.feishu", IssueSeverity::Fatal, m);
                },
            };
            let app_secret = match require_secret(
                &s.feishu_app_secret,
                "feishu",
                "FEISHU_APP_SECRET",
            ) {
                Ok(v) => v,
                Err(m) => {
                    return misconfigured(issues, "channels.feishu", IssueSeverity::Fatal, m);
                },
            };
            ChannelState::Ready(
                FeishuConfig {
                    app_id,
                    app_secret,
                    allow_from: cfg.allow_from,
                    require_mention: cfg.require_mention.unwrap_or(true),
                    home_chat: cfg.home_chat,
                },
            )
        },
        None => ChannelState::Disabled,
    }
}

/// Resolve the Telegram channel.
pub fn resolve_telegram(
    entry: Option<TelegramFileConfig>,
    s: &Secrets,
    issues: &mut Vec<ConfigIssue>,
) -> (r: ChannelState<TelegramConfig>)
    ensures
        is_telegram(entry, *s, r),
        report::issues_of(final(issues)@) == report::issues_of(old(issues)@) + fault_issues(
            "channels.telegram"@,
            IssueSeverity::Fatal,
            telegram_fault(entry, *s),
        ),
{
    proof {
        lemma_no_issue(issues@, "channels.telegram"@, IssueSeverity::Fatal);
    }
    match entry {
        Some(cfg) => {
            if !cfg.enabled {
                return ChannelState::Disabled;
            }
            match require_secret(&s.telegram_bot_token, "telegram", "TELEGRAM_BOT_TOKEN") {
                Ok(bot_token) => ChannelState::Ready(
                    TelegramConfig {
                        bot_token,
                        allow_from: cfg.allow_from,
                        allowed_chats: cfg.allowed_chats,
                        require_mention: cfg.require_mention.unwrap_or(true),
                        home_chat: cfg.home_chat,
                    },
                ),
                Err(m) => misconfigured(issues, "channels.telegram", IssueSeverity::Fatal, m),
            }
        },
        None => ChannelState::Disabled,
    }
}

/// Resolve the WeChat channel.
pub fn resolve_wechat(entry: Option<WeChatFileConfig>) -> (r: ChannelState<WeChatConfig>)
    ensures
        is_wechat(entry, r),
{
    match entry {
        Some(cfg) => {
            if cfg.enabled {
                ChannelState::Ready(
                    WeChatConfig { allow_from: cfg.allow_from, home_chat: cfg.home_chat },
                )
            } else {
                ChannelState::Disabled
            }
        },
        None => ChannelState::Disabled,
    }
}

/// Resolve the Home Assistant channel. A missing token is a warning: the channel
/// stays offline and the rest comes up.
pub fn resolve_ha_channel(
    entry: Option<HomeAssistantChannelFileConfig>,
    s: &Secrets,
    issues: &mut Vec<ConfigIssue>,
) -> (r: ChannelState<HomeAssistantChannelConfig>)
    ensures
        is_ha_channel(entry, *s, r),
        report::issues_of(final(issues)@) == report::issues_of(old(issues)@) + fault_issues(
            "channels.homeassistant"@,
            IssueSeverity::Warning,
            ha_fault(entry, *s),
        ),
{
    proof {
        lemma_no_issue(issues@, "channels.homeassistant"@, IssueSeverity::Warning);
    }
    match entry {
        Some(cfg) => {
            if !cfg.enabled {
                return ChannelState::Disabled;
            }
            match ha_tool(s) {
                Some(creds) => ChannelState::Ready(
                    HomeAssistantChannelConfig {
                        base_url: creds.base_url,
                        token: creds.token,
                        watch_domains: cfg.watch_domains,
                        watch_entities: cfg.watch_entities,
                        ignore_entities: cfg.ignore_entities,
                        watch_all: cfg.watch_all,
                        cooldown_seconds: cfg.cooldown_seconds.unwrap_or(DEFAULT_COOLDOWN_SECONDS),
                    },
                ),
                None => misconfigured(
                    issues,
                    "channels.homeassistant",
                    IssueSeverity::Warning,
                    "[channels.homeassistant] is enabled but HASS_TOKEN is not set (put it in ~/.komo/.env); the channel stays offline".to_owned(),
                ),
            }
        },
        None => ChannelState::Disabled,
    }
}

/// Resolve the API channel; `spare` is the key of a loopback-only channel for
/// which none is configured.
pub fn resolve_api(
    entry: Option<ApiFileConfig>,
    s: &Secrets,
    spare: String,
    issues: &mut Vec<ConfigIssue>,
) -> (r: ChannelState<ApiConfig>)
    ensures
        is_api(entry, *s, spare@, r),
        report::issues_of(final(issues)@) == report::issues_of(old(issues)@) + fault_issues(
            "channels.api"@,
            IssueSeverity::Fatal,
            api_fault(entry, *s),
        ),
{
    proof {
        lemma_no_issue(issues@, "channels.api"@, IssueSeverity::Fatal);
    }
    if let Some(cfg) = entry {
        if cfg.enabled {
            return match require_secret(&s.api_server_key, "api", "API_SERVER_KEY") {
                Ok(server_key) => {
                    let bind = match text::nonempty(&cfg.bind) {
                        Some(b) => b.to_owned(),
                        None => DEFAULT_API_BIND.to_owned(),
                    };
                    ChannelState::Ready(
                        ApiConfig { bind, port: cfg.port.unwrap_or(DEFAULT_API_PORT), server_key },
                    )
                },
                Err(m) => misconfigured(issues, "channels.api", IssueSeverity::Fatal, m),
            };
        }
    }
    let server_key = match text::nonempty(&s.api_server_key) {
        Some(k) => k.to_owned(),
        None => spare,
    };
    ChannelState::Ready(ApiConfig { bind: DEFAULT_API_BIND.to_owned(), port: 0, server_key })
}

// ---------------------------------------------------------------------------
// The whole
// ---------------------------------------------------------------------------

/// Whether `m` is the resolved model selection for the provider `p`.
pub open spec fn is_model(s: ConfigSources, p: Provider, m: ModelConfig) -> bool {
    &&& m.provider == p
    &&& m.model@ == chosen(s.env.model, s.file.model, p.default_model_spec())
    &&& m.api_key@ == match text::set_text(s.secrets.slot(p)) {
        Some(k) => k,
        None => Seq::empty(),
    }
    &&& m.base_url == text::either(s.env.base_url, s.file.base_url)
    &&& m.aux_model == text::either(s.env.aux_model, s.file.aux_model)
    &&& m.max_turns == match text::either(s.env.max_turns, s.file.max_turns) {
        Some(n) => n,
        None => DEFAULT_MAX_TURNS,
    }
    &&& m.max_tool_result_bytes == match text::either(
        s.env.max_tool_result_bytes,
        s.file.max_tool_result_bytes,
    ) {
        Some(n) => n,
        None => DEFAULT_MAX_TOOL_RESULT_BYTES,
    }
    &&& m.max_history_messages == match text::either(
        s.env.max_history_messages,
        s.file.max_history_messages,
    ) {
        Some(n) => n,
        None => DEFAULT_MAX_HISTORY_MESSAGES,
    }
    &&& m.llm_timeout_secs == match text::either(
        s.env.llm_timeout_secs,
        s.file.llm_timeout_secs,
    ) {
        Some(n) => n,
        None => DEFAULT_LLM_TIMEOUT_SECS,
    }
}

/// Whether `rt` is the resolved runtime configuration for the provider `p`, its
/// policy aside; `spare` is the generated key of a loopback API channel.
pub open spec fn is_runtime(s: ConfigSources, p: Provider, spare: Seq<char>, rt: RuntimeConfig) -> bool {
    &&& rt.home == s.home
    &&& rt.db_url@ == database_url(s.home@, "state.db"@)
    &&& rt.kanban_db_url@ == database_url(s.home@, "kanban.db"@)
    &&& rt.memory_db_url@ == database_url(s.home@, "memory.db"@)
    &&& is_model(s, p, rt.model)
    &&& rt.review_interval == match s.env.review_interval {
        Some(n) => if n > 0 {
            n
        } else {
            DEFAULT_REVIEW_INTERVAL
        },
        None => DEFAULT_REVIEW_INTERVAL,
    }
    &&& rt.maintenance_schedule@ == chosen(
        s.env.schedule,
        s.file.schedule,
        DEFAULT_MAINTENANCE_SCHEDULE@,
    )
    &&& rt.briefing_schedule == text::either(s.env.briefing_schedule, s.file.briefing_schedule)
    &&& rt.briefing_workdays_only == (text::either(
        s.env.briefing_workdays_only,
        s.file.briefing_workdays_only,
    ) == Some(true))
    &&& text::opt_text(rt.dream_schedule) == dream_schedule(
        text::either(s.env.dream_schedule, s.file.dream_schedule),
    )
    &&& text::views(rt.skills_path@) == skill_dirs(s.env.skills_path)
    &&& is_ha_tool(s.secrets, rt.homeassistant_tool)
    &&& is_feishu(feishu_table(s.file.channels), s.secrets, rt.feishu)
    &&& is_telegram(telegram_table(s.file.channels), s.secrets, rt.telegram)
    &&& is_wechat(wechat_table(s.file.channels), rt.wechat)
    &&& is_ha_channel(ha_table(s.file.channels), s.secrets, rt.homeassistant_channel)
    &&& is_api(api_table(s.file.channels), s.secrets, spare, rt.api)
}

/// The message for a provider whose key is missing.
pub open spec fn missing_key(p: Provider) -> Seq<char> {
    p.api_key_var_spec() + " is not set (required for "@ + p.label_spec()
        + ") — agent turns will fail until it is added to ~/.komo/.env (see `komo init`)"@
}

/// What the model selection lacks: its key, where the provider needs one.
pub open spec fn key_fault(p: Provider, s: Secrets) -> Option<Seq<char>> {
    if p != Provider::Codex && text::set_text(s.slot(p)) is None {
        Some(missing_key(p))
    } else {
        None
    }
}

/// Every problem found, in order: the environment, the provider, its key, the
/// policy rules, then the channels.
pub open spec fn all_issues(
    s: ConfigSources,
    p: Provider,
    provider_fault: Option<Seq<char>>,
    policy: Seq<report::Issue>,
) -> Seq<report::Issue> {
    fault_issues("env"@, IssueSeverity::Fatal, text::opt_text(s.env_error)) + fault_issues(
        "model.provider"@,
        IssueSeverity::Fatal,
        provider_fault,
    ) + fault_issues("model.api_key"@, IssueSeverity::Warning, key_fault(p, s.secrets)) + policy
        + fault_issues(
        "channels.feishu"@,
        IssueSeverity::Fatal,
        feishu_fault(feishu_table(s.file.channels), s.secrets),
    ) + fault_issues(
        "channels.telegram"@,
        IssueSeverity::Fatal,
        telegram_fault(telegram_table(s.file.channels), s.secrets),
    ) + fault_issues(
        "channels.homeassistant"@,
        IssueSeverity::Warning,
        ha_fault(ha_table(s.file.channels), s.secrets),
    ) + fault_issues(
        "channels.api"@,
        IssueSeverity::Fatal,
        api_fault(api_table(s.file.channels), s.secrets),
    )
}

/// Which providers have a key.
pub open spec fn keys_present(s: Secrets) -> Seq<(Provider, bool)> {
    Seq::new(
        5,
        |i: int|
            (Provider::all_spec()[i], text::set_text(s.slot(Provider::all_spec()[i])) is Some),
    )
}

/// Whether `out` is the report on the sources, given the issues.
pub open spec fn is_report(s: ConfigSources, issues: Seq<report::Issue>, out: ConfigReport) -> bool {
    &&& report::issues_of(out.issues@) == issues
    &&& out.provider_origin == origin(s.env.provider, s.file.provider)
    &&& out.model_origin == origin(s.env.model, s.file.model)
    &&& out.provider_key_present@ == keys_present(s.secrets)
}

/// The provider in effect: the parsed one, or the default.
pub open spec fn effective(provider: Result<Provider, String>) -> Provider {
    match provider {
        Ok(p) => p,
        Err(_) => Provider::DeepSeek,
    }
}

/// What the provider selection lacks.
pub open spec fn parse_fault(provider: Result<Provider, String>) -> Option<Seq<char>> {
    match provider {
        Ok(_) => None,
        Err(m) => Some(m@),
    }
}

fn presence(s: &Secrets) -> (r: Vec<(Provider, bool)>)
    ensures
        r@ == keys_present(*s),
{
    let mut out: Vec<(Provider, bool)> = Vec::new();
    out.push((Provider::DeepSeek, s.key(Provider::DeepSeek).is_some()));
    out.push((Provider::OpenAi, s.key(Provider::OpenAi).is_some()));
    out.push((Provider::Anthropic, s.key(Provider::Anthropic).is_some()));
    out.push((Provider::OpenRouter, s.key(Provider::OpenRouter).is_some()));
    out.push((Provider::Codex, s.key(Provider::Codex).is_some()));
    assert(out@ =~= keys_present(*s));
    out
}

/// Records the fault, if there is one.
fn note(
    issues: &mut Vec<ConfigIssue>,
    path: &'static str,
    severity: IssueSeverity,
    fault: Option<String>,
)
    ensures
        report::issues_of(final(issues)@) == report::issues_of(old(issues)@) + fault_issues(
            path@,
            severity,
            text::opt_text(fault),
        ),
{
    proof {
        lemma_no_issue(issues@, path@, severity);
    }
    if let Some(message) = fault {
        report::record(issues, path, severity, message);
        assert(report::issues_of(issues@) =~= report::issues_of(old(issues)@) + fault_issues(
            path@,
            severity,
            text::opt_text(fault),
        ));
    }
}

/// The snapshot for sources whose provider has been parsed and whose policy has
/// been built. `spare` is the key of a loopback API channel for which none is
/// configured.
pub fn assemble(
    sources: ConfigSources,
    provider: Result<Provider, String>,
    policy: PolicyReport,
    policy_warnings: Vec<ConfigIssue>,
    spare: String,
) -> (r: (RuntimeConfig, ConfigReport))
    ensures
        is_runtime(sources, effective(provider), spare@, r.0),
        r.0.policy == policy,
        is_report(
            sources,
            all_issues(
                sources,
                effective(provider),
                parse_fault(provider),
                report::issues_of(policy_warnings@),
            ),
            r.1,
        ),
{
    let ghost given = sources;
    let ConfigSources { home, file, env, secrets, env_error } = sources;
    let skills_path = skills_dirs(&env.skills_path);
    let mut issues: Vec<ConfigIssue> = Vec::new();
    assert(report::issues_of(issues@) =~= Seq::<report::Issue>::empty());
    note(&mut issues, "env", IssueSeverity::Fatal, env_error);
    let provider_origin = pick(&env.provider, &file.provider, "").1;
    let (provider, fault) = match provider {
        Ok(p) => (p, None),
        Err(m) => (Provider::DeepSeek, Some(m)),
    };
    note(&mut issues, "model.provider", IssueSeverity::Fatal, fault);
    let (model_name, model_origin) = pick(&env.model, &file.model, provider.default_model());
    let (api_key, lacking) = match secrets.key(provider) {
        Some(key) => (key.to_owned(), None),
        None => {
            if provider.uses_api_key() {
                let mut m = provider.api_key_var().to_owned();
                m.push_str(" is not set (required for ");
                m.push_str(provider.label());
                m.push_str(
                    ") — agent turns will fail until it is added to ~/.komo/.env (see `komo init`)",
                );
                (String::new(), Some(m))
            } else {
                (String::new(), None)
            }
        },
    };
    note(&mut issues, "model.api_key", IssueSeverity::Warning, lacking);
    let ghost mid = report::issues_of(issues@);
    let ghost held = issues@;
    let mut warnings = policy_warnings;
    issues.append(&mut warnings);
    assert(report::issues_of(issues@) =~= mid + report::issues_of(policy_warnings@));
    let provider_key_present = presence(&secrets);
    let maintenance_schedule = pick(&env.schedule, &file.schedule, DEFAULT_MAINTENANCE_SCHEDULE).0;
    let model = ModelConfig {
        provider,
        model: model_name,
        api_key,
        base_url: text::or(env.base_url, file.base_url),
        aux_model: text::or(env.aux_model, file.aux_model),
        max_turns: text::or(env.max_turns, file.max_turns).unwrap_or(DEFAULT_MAX_TURNS),
        max_tool_result_bytes: text::or(
            env.max_tool_result_bytes,
            file.max_tool_result_bytes,
        ).unwrap_or(DEFAULT_MAX_TOOL_RESULT_BYTES),
        max_history_messages: text::or(
            env.max_history_messages,
            file.max_history_messages,
        ).unwrap_or(DEFAULT_MAX_HISTORY_MESSAGES),
        llm_timeout_secs: text::or(env.llm_timeout_secs, file.llm_timeout_secs).unwrap_or(
            DEFAULT_LLM_TIMEOUT_SECS,
        ),
    };
    let homeassistant_tool = ha_tool(&secrets);
    let channels = match file.channels {
        Some(c) => c,
        None => ChannelsFileConfig::default(),
    };
    let feishu = resolve_feishu(channels.feishu, &secrets, &mut issues);
    let telegram = resolve_telegram(channels.telegram, &secrets, &mut issues);
    let wechat = resolve_wechat(channels.wechat);
    let homeassistant_channel = resolve_ha_channel(channels.homeassistant, &secrets, &mut issues);
    let api = resolve_api(channels.api, &secrets, spare, &mut issues);
    let review_interval: usize = match env.review_interval {
        Some(n) => {
            if n > 0 {
                n
            } else {
                DEFAULT_REVIEW_INTERVAL
            }
        },
        None => DEFAULT_REVIEW_INTERVAL,
    };
    let runtime = RuntimeConfig {
        db_url: db_url(&home, "state.db"),
        kanban_db_url: db_url(&home, "kanban.db"),
        memory_db_url: db_url(&home, "memory.db"),
        home,
        model,
        review_interval,
        maintenance_schedule,
        briefing_schedule: text::or(env.briefing_schedule, file.briefing_schedule),
        briefing_workdays_only: text::or(
            env.briefing_workdays_only,
            file.briefing_workdays_only,
        ).unwrap_or(false),
        dream_schedule: resolve_dream_schedule(text::or(env.dream_schedule, file.dream_schedule)),
        policy,
        skills_path,
        homeassistant_tool,
        feishu,
        telegram,
        wechat,
        homeassistant_channel,
        api,
    };
    let out = ConfigReport { issues, provider_origin, model_origin, provider_key_present };
    proof {
        assert(report::issues_of(out.issues@) =~= all_issues(
            given,
            provider,
            text::opt_text(fault),
            report::issues_of(policy_warnings@),
        ));
    }
    (runtime, out)
}

/// The provider that the sources select, and what the selection lacks.
pub open spec fn selected(s: ConfigSources) -> (Provider, Option<Seq<char>>) {
    let word = folded(chosen(s.env.provider, s.file.provider, "deepseek"@));
    match Provider::named(word) {
        Some(p) => (p, None),
        None => (Provider::DeepSeek, Some(provider::unknown_provider(word))),
    }
}

/// Whether the snapshot `(rt, out)` is what the sources resolve to, `spare` being
/// the generated key of a loopback API channel.
pub open spec fn is_resolution(
    s: ConfigSources,
    spare: Seq<char>,
    rt: RuntimeConfig,
    out: ConfigReport,
) -> bool {
    &&& is_runtime(s, selected(s).0, spare, rt)
    &&& is_policy(s.file.policy, rt.policy)
    &&& is_report(
        s,
        all_issues(s, selected(s).0, selected(s).1, table_issues(s.file.policy)),
        out,
    )
}

/// Resolve one consistent read of the sources into the runtime snapshot plus its
/// redacted report. Never fails: problems become issues.
pub fn resolve(sources: ConfigSources) -> (r: (RuntimeConfig, ConfigReport))
    ensures
        exists|spare: Seq<char>|
            system::is_token(spare) && system::is_drawn(spare) && is_resolution(
                sources,
                spare,
                r.0,
                r.1,
            ),
        sources.env.provider is None && sources.file.provider is None ==> r.0.model.provider
            == Provider::DeepSeek,
{
    let ghost given = sources;
    let mut sources = sources;
    let word = pick(&sources.env.provider, &sources.file.provider, "deepseek").0;
    let parsed = Provider::parse(&word);
    proof {
        reveal_strlit("deepseek");
        if given.env.provider is None && given.file.provider is None {
            text::lemma_trim_none(word@);
            assert(casing::ascii_lowered(word@) =~= word@);
        }
    }
    let table = sources.file.policy.take();
    let (policy, warnings) = build_policy(table);
    let spare = system::draw_token();
    let r = assemble(sources, parsed, policy, warnings, spare);
    proof {
        assert(effective(parsed) == selected(given).0);
        assert(parse_fault(parsed) == selected(given).1);
        assert(is_resolution(given, spare@, r.0, r.1));
    }
    r
}

} // verus!
