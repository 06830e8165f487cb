//! What holds of the overrides and of the settings that are read strictly, in terms of what
//! goes in and comes out.
use crate::config::laws;
use crate::config::provider::Provider;
use crate::config::resolved;
use crate::config::resolved::{
    ApiConfig, FeishuConfig, HomeAssistantChannelConfig, HomeAssistantConfig, ModelConfig,
    TelegramConfig, WeChatConfig,
};
use crate::config::snapshot;
use crate::config::sources;
use crate::config::sources::{
    ApiFileConfig, FeishuFileConfig, FileConfig, HomeAssistantChannelFileConfig, KomoEnv,
    Secrets, TelegramFileConfig, WeChatFileConfig,
};
use crate::config::strict;
use crate::config::strict::ShionEnv;
use crate::system;
use crate::text;
use vstd::prelude::*;

verus! {

/// Whether an optional text is the current one where that says something, else the legacy
/// one where that does, else unset.
pub open spec fn overlays(got: Option<String>, current: Option<String>, legacy: Option<String>) -> bool {
    if laws::is_set(current) {
        got == current
    } else if laws::is_set(legacy) {
        got == legacy
    } else {
        got is None
    }
}

/// Whether a value is the current one where it is set, else the legacy one.
pub open spec fn overlays_value<T>(got: Option<T>, current: Option<T>, legacy: Option<T>) -> bool {
    if current is Some {
        got == current
    } else {
        got == legacy
    }
}

/// A variable under its current name beats the one under its legacy name, each by itself,
/// and an empty text counts as unset.
pub proof fn current_variables_beat_legacy_ones(legacy: KomoEnv, current: KomoEnv, r: KomoEnv)
    requires
        call_ensures(KomoEnv::combine, (legacy, current), r),
    ensures
        overlays(r.provider, current.provider, legacy.provider),
        overlays(r.model, current.model, legacy.model),
        overlays(r.base_url, current.base_url, legacy.base_url),
        overlays(r.aux_model, current.aux_model, legacy.aux_model),
        overlays(r.schedule, current.schedule, legacy.schedule),
        overlays(r.briefing_schedule, current.briefing_schedule, legacy.briefing_schedule),
        overlays(r.dream_schedule, current.dream_schedule, legacy.dream_schedule),
        overlays(r.skills_path, current.skills_path, legacy.skills_path),
        overlays_value(
            r.briefing_workdays_only,
            current.briefing_workdays_only,
            legacy.briefing_workdays_only,
        ),
        overlays_value(r.max_turns, current.max_turns, legacy.max_turns),
        overlays_value(
            r.max_tool_result_bytes,
            current.max_tool_result_bytes,
            legacy.max_tool_result_bytes,
        ),
        overlays_value(
            r.max_turn_result_bytes,
            current.max_turn_result_bytes,
            legacy.max_turn_result_bytes,
        ),
        overlays_value(r.tool_timeout_secs, current.tool_timeout_secs, legacy.tool_timeout_secs),
        overlays_value(
            r.max_history_messages,
            current.max_history_messages,
            legacy.max_history_messages,
        ),
        overlays_value(r.llm_timeout_secs, current.llm_timeout_secs, legacy.llm_timeout_secs),
        overlays_value(r.review_interval, current.review_interval, legacy.review_interval),
{
}

proof fn lemma_fallbacks(vars: Seq<(String, String)>, names: Seq<Seq<char>>)
    ensures
        forall|i: int|
            0 <= i < vars.len() && sources::is_fallback((#[trigger] vars[i]).0@, names)
                ==> sources::fallbacks(vars, names).contains(vars[i]),
        forall|k: int|
            0 <= k < sources::fallbacks(vars, names).len() ==> vars.contains(
                #[trigger] sources::fallbacks(vars, names)[k],
            ) && sources::is_fallback(sources::fallbacks(vars, names)[k].0@, names),
    decreases vars.len(),
{
    if vars.len() > 0 {
        let short = vars.drop_last();
        lemma_fallbacks(short, names);
        let init = sources::fallbacks(short, names);
        let now = sources::fallbacks(vars, names);
        assert forall|i: int|
            0 <= i < vars.len() && sources::is_fallback(
                (#[trigger] vars[i]).0@,
                names,
            ) implies now.contains(vars[i]) by {
            if i < short.len() {
                assert(short[i] == vars[i]);
                let k = choose|k: int| 0 <= k < init.len() && init[k] == vars[i];
                assert(now[k] == vars[i]);
            } else {
                assert(now[now.len() - 1] == vars[i]);
            }
        }
        assert forall|k: int| 0 <= k < now.len() implies vars.contains(#[trigger] now[k])
            && sources::is_fallback(now[k].0@, names) by {
            if k < init.len() {
                assert(now[k] == init[k]);
                let i = choose|i: int| 0 <= i < short.len() && short[i] == init[k];
                assert(vars[i] == now[k]);
            } else {
                assert(vars[vars.len() - 1] == now[k]);
            }
        }
    }
}

/// Whether some variable has this name.
pub open spec fn is_given(vars: Seq<(String, String)>, name: Seq<char>) -> bool {
    exists|j: int| 0 <= j < vars.len() && (#[trigger] vars[j]).0@ == name
}

/// A legacy variable counts exactly where no variable has its current name.
pub proof fn shadowed_variables_do_not_count(
    vars: &Vec<(String, String)>,
    r: Vec<(String, String)>,
    i: int,
    rest: Seq<char>,
)
    requires
        call_ensures(sources::legacy_fallbacks, (vars,), r),
        0 <= i < vars@.len(),
    ensures
        vars@[i].0@ == "SHION_"@ + rest && !is_given(vars@, "KOMO_"@ + rest) ==> r@.contains(
            vars@[i],
        ),
        vars@[i].0@ == "SHION_"@ + rest && is_given(vars@, "KOMO_"@ + rest) ==> forall|k: int|
            0 <= k < r@.len() ==> (#[trigger] r@[k]).0@ != vars@[i].0@,
{
    let names = sources::names_of(vars@);
    lemma_fallbacks(vars@, names);
    let key = vars@[i].0@;
    if key == "SHION_"@ + rest {
        let p = "SHION_"@;
        assert(key.subrange(0, p.len() as int) =~= p);
        assert(key.skip(p.len() as int) =~= rest);
        assert(sources::current_name(key) == Some("KOMO_"@ + rest));
        assert(names.contains("KOMO_"@ + rest) == is_given(vars@, "KOMO_"@ + rest)) by {
            if names.contains("KOMO_"@ + rest) {
                let j = choose|j: int| 0 <= j < names.len() && names[j] == "KOMO_"@ + rest;
                assert(vars@[j].0@ == "KOMO_"@ + rest);
            }
            if is_given(vars@, "KOMO_"@ + rest) {
                let j = choose|j: int|
                    0 <= j < vars@.len() && (#[trigger] vars@[j]).0@ == "KOMO_"@ + rest;
                assert(names[j] == "KOMO_"@ + rest);
            }
        }
    }
}

/// Each provider has its own key, an empty one counts as unset, and Codex has none.
pub proof fn keys_are_kept_by_provider(s: &Secrets, p: Provider, r: Option<&str>)
    requires
        call_ensures(Secrets::key, (s, p), r),
    ensures
        ({
            let own = match p {
                Provider::DeepSeek => s.deepseek_api_key,
                Provider::OpenAi => s.openai_api_key,
                Provider::Anthropic => s.anthropic_api_key,
                Provider::OpenRouter => s.openrouter_api_key,
                Provider::Codex => None,
            };
            &&& r is Some <==> laws::is_set(own)
            &&& r is Some ==> r->0@ == own->0@
        }),
{
}

/// Read strictly too, the overrides beat the file and the file the defaults; a provider
/// with a key needs it, and gets its own.
pub proof fn strict_settings_are_layered(
    env: &ShionEnv,
    file: &FileConfig,
    secrets: &Secrets,
    p: Provider,
    r: Result<ModelConfig, String>,
    key: Option<&str>,
)
    requires
        call_ensures(ModelConfig::resolve_for, (env, file, secrets, p), r),
        call_ensures(Secrets::key, (secrets, p), key),
    ensures
        p == Provider::Codex ==> r is Ok,
        p != Provider::Codex && key is Some ==> r is Ok,
        p != Provider::Codex ==> (r is Ok ==> key is Some && r->Ok_0.api_key@ == key->0@),
        r matches Ok(m) ==> {
            &&& m.provider == p
            &&& laws::text_comes_from(m.model@, env.model, file.model, p.default_model_spec())
            &&& laws::option_comes_from(m.base_url, env.base_url, file.base_url)
            &&& laws::option_comes_from(m.aux_model, env.aux_model, file.aux_model)
            &&& env.max_turns matches Some(n) ==> m.max_turns == n
            &&& env.max_turns is None && file.max_turns is Some ==> m.max_turns
                == file.max_turns->0
            &&& env.max_tool_result_bytes matches Some(n) ==> m.max_tool_result_bytes == n
            &&& env.max_tool_result_bytes is None && file.max_tool_result_bytes is Some
                ==> m.max_tool_result_bytes == file.max_tool_result_bytes->0
            &&& env.max_history_messages matches Some(n) ==> m.max_history_messages == n
            &&& env.max_history_messages is None && file.max_history_messages is Some
                ==> m.max_history_messages == file.max_history_messages->0
        },
{
}

/// A malformed override fails a strict reading, and with no provider named it is the
/// default one's settings that are read.
pub proof fn malformed_overrides_fail(
    read: Result<ShionEnv, String>,
    file: &FileConfig,
    secrets: &Secrets,
    r: Result<ModelConfig, String>,
    lenient: ShionEnv,
)
    requires
        call_ensures(ModelConfig::resolve, (read, file, secrets), r),
        call_ensures(ShionEnv::load_lenient, (read,), lenient),
    ensures
        read is Err ==> r is Err,
        read is Err ==> lenient.model is None && lenient.provider is None && lenient.base_url
            is None && lenient.schedule is None && lenient.max_turns is None,
        read matches Ok(e) ==> overlays(lenient.model, e.model, None) && overlays(
            lenient.provider,
            e.provider,
            None,
        ) && overlays(lenient.base_url, e.base_url, None) && overlays(
            lenient.aux_model,
            e.aux_model,
            None,
        ) && overlays(lenient.schedule, e.schedule, None) && overlays(
            lenient.briefing_schedule,
            e.briefing_schedule,
            None,
        ) && overlays(lenient.dream_schedule, e.dream_schedule, None) && lenient.max_turns
            == e.max_turns && lenient.review_interval == e.review_interval,
{
}

/// The schedules and the working-day switch are layered alike; the briefing is off unless
/// set, and goes out on any day unless told otherwise.
pub proof fn strict_schedules_are_layered(
    env: &ShionEnv,
    file: &FileConfig,
    maintenance: String,
    briefing: Option<String>,
    workdays: bool,
)
    requires
        call_ensures(strict::maintenance_schedule, (env, file), maintenance),
        call_ensures(strict::briefing_schedule, (env, file), briefing),
        call_ensures(strict::briefing_workdays_only, (env, file), workdays),
    ensures
        laws::text_comes_from(maintenance@, env.schedule, file.schedule, "0 * * * *"@),
        laws::option_comes_from(briefing, env.briefing_schedule, file.briefing_schedule),
        laws::comes_from(
            workdays,
            env.briefing_workdays_only,
            file.briefing_workdays_only,
            false,
        ),
{
}

/// A channel that is off gives nothing; one that is on gives its settings with its own
/// credentials, and an error where one of them is missing.
pub proof fn strict_channels_need_their_credentials(
    secrets: &Secrets,
    telegram: &Option<TelegramFileConfig>,
    feishu: &Option<FeishuFileConfig>,
    home: &Option<HomeAssistantChannelFileConfig>,
    wechat: &Option<WeChatFileConfig>,
    t: Result<Option<TelegramConfig>, String>,
    f: Result<Option<FeishuConfig>, String>,
    h: Result<Option<HomeAssistantChannelConfig>, String>,
    w: Result<Option<WeChatConfig>, String>,
)
    requires
        call_ensures(strict::telegram_config, (telegram, secrets), t),
        call_ensures(strict::feishu_config, (feishu, secrets), f),
        call_ensures(strict::homeassistant_channel_config, (home, secrets), h),
        call_ensures(strict::wechat_config, (wechat,), w),
    ensures
        ({
            let on = telegram is Some && telegram->0.enabled;
            &&& t is Err <==> on && !laws::is_set(secrets.telegram_bot_token)
            &&& t matches Ok(c) ==> (c is Some <==> on)
            &&& t matches Ok(Some(c)) ==> c.bot_token@ == secrets.telegram_bot_token->0@
                && c.allow_from@ == telegram->0.allow_from@ && c.home_chat
                == telegram->0.home_chat && (c.require_mention <==> telegram->0.require_mention
                != Some(false))
        }),
        ({
            let on = feishu is Some && feishu->0.enabled;
            &&& f is Err <==> on && !(laws::is_set(secrets.feishu_app_id) && laws::is_set(
                secrets.feishu_app_secret,
            ))
            &&& f matches Ok(c) ==> (c is Some <==> on)
            &&& f matches Ok(Some(c)) ==> c.app_id@ == secrets.feishu_app_id->0@ && c.app_secret@
                == secrets.feishu_app_secret->0@ && c.allow_from@ == feishu->0.allow_from@ && (
            c.require_mention <==> feishu->0.require_mention != Some(false))
        }),
        ({
            let on = home is Some && home->0.enabled;
            &&& h is Err <==> on && !laws::is_set(secrets.hass_token)
            &&& h matches Ok(c) ==> (c is Some <==> on)
            &&& h matches Ok(Some(c)) ==> c.token@ == secrets.hass_token->0@
        }),
        ({
            let on = wechat is Some && wechat->0.enabled;
            &&& w is Ok
            &&& w matches Ok(c) ==> (c is Some <==> on)
            &&& w matches Ok(Some(c)) ==> c.allow_from@ == wechat->0.allow_from@ && c.home_chat
                == wechat->0.home_chat
        }),
{
}

/// The API is reached from outside only where it is enabled and has a key; else it stays
/// on this machine, with its key or one left to chance.
pub proof fn the_strict_api_needs_its_key(
    table: &Option<ApiFileConfig>,
    secrets: &Secrets,
    r: Result<ApiConfig, String>,
)
    requires
        call_ensures(strict::api_config, (table, secrets), r),
    ensures
        ({
            let external = table is Some && table->0.enabled;
            &&& r is Err <==> external && !laws::is_set(secrets.api_server_key)
            &&& r matches Ok(c) ==> {
                &&& laws::is_set(secrets.api_server_key) ==> c.server_key@
                    == secrets.api_server_key->0@
                &&& !laws::is_set(secrets.api_server_key) ==> system::is_drawn(c.server_key@)
                &&& !external ==> c.bind@ == "127.0.0.1"@ && c.port == 0
                &&& external && laws::is_set(table->0.bind) ==> c.bind@ == table->0.bind->0@
                &&& external && !laws::is_set(table->0.bind) ==> c.bind@ == "127.0.0.1"@
            }
        }),
{
}

/// The home directory is the one that is named, where it is, and else has its own place in
/// the user's directory.
pub proof fn homes_are_named_or_the_user_s(
    given: Option<String>,
    user: Option<String>,
    dir: &str,
    r: String,
    s: String,
)
    requires
        laws::is_set(given) || user is Some,
        user is Some ==> user->0@ == dir@,
        call_ensures(snapshot::komo_home, (given, user), r),
        call_ensures(strict::shion_home, (&given, dir), s),
    ensures
        laws::is_set(given) ==> r@ == given->0@ && s@ == given->0@,
        !laws::is_set(given) && user is Some && dir@.len() > 0 && dir@.last() != '/' ==> r@ == dir@
            + "/.komo"@ && s@ == dir@ + "/.shion"@,
{
    reveal_strlit(".komo");
    reveal_strlit("/.komo");
    reveal_strlit(".shion");
    reveal_strlit("/.shion");
    assert(dir@.push('/') + ".komo"@ =~= dir@ + "/.komo"@);
    assert(dir@.push('/') + ".shion"@ =~= dir@ + "/.shion"@);
}

/// A masked key shows at most seven characters of it, three at the start and four at the
/// end, and a key of seven or fewer shows none: keys that agree there look alike.
pub proof fn masks_hide_the_rest(a: &str, b: &str, x: String, y: String)
    requires
        call_ensures(resolved::mask_secret, (a,), x),
        call_ensures(resolved::mask_secret, (b,), y),
    ensures
        a@.len() <= 7 && b@.len() <= 7 ==> x@ == y@,
        a@.len() > 7 && b@.len() > 7 && a@.take(3) == b@.take(3) && a@.skip(a@.len() - 4)
            == b@.skip(b@.len() - 4) ==> x@ == y@,
        a@.len() > 7 ==> x@.len() == 10 && x@.take(3) == a@.take(3) && x@.skip(6) == a@.skip(
            a@.len() - 4,
        ),
        x@.len() <= 10,
{
    reveal_strlit("***");
    reveal_strlit("...");
    if a@.len() > 7 {
        assert(x@.take(3) =~= a@.take(3));
        assert(x@.skip(6) =~= a@.skip(a@.len() - 4));
    }
}

/// The cheaper variant differs in its model alone: the one for side work where one is set.
pub proof fn side_work_takes_the_cheaper_model(m: &ModelConfig, r: ModelConfig)
    requires
        call_ensures(ModelConfig::aux_variant, (m,), r),
    ensures
        m.aux_model matches Some(a) ==> r.model@ == a@,
        m.aux_model is None ==> r.model@ == m.model@,
        r.provider == m.provider,
        r.api_key == m.api_key,
        r.base_url == m.base_url,
        r.max_turns == m.max_turns,
        r.max_tool_result_bytes == m.max_tool_result_bytes,
        r.max_history_messages == m.max_history_messages,
        r.llm_timeout_secs == m.llm_timeout_secs,
{
}

/// Selecting a model sets the provider and the model, or takes the model out where none is
/// given, and leaves every other entry of the file as it was.
pub proof fn selecting_leaves_the_rest(
    table: toml::Table,
    p: Provider,
    model: Option<&str>,
    r: toml::Table,
    key: Seq<char>,
)
    requires
        call_ensures(crate::config::write::select_model, (table, p, model), r),
    ensures
        crate::config::write::entries(r).dom().contains("provider"@),
        crate::config::write::entries(r)["provider"@] == crate::config::write::string_value(p.name_spec()),
        model matches Some(id) ==> crate::config::write::entries(r).dom().contains("model"@) && crate::config::write::entries(
            r,
        )["model"@] == crate::config::write::string_value(id@),
        model is None ==> !crate::config::write::entries(r).dom().contains("model"@),
        key != "provider"@ && key != "model"@ ==> (crate::config::write::entries(r).dom().contains(key)
            <==> crate::config::write::entries(table).dom().contains(key)) && (crate::config::write::entries(
            table,
        ).dom().contains(key) ==> crate::config::write::entries(r)[key] == crate::config::write::entries(table)[key]),
{
    reveal_strlit("provider");
    reveal_strlit("model");
    assert("provider"@.len() != "model"@.len());
}

/// Each provider has its own name, its own variable for its key, and its own model where
/// none is chosen; all but Codex need a key.
pub proof fn providers_have_their_own(
    p: Provider,
    name: &'static str,
    model: &'static str,
    var: &'static str,
    needs: bool,
)
    requires
        call_ensures(Provider::name, (p,), name),
        call_ensures(Provider::default_model, (p,), model),
        call_ensures(Provider::api_key_var, (p,), var),
        call_ensures(Provider::uses_api_key, (p,), needs),
    ensures
        needs <==> p != Provider::Codex,
        p == Provider::DeepSeek ==> name@ == "deepseek"@ && model@ == "deepseek-chat"@ && var@
            == "DEEPSEEK_API_KEY"@,
        p == Provider::OpenAi ==> name@ == "openai"@ && model@ == "gpt-4o-mini"@ && var@
            == "OPENAI_API_KEY"@,
        p == Provider::Anthropic ==> name@ == "anthropic"@ && var@ == "ANTHROPIC_API_KEY"@,
        p == Provider::OpenRouter ==> name@ == "openrouter"@ && model@
            == "deepseek/deepseek-chat"@ && var@ == "OPENROUTER_API_KEY"@,
        p == Provider::Codex ==> name@ == "codex"@ && model@ == "gpt-5.5"@ && var@.len() == 0,
{
    reveal_strlit("");
}

} // verus!
