//! One resolved view of the configuration, and whether work can start with it.
use crate::config::provider::Provider;
use crate::config::report;
use crate::config::report::{ConfigReport, IssueSeverity};
use crate::config::resolve;
use crate::config::resolved::RuntimeConfig;
use crate::config::sources::{ConfigSources, FileConfig, KomoEnv, Secrets};
use crate::path;
use crate::system;
use crate::text;
use vstd::prelude::*;

verus! {

/// One resolved view of everything the agent is configured to do, plus the
/// redacted diagnostics that explain it.
pub struct ConfigSnapshot {
    pub runtime: RuntimeConfig,
    pub report: ConfigReport,
}

/// Whether an issue makes an agent turn impossible: a malformed environment or
/// an unusable model selection.
pub open spec fn blocks_agent(i: report::Issue) -> bool {
    i.severity == IssueSeverity::Fatal && (i.path == "env"@ || text::has_prefix(i.path, "model"@))
}

/// The first issue, from `k` on, that makes an agent turn impossible.
pub open spec fn first_agent_block(issues: Seq<report::Issue>, k: int) -> Option<int>
    decreases issues.len() - k,
{
    if k < 0 || k >= issues.len() {
        None
    } else if blocks_agent(issues[k]) {
        Some(k)
    } else {
        first_agent_block(issues, k + 1)
    }
}

/// Whether `r` reports the issue at position `k`: its message, or success where
/// there is none.
pub open spec fn reports(issues: Seq<report::Issue>, k: Option<int>, r: Result<(), String>) -> bool {
    match k {
        Some(i) => r is Err && r->Err_0@ == issues[i].message,
        None => r is Ok,
    }
}

impl ConfigSnapshot {
    /// Bundle one read of all sources and resolve it. Never fails: problems land
    /// in the report.
    pub fn load(home: String, file: FileConfig, env: Result<KomoEnv, String>, secrets: Secrets) -> (r:
        Self)
        ensures
            exists|spare: Seq<char>, s: ConfigSources|
                {
                    &&& system::is_token(spare)
                    &&& #[trigger] resolve::is_resolution(s, spare, r.runtime, r.report)
                    &&& s.home == home
                    &&& s.file == file
                    &&& s.secrets == secrets
                    &&& match env {
                        Ok(e) => s.env == e && s.env_error is None,
                        Err(m) => s.env == KomoEnv::unset() && s.env_error == Some(m),
                    }
                },
    {
        ConfigSnapshot::from_sources(ConfigSources::load(home, file, env, secrets))
    }

    /// Pure resolution of the given sources.
    pub fn from_sources(sources: ConfigSources) -> (r: Self)
        ensures
            exists|spare: Seq<char>|
                system::is_token(spare) && #[trigger] resolve::is_resolution(
                    sources,
                    spare,
                    r.runtime,
                    r.report,
                ),
    {
        let (runtime, report) = resolve::resolve(sources);
        ConfigSnapshot { runtime, report }
    }

    /// Fail on the issues that make an agent turn impossible. Channel problems
    /// don't block a chat turn.
    pub fn validate_agent(&self) -> (r: Result<(), String>)
        ensures
            reports(
                report::issues_of(self.report.issues@),
                first_agent_block(report::issues_of(self.report.issues@), 0),
                r,
            ),
    {
        let issues = &self.report.issues;
        let mut i: usize = 0;
        while i < issues.len()
            invariant
                i <= issues.len(),
                *issues == self.report.issues,
                first_agent_block(report::issues_of(issues@), 0) == first_agent_block(
                    report::issues_of(issues@),
                    i as int,
                ),
            decreases issues.len() - i,
        {
            let issue = &issues[i];
            if issue.severity == IssueSeverity::Fatal && (text::same(issue.path, "env")
                || text::starts_with(issue.path, "model")) {
                return Err(issue.message.clone());
            }
            i = i + 1;
        }
        Ok(())
    }

    /// Fail on any fatal issue: the gateway hosts every surface.
    pub fn validate_gateway(&self) -> (r: Result<(), String>)
        ensures
            reports(
                report::issues_of(self.report.issues@),
                report::first_fatal(report::issues_of(self.report.issues@), 0),
                r,
            ),
    {
        match self.report.fatal() {
            Some(issue) => Err(issue.message.clone()),
            None => Ok(()),
        }
    }
}

/// The home directory: the override where it is set and not empty, else `.komo`
/// in the user's directory.
pub open spec fn home_text(given: Option<String>, user_dir: Option<String>) -> Seq<char> {
    match text::set_text(given) {
        Some(h) => h,
        None => path::joined(user_dir->0@, ".komo"@),
    }
}

/// The home directory. One of the two must be known.
pub fn komo_home(given: Option<String>, user_dir: Option<String>) -> (r: String)
    requires
        text::set_text(given) is Some || user_dir is Some,
    ensures
        r@ == home_text(given, user_dir),
{
    match text::nonempty(&given) {
        Some(h) => h.to_owned(),
        None => path::join(user_dir.unwrap().as_str(), ".komo"),
    }
}

/// Directory holding the cached workday calendar, one file per year.
pub fn workday_cache_dir(home: &str) -> (r: String)
    ensures
        r@ == path::joined(home@, "workdays"@),
{
    path::join(home, "workdays")
}

/// Where the WeChat login credentials are stored.
pub fn wechat_cred_path(home: &str) -> (r: String)
    ensures
        r@ == path::joined(path::joined(home@, "wechat"@), "credentials.json"@),
{
    path::join(&path::join(home, "wechat"), "credentials.json")
}

// ---------------------------------------------------------------------------
// Laws of resolution
// ---------------------------------------------------------------------------

proof fn lemma_first_fatal(issues: Seq<report::Issue>, k: int)
    requires
        0 <= k,
    ensures
        match report::first_fatal(issues, k) {
            Some(i) => k <= i < issues.len() && issues[i].severity == IssueSeverity::Fatal,
            None => forall|j: int|
                k <= j < issues.len() ==> (#[trigger] issues[j]).severity != IssueSeverity::Fatal,
        },
    decreases issues.len() - k,
{
    if k < issues.len() && issues[k].severity != IssueSeverity::Fatal {
        lemma_first_fatal(issues, k + 1);
    }
}

proof fn lemma_first_agent_block(issues: Seq<report::Issue>, k: int)
    requires
        0 <= k,
    ensures
        match first_agent_block(issues, k) {
            Some(i) => k <= i < issues.len() && blocks_agent(issues[i]),
            None => forall|j: int| k <= j < issues.len() ==> !blocks_agent(#[trigger] issues[j]),
        },
    decreases issues.len() - k,
{
    if k < issues.len() && !blocks_agent(issues[k]) {
        lemma_first_agent_block(issues, k + 1);
    }
}

/// Whether an issue list blocks: some element satisfies the predicate.
pub open spec fn some_issue(issues: Seq<report::Issue>, p: spec_fn(report::Issue) -> bool) -> bool {
    exists|j: int| 0 <= j < issues.len() && p(#[trigger] issues[j])
}

proof fn lemma_some_concat(
    a: Seq<report::Issue>,
    b: Seq<report::Issue>,
    p: spec_fn(report::Issue) -> bool,
)
    ensures
        some_issue(a + b, p) == (some_issue(a, p) || some_issue(b, p)),
{
    let c = a + b;
    if some_issue(a, p) {
        let j = choose|j: int| 0 <= j < a.len() && p(#[trigger] a[j]);
        assert(c[j] == a[j]);
    }
    if some_issue(b, p) {
        let j = choose|j: int| 0 <= j < b.len() && p(#[trigger] b[j]);
        assert(c[j + a.len()] == b[j]);
    }
    if some_issue(c, p) {
        let j = choose|j: int| 0 <= j < c.len() && p(#[trigger] c[j]);
        if j < a.len() {
            assert(a[j] == c[j]);
        } else {
            assert(b[j - a.len()] == c[j]);
        }
    }
}

proof fn lemma_some_fault(
    path: Seq<char>,
    severity: IssueSeverity,
    fault: Option<Seq<char>>,
    p: spec_fn(report::Issue) -> bool,
)
    ensures
        some_issue(resolve::fault_issues(path, severity, fault), p) == (fault is Some && p(
            report::Issue { path, severity, message: fault->0 },
        )),
{
    let f = resolve::fault_issues(path, severity, fault);
    if fault is Some {
        assert(f[0] == (report::Issue { path, severity, message: fault->0 }));
    }
}

/// The parts of the issue list, one by one, for a given predicate.
proof fn lemma_all_issues(
    s: ConfigSources,
    pr: Provider,
    pf: Option<Seq<char>>,
    policy: Seq<report::Issue>,
    p: spec_fn(report::Issue) -> bool,
)
    ensures
        some_issue(resolve::all_issues(s, pr, pf, policy), p) == {
            ||| some_issue(
                resolve::fault_issues("env"@, IssueSeverity::Fatal, text::opt_text(s.env_error)),
                p,
            )
            ||| some_issue(
                resolve::fault_issues("model.provider"@, IssueSeverity::Fatal, pf),
                p,
            )
            ||| some_issue(
                resolve::fault_issues(
                    "model.api_key"@,
                    IssueSeverity::Warning,
                    resolve::key_fault(pr, s.secrets),
                ),
                p,
            )
            ||| some_issue(policy, p)
            ||| some_issue(
                resolve::fault_issues(
                    "channels.feishu"@,
                    IssueSeverity::Fatal,
                    resolve::feishu_fault(resolve::feishu_table(s.file.channels), s.secrets),
                ),
                p,
            )
            ||| some_issue(
                resolve::fault_issues(
                    "channels.telegram"@,
                    IssueSeverity::Fatal,
                    resolve::telegram_fault(resolve::telegram_table(s.file.channels), s.secrets),
                ),
                p,
            )
            ||| some_issue(
                resolve::fault_issues(
                    "channels.homeassistant"@,
                    IssueSeverity::Warning,
                    resolve::ha_fault(resolve::ha_table(s.file.channels), s.secrets),
                ),
                p,
            )
            ||| some_issue(
                resolve::fault_issues(
                    "channels.api"@,
                    IssueSeverity::Fatal,
                    resolve::api_fault(resolve::api_table(s.file.channels), s.secrets),
                ),
                p,
            )
        },
{
    let a0 = resolve::fault_issues("env"@, IssueSeverity::Fatal, text::opt_text(s.env_error));
    let a1 = resolve::fault_issues("model.provider"@, IssueSeverity::Fatal, pf);
    let a2 = resolve::fault_issues(
        "model.api_key"@,
        IssueSeverity::Warning,
        resolve::key_fault(pr, s.secrets),
    );
    let a4 = resolve::fault_issues(
        "channels.feishu"@,
        IssueSeverity::Fatal,
        resolve::feishu_fault(resolve::feishu_table(s.file.channels), s.secrets),
    );
    let a5 = resolve::fault_issues(
        "channels.telegram"@,
        IssueSeverity::Fatal,
        resolve::telegram_fault(resolve::telegram_table(s.file.channels), s.secrets),
    );
    let a6 = resolve::fault_issues(
        "channels.homeassistant"@,
        IssueSeverity::Warning,
        resolve::ha_fault(resolve::ha_table(s.file.channels), s.secrets),
    );
    let a7 = resolve::fault_issues(
        "channels.api"@,
        IssueSeverity::Fatal,
        resolve::api_fault(resolve::api_table(s.file.channels), s.secrets),
    );
    lemma_some_concat(a0, a1, p);
    lemma_some_concat(a0 + a1, a2, p);
    lemma_some_concat(a0 + a1 + a2, policy, p);
    lemma_some_concat(a0 + a1 + a2 + policy, a4, p);
    lemma_some_concat(a0 + a1 + a2 + policy + a4, a5, p);
    lemma_some_concat(a0 + a1 + a2 + policy + a4 + a5, a6, p);
    lemma_some_concat(a0 + a1 + a2 + policy + a4 + a5 + a6, a7, p);
}

proof fn lemma_all_faults(
    s: ConfigSources,
    pr: Provider,
    pf: Option<Seq<char>>,
    p: spec_fn(report::Issue) -> bool,
)
    ensures
        forall|path: Seq<char>, severity: IssueSeverity, fault: Option<Seq<char>>|
            some_issue(#[trigger] resolve::fault_issues(path, severity, fault), p) == (fault is Some
                && p(report::Issue { path, severity, message: fault->0 })),
{
    assert forall|path: Seq<char>, severity: IssueSeverity, fault: Option<Seq<char>>|
        some_issue(#[trigger] resolve::fault_issues(path, severity, fault), p) == (fault is Some
            && p(report::Issue { path, severity, message: fault->0 })) by {
        lemma_some_fault(path, severity, fault, p);
    }
}

/// The gateway starts exactly when the environment parses, the provider is known
/// and no enabled Feishu, Telegram or external API channel lacks its credential.
/// A missing model key, an invalid policy rule or a Home Assistant channel
/// without a token never stops it.
pub proof fn gateway_starts_unless(s: ConfigSources, spare: Seq<char>, c: ConfigSnapshot, r: Result<
    (),
    String,
>)
    requires
        resolve::is_resolution(s, spare, c.runtime, c.report),
        reports(
            report::issues_of(c.report.issues@),
            report::first_fatal(report::issues_of(c.report.issues@), 0),
            r,
        ),
    ensures
        r is Ok <==> {
            &&& s.env_error is None
            &&& resolve::selected(s).1 is None
            &&& resolve::feishu_fault(resolve::feishu_table(s.file.channels), s.secrets) is None
            &&& resolve::telegram_fault(
                resolve::telegram_table(s.file.channels),
                s.secrets,
            ) is None
            &&& resolve::api_fault(resolve::api_table(s.file.channels), s.secrets) is None
        },
{
    let issues = report::issues_of(c.report.issues@);
    let p = |i: report::Issue| i.severity == IssueSeverity::Fatal;
    lemma_first_fatal(issues, 0);
    let policy = resolve::table_issues(s.file.policy);
    lemma_all_issues(s, resolve::selected(s).0, resolve::selected(s).1, policy, p);
    lemma_all_faults(s, resolve::selected(s).0, resolve::selected(s).1, p);
    assert(!some_issue(policy, p)) by {
        assert forall|j: int| 0 <= j < policy.len() implies !p(#[trigger] policy[j]) by {
            assert(policy[j].severity == IssueSeverity::Warning);
        }
    }
    assert((r is Ok) == !some_issue(issues, p)) by {
        match report::first_fatal(issues, 0) {
            Some(i) => {
                assert(p(issues[i]));
            },
            None => {},
        }
    }
}

/// An agent turn is refused exactly when the environment does not parse or the
/// provider is unknown; no channel, policy or key problem stands in its way.
pub proof fn agent_starts_unless(s: ConfigSources, spare: Seq<char>, c: ConfigSnapshot, r: Result<
    (),
    String,
>)
    requires
        resolve::is_resolution(s, spare, c.runtime, c.report),
        reports(
            report::issues_of(c.report.issues@),
            first_agent_block(report::issues_of(c.report.issues@), 0),
            r,
        ),
    ensures
        r is Ok <==> s.env_error is None && resolve::selected(s).1 is None,
{
    let issues = report::issues_of(c.report.issues@);
    let p = |i: report::Issue| blocks_agent(i);
    lemma_first_agent_block(issues, 0);
    let policy = resolve::table_issues(s.file.policy);
    lemma_all_issues(s, resolve::selected(s).0, resolve::selected(s).1, policy, p);
    lemma_all_faults(s, resolve::selected(s).0, resolve::selected(s).1, p);
    assert(!some_issue(policy, p)) by {
        assert forall|j: int| 0 <= j < policy.len() implies !p(#[trigger] policy[j]) by {
            assert(policy[j].severity == IssueSeverity::Warning);
        }
    }
    reveal_strlit("env");
    reveal_strlit("model");
    reveal_strlit("model.provider");
    reveal_strlit("channels.feishu");
    reveal_strlit("channels.telegram");
    reveal_strlit("channels.api");
    assert("model.provider"@.subrange(0, 5) =~= "model"@);
    assert("channels.feishu"@.subrange(0, 5)[0] == 'c');
    assert("channels.telegram"@.subrange(0, 5)[0] == 'c');
    assert("channels.api"@.subrange(0, 5)[0] == 'c');
    assert((r is Ok) == !some_issue(issues, p)) by {
        match first_agent_block(issues, 0) {
            Some(i) => {
                assert(p(issues[i]));
            },
            None => {},
        }
    }
}

/// Whether two sets of credentials have the same ones set.
pub open spec fn same_presence(a: Secrets, b: Secrets) -> bool {
    &&& (text::set_text(a.deepseek_api_key) is Some) == (text::set_text(b.deepseek_api_key) is Some)
    &&& (text::set_text(a.openai_api_key) is Some) == (text::set_text(b.openai_api_key) is Some)
    &&& (text::set_text(a.anthropic_api_key) is Some) == (text::set_text(b.anthropic_api_key)
        is Some)
    &&& (text::set_text(a.openrouter_api_key) is Some) == (text::set_text(b.openrouter_api_key)
        is Some)
    &&& (text::set_text(a.feishu_app_id) is Some) == (text::set_text(b.feishu_app_id) is Some)
    &&& (text::set_text(a.feishu_app_secret) is Some) == (text::set_text(b.feishu_app_secret)
        is Some)
    &&& (text::set_text(a.telegram_bot_token) is Some) == (text::set_text(b.telegram_bot_token)
        is Some)
    &&& (text::set_text(a.api_server_key) is Some) == (text::set_text(b.api_server_key) is Some)
    &&& (text::set_text(a.hass_token) is Some) == (text::set_text(b.hass_token) is Some)
}

/// The report never holds a secret: it depends on which credentials are set and
/// not on their values, so exchanging every value leaves it the same.
pub proof fn report_is_blind_to_secret_values(
    s: ConfigSources,
    other: Secrets,
    spare_a: Seq<char>,
    spare_b: Seq<char>,
    a: ConfigSnapshot,
    b: ConfigSnapshot,
)
    requires
        same_presence(s.secrets, other),
        resolve::is_resolution(s, spare_a, a.runtime, a.report),
        resolve::is_resolution(
            (ConfigSources { secrets: other, ..s }),
            spare_b,
            b.runtime,
            b.report,
        ),
    ensures
        report::issues_of(a.report.issues@) == report::issues_of(b.report.issues@),
        a.report.provider_origin == b.report.provider_origin,
        a.report.model_origin == b.report.model_origin,
        a.report.provider_key_present@ == b.report.provider_key_present@,
{
    let t = ConfigSources { secrets: other, ..s };
    assert(resolve::selected(s) == resolve::selected(t));
    let p = resolve::selected(s).0;
    assert(resolve::key_fault(p, s.secrets) == resolve::key_fault(p, other));
    assert(resolve::keys_present(s.secrets) =~= resolve::keys_present(other)) by {
        assert forall|i: int| 0 <= i < 5 implies resolve::keys_present(s.secrets)[i]
            == resolve::keys_present(other)[i] by {
            let q = Provider::all_spec()[i];
            assert((text::set_text(s.secrets.slot(q)) is Some) == (text::set_text(other.slot(q))
                is Some));
        }
    }
}

/// Environment beats file beats built-in default, for every value that can come
/// from all three.
pub proof fn precedence(s: ConfigSources, spare: Seq<char>, c: ConfigSnapshot)
    requires
        resolve::is_resolution(s, spare, c.runtime, c.report),
    ensures
        ({
            let m = c.runtime.model;
            let p = resolve::selected(s).0;
            &&& s.env.model is Some ==> m.model@ == s.env.model->0@
            &&& s.env.model is None && s.file.model is Some ==> m.model@ == s.file.model->0@
            &&& s.env.model is None && s.file.model is None ==> m.model@ == p.default_model_spec()
            &&& s.env.max_turns is Some ==> m.max_turns == s.env.max_turns->0
            &&& s.env.max_turns is None && s.file.max_turns is Some ==> m.max_turns
                == s.file.max_turns->0
            &&& s.env.schedule is Some ==> c.runtime.maintenance_schedule@ == s.env.schedule->0@
            &&& s.env.schedule is None && s.file.schedule is Some
                ==> c.runtime.maintenance_schedule@ == s.file.schedule->0@
            &&& s.env.briefing_schedule is Some ==> c.runtime.briefing_schedule
                == s.env.briefing_schedule
            &&& s.env.briefing_schedule is None ==> c.runtime.briefing_schedule
                == s.file.briefing_schedule
        }),
{
}

/// The API channel is never off, and what is not declared external listens on
/// loopback only, on a port that the system picks.
pub proof fn api_is_always_on(s: ConfigSources, spare: Seq<char>, c: ConfigSnapshot)
    requires
        resolve::is_resolution(s, spare, c.runtime, c.report),
    ensures
        !(c.runtime.api is Disabled),
        !(resolve::api_table(s.file.channels) is Some && resolve::api_table(
            s.file.channels,
        )->0.enabled) ==> c.runtime.api is Ready && c.runtime.api->Ready_0.port == 0
            && c.runtime.api->Ready_0.bind@ == crate::config::resolved::DEFAULT_API_BIND@,
{
}

/// The cadence of looking a session over is never zero.
pub proof fn review_interval_is_positive(s: ConfigSources, spare: Seq<char>, c: ConfigSnapshot)
    requires
        resolve::is_resolution(s, spare, c.runtime, c.report),
    ensures
        c.runtime.review_interval > 0,
{
}

} // verus!
