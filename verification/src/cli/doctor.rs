//! The health report: what is configured, what is missing, and how it goes.
use crate::agent::schedule;
use crate::agent::schedule::local_stamp;
use crate::config::report::{ConfigIssue, ConfigReport, IssueSeverity};
use crate::config::resolved::{ApiConfig, ChannelState, PolicyReport, RuntimeConfig, WeChatConfig};
use crate::config::snapshot::ConfigSnapshot;
use crate::cli::policy;
use crate::domain::policy::Verdict;
use crate::domain::run::{Run, RunStatus};
use crate::number;
use crate::sorting;
use crate::text;
use vstd::prelude::*;

verus! {

/// Marks what works.
pub const OK: &'static str = "✓";

/// Marks what is off.
pub const OFF: &'static str = "·";

/// Marks what is broken.
pub const BAD: &'static str = "✗";

/// What a gateway process says of itself on disk.
#[derive(Debug)]
pub struct GatewayInfo {
    pub pid: u32,
    pub bind: String,
    pub port: u16,
}

/// Whether a gateway runs and answers.
pub open spec fn gateway_line(info: Option<GatewayInfo>, reachable: bool, file: Seq<char>) -> Seq<
    char,
> {
    match info {
        Some(i) => if reachable {
            "\ngateway: ✓ running (pid "@ + number::decimal(i.pid as nat) + ", api "@ + i.bind@
                + ":"@ + number::decimal(i.port as nat) + ")"@
        } else {
            "\ngateway: ✗ advertised (pid "@ + number::decimal(i.pid as nat)
                + ") but not answering — stale "@ + file + " or mid-restart?"@
        },
        None => "\ngateway: · not running (db opened directly)"@,
    }
}

/// Whether a gateway runs and answers, where `file` is where it advertises itself.
pub fn gateway_health(info: &Option<GatewayInfo>, reachable: bool, file: &str) -> (r: String)
    ensures
        r@ == gateway_line(*info, reachable, file@),
{
    match info {
        Some(i) => {
            if reachable {
                let mut out = "\ngateway: ✓ running (pid ".to_owned();
                out.push_str(&number::write_unsigned(i.pid as u64));
                out.push_str(", api ");
                out.push_str(&i.bind);
                out.push_str(":");
                out.push_str(&number::write_unsigned(i.port as u64));
                out.push_str(")");
                out
            } else {
                let mut out = "\ngateway: ✗ advertised (pid ".to_owned();
                out.push_str(&number::write_unsigned(i.pid as u64));
                out.push_str(") but not answering — stale ");
                out.push_str(file);
                out.push_str(" or mid-restart?");
                out
            }
        },
        None => "\ngateway: · not running (db opened directly)".to_owned(),
    }
}

/// An issue's line.
pub open spec fn issue_line(i: ConfigIssue) -> Seq<char> {
    "  "@ + if i.severity == IssueSeverity::Fatal {
        "✗"@
    } else {
        "!"@
    } + " "@ + i.path@ + ": "@ + i.message@
}

/// Every problem with the configuration; nothing where there is none.
pub open spec fn issue_lines(issues: Seq<ConfigIssue>) -> Seq<Seq<char>> {
    if issues.len() == 0 {
        Seq::empty()
    } else {
        seq!["\nconfig issues:"@] + issues.map_values(|i: ConfigIssue| issue_line(i))
    }
}

/// Every problem with the configuration, as found.
pub fn issue_health(issues: &Vec<ConfigIssue>) -> (r: Vec<String>)
    ensures
        text::views(r@) == issue_lines(issues@),
{
    let mut out: Vec<String> = Vec::new();
    assert(text::views(out@) =~= Seq::empty());
    if issues.len() == 0 {
        return out;
    }
    let ghost all = issues@.map_values(|i: ConfigIssue| issue_line(i));
    text::append_line(&mut out, "\nconfig issues:".to_owned());
    let ghost head = seq!["\nconfig issues:"@];
    let mut i: usize = 0;
    assert(text::views(out@) =~= head + all.take(0));
    while i < issues.len()
        invariant
            i <= issues.len(),
            all == issues@.map_values(|i: ConfigIssue| issue_line(i)),
            text::views(out@) == head + all.take(i as int),
        decreases issues.len() - i,
    {
        let issue = &issues[i];
        let mut line = "  ".to_owned();
        match issue.severity {
            IssueSeverity::Fatal => line.push_str("✗"),
            IssueSeverity::Warning => line.push_str("!"),
        }
        line.push_str(" ");
        line.push_str(issue.path);
        line.push_str(": ");
        line.push_str(&issue.message);
        text::append_line(&mut out, line);
        i = i + 1;
        assert(text::views(out@) =~= head + all.take(i as int));
    }
    assert(all.take(i as int) =~= all);
    out
}

/// The model in force and whether its credential is there, where `codex` says how the
/// Codex login was found.
pub open spec fn model_lines(rt: RuntimeConfig, report: ConfigReport, codex: Option<Seq<char>>) -> Seq<
    Seq<char>,
> {
    let p = rt.model.provider;
    seq![
        "\nmodel: "@ + p.name_spec() + " / "@ + rt.model.model@,
        if p != crate::config::provider::Provider::Codex {
            "  "@ + if report.has_key(p) {
                "✓"@
            } else {
                "✗"@
            } + " "@ + p.api_key_var_spec() + " "@ + if report.has_key(p) {
                "set"@
            } else {
                "MISSING"@
            }
        } else {
            match codex {
                None => "  ✓ Codex OAuth (~/.codex/auth.json)"@,
                Some(e) => "  ✗ Codex auth: "@ + e,
            }
        },
    ]
}

/// The model in force and whether its credential is there, where `codex` is what stands
/// against the Codex login.
pub fn model_health(rt: &RuntimeConfig, report: &ConfigReport, codex: Option<&str>) -> (r: Vec<
    String,
>)
    ensures
        text::views(r@) == model_lines(*rt, *report, text::opt_view(codex)),
{
    let p = rt.model.provider;
    let mut head = text::prefixed("\nmodel: ", p.name());
    head.push_str(" / ");
    head.push_str(&rt.model.model);
    let mut out = text::only(head);
    let line = if p.uses_api_key() {
        let has = report.key_present(p);
        let mut s = "  ".to_owned();
        if has {
            s.push_str("✓");
        } else {
            s.push_str("✗");
        }
        s.push_str(" ");
        s.push_str(p.api_key_var());
        s.push_str(" ");
        if has {
            s.push_str("set");
        } else {
            s.push_str("MISSING");
        }
        s
    } else {
        match codex {
            None => "  ✓ Codex OAuth (~/.codex/auth.json)".to_owned(),
            Some(e) => text::prefixed("  ✗ Codex auth: ", e),
        }
    };
    text::append_line(&mut out, line);
    assert(text::views(out@) =~= model_lines(*rt, *report, text::opt_view(codex)));
    out
}

/// The schedules of the sweeps.
pub open spec fn schedule_lines(rt: RuntimeConfig) -> Seq<Seq<char>> {
    seq![
        "\nsweeps:"@,
        "  maintenance  "@ + rt.maintenance_schedule@,
        match rt.briefing_schedule {
            Some(s) => "  briefing     "@ + s@ + if rt.briefing_workdays_only {
                " (Chinese workdays only)"@
            } else {
                ""@
            },
            None => "  briefing     · disabled (set briefing_schedule to enable)"@,
        },
        match rt.dream_schedule {
            Some(s) => "  dreaming     "@ + s@,
            None => "  dreaming     · disabled"@,
        },
        "  reminders    every minute"@,
        "  tasks        every minute"@,
    ]
}

/// The schedules of the sweeps.
pub fn schedule_health(rt: &RuntimeConfig) -> (r: Vec<String>)
    ensures
        text::views(r@) == schedule_lines(*rt),
{
    let mut out = text::only("\nsweeps:".to_owned());
    text::append_line(&mut out, text::prefixed("  maintenance  ", &rt.maintenance_schedule));
    let briefing = match &rt.briefing_schedule {
        Some(s) => text::between(
            "  briefing     ",
            s,
            if rt.briefing_workdays_only {
                " (Chinese workdays only)"
            } else {
                ""
            },
        ),
        None => "  briefing     · disabled (set briefing_schedule to enable)".to_owned(),
    };
    text::append_line(&mut out, briefing);
    let dreaming = match &rt.dream_schedule {
        Some(s) => text::prefixed("  dreaming     ", s),
        None => "  dreaming     · disabled".to_owned(),
    };
    text::append_line(&mut out, dreaming);
    text::append_line(&mut out, "  reminders    every minute".to_owned());
    text::append_line(&mut out, "  tasks        every minute".to_owned());
    assert(text::views(out@) =~= schedule_lines(*rt));
    out
}

/// The policy: whether there is one, how many rules, and what was ignored.
pub open spec fn policy_lines(
    configured: bool,
    rules: nat,
    default_normal: Verdict,
    invalid: nat,
) -> Seq<Seq<char>> {
    if !configured {
        seq![
            "\npolicy:"@,
            "  · no [policy] table — Normal/Dangerous actions ask interactively"@,
        ]
    } else {
        seq![
            "\npolicy:"@,
            "  ✓ "@ + number::decimal(rules) + " rule(s), default_normal = "@
                + policy::verdict_word(default_normal) + "  (see `komo policy list`)"@,
        ] + text::one_if(
            invalid > 0,
            "  ✗ "@ + number::decimal(invalid)
                + " invalid rule(s) ignored — fix [[policy.rule]] in config.toml"@,
        )
    }
}

/// The policy: whether there is one, how many rules, and what was ignored.
pub fn policy_health(report: &PolicyReport) -> (r: Vec<String>)
    ensures
        text::views(r@) == policy_lines(
            report.configured,
            report.policy.rule_list().len(),
            report.policy.normal_verdict(),
            report.invalid@.len(),
        ),
{
    let mut out = text::only("\npolicy:".to_owned());
    if !report.configured {
        text::append_line(
            &mut out,
            "  · no [policy] table — Normal/Dangerous actions ask interactively".to_owned(),
        );
        assert(text::views(out@) =~= seq![
            "\npolicy:"@,
            "  · no [policy] table — Normal/Dangerous actions ask interactively"@,
        ]);
        return out;
    }
    let mut line = "  ✓ ".to_owned();
    let rules = report.policy.rules();
    line.push_str(&number::write_size(rules.len()));
    line.push_str(" rule(s), default_normal = ");
    match report.policy.default_normal() {
        Verdict::Allow => line.push_str("allow"),
        Verdict::Deny => line.push_str("deny"),
        Verdict::Ask => line.push_str("ask"),
    }
    line.push_str("  (see `komo policy list`)");
    text::append_line(&mut out, line);
    assert(text::views(out@) =~= seq!["\npolicy:"@, line@]);
    text::append_if(
        &mut out,
        report.invalid.len() > 0,
        text::between(
            "  ✗ ",
            &number::write_size(report.invalid.len()),
            " invalid rule(s) ignored — fix [[policy.rule]] in config.toml",
        ),
    );
    out
}

/// A channel's line: its mark, its name and what is said of it.
pub open spec fn marked(mark: Seq<char>, label: Seq<char>, said: Seq<char>) -> Seq<char> {
    "  "@ + mark + " "@ + text::padded(label, 14) + " "@ + said
}

fn mark_line(mark: &str, label: &str, said: &str) -> (r: String)
    ensures
        r@ == marked(mark@, label@, said@),
{
    let mut out = "  ".to_owned();
    out.push_str(mark);
    out.push_str(" ");
    out.push_str(&text::pad(label, 14));
    out.push_str(" ");
    out.push_str(said);
    out
}

/// How a channel stands.
pub open spec fn channel_line<T>(label: Seq<char>, state: ChannelState<T>) -> Seq<char> {
    match state {
        ChannelState::Ready(_) => marked(OK@, label, "enabled"@),
        ChannelState::Disabled => marked(OFF@, label, "disabled"@),
        ChannelState::Misconfigured(e) => marked(BAD@, label, e@),
    }
}

fn line_of_channel<T>(label: &str, state: &ChannelState<T>) -> (r: String)
    ensures
        r@ == channel_line(label@, *state),
{
    match state {
        ChannelState::Ready(_) => mark_line(OK, label, "enabled"),
        ChannelState::Disabled => mark_line(OFF, label, "disabled"),
        ChannelState::Misconfigured(e) => mark_line(BAD, label, e),
    }
}

/// How the API channel stands: it is always on, and a fixed port means that it was
/// widened beyond this machine.
pub open spec fn api_line(api: ChannelState<ApiConfig>) -> Seq<char> {
    match api {
        ChannelState::Ready(cfg) => if cfg.port != 0 {
            marked(
                OK@,
                "api"@,
                "enabled (external "@ + cfg.bind@ + ":"@ + number::decimal(cfg.port as nat) + ")"@,
            )
        } else {
            marked(OK@, "api"@, "on (loopback-only, CLI)"@)
        },
        ChannelState::Misconfigured(e) => marked(BAD@, "api"@, e@),
        ChannelState::Disabled => arbitrary(),
    }
}

fn line_of_api(api: &ChannelState<ApiConfig>) -> (r: String)
    requires
        !(api is Disabled),
    ensures
        r@ == api_line(*api),
{
    match api {
        ChannelState::Ready(cfg) => {
            if cfg.port != 0 {
                let mut said = text::prefixed("enabled (external ", &cfg.bind);
                said.push_str(":");
                said.push_str(&number::write_unsigned(cfg.port as u64));
                said.push_str(")");
                mark_line(OK, "api", &said)
            } else {
                mark_line(OK, "api", "on (loopback-only, CLI)")
            }
        },
        ChannelState::Misconfigured(e) => mark_line(BAD, "api", e),
        ChannelState::Disabled => {
            assert(false);
            vstd::pervasive::unreached()
        },
    }
}

/// How the WeChat channel stands: its login is a file of its own.
pub open spec fn wechat_line(wechat: ChannelState<WeChatConfig>, logged_in: bool) -> Seq<char> {
    if wechat is Ready && !logged_in {
        marked(
            BAD@,
            "wechat"@,
            "enabled but not logged in (run `komo channel wechat login`)"@,
        )
    } else {
        channel_line("wechat"@, wechat)
    }
}

/// One line for each channel, and one for the Home Assistant tool.
pub open spec fn channel_lines(rt: RuntimeConfig, logged_in: bool) -> Seq<Seq<char>> {
    seq![
        "\nchannels:"@,
        channel_line("feishu"@, rt.feishu),
        channel_line("telegram"@, rt.telegram),
        channel_line("homeassistant"@, rt.homeassistant_channel),
        api_line(rt.api),
        wechat_line(rt.wechat, logged_in),
        if rt.homeassistant_tool is Some {
            "  ✓ HASS_TOKEN set"@
        } else {
            "  · HASS_TOKEN unset (homeassistant tool not registered)"@
        },
    ]
}

/// One line for each channel, and one for the Home Assistant tool.
pub fn channel_health(rt: &RuntimeConfig, logged_in: bool) -> (r: Vec<String>)
    requires
        !(rt.api is Disabled),
    ensures
        text::views(r@) == channel_lines(*rt, logged_in),
{
    let mut out = text::only("\nchannels:".to_owned());
    text::append_line(&mut out, line_of_channel("feishu", &rt.feishu));
    text::append_line(&mut out, line_of_channel("telegram", &rt.telegram));
    text::append_line(&mut out, line_of_channel("homeassistant", &rt.homeassistant_channel));
    text::append_line(&mut out, line_of_api(&rt.api));
    let ready = rt.wechat.ready().is_some();
    let wechat = if ready && !logged_in {
        mark_line(BAD, "wechat", "enabled but not logged in (run `komo channel wechat login`)")
    } else {
        line_of_channel("wechat", &rt.wechat)
    };
    text::append_line(&mut out, wechat);
    let tool = if rt.homeassistant_tool.is_some() {
        "  ✓ HASS_TOKEN set".to_owned()
    } else {
        "  · HASS_TOKEN unset (homeassistant tool not registered)".to_owned()
    };
    text::append_line(&mut out, tool);
    assert(text::views(out@) =~= channel_lines(*rt, logged_in));
    out
}

/// The configured home chat of a channel.
pub open spec fn feishu_home(rt: RuntimeConfig) -> Option<Seq<char>> {
    match rt.feishu {
        ChannelState::Ready(c) => text::opt_text(c.home_chat),
        _ => None,
    }
}

/// The configured home chat of a channel.
pub open spec fn telegram_home(rt: RuntimeConfig) -> Option<Seq<char>> {
    match rt.telegram {
        ChannelState::Ready(c) => text::opt_text(c.home_chat),
        _ => None,
    }
}

/// The configured home chat of a channel.
pub open spec fn wechat_home(rt: RuntimeConfig) -> Option<Seq<char>> {
    match rt.wechat {
        ChannelState::Ready(c) => text::opt_text(c.home_chat),
        _ => None,
    }
}

/// The configured home chat with its platform: Feishu's first, then Telegram's, then
/// WeChat's.
pub open spec fn home_chat(rt: RuntimeConfig) -> Option<Seq<char>> {
    match feishu_home(rt) {
        Some(c) => Some("feishu:"@ + c),
        None => match telegram_home(rt) {
            Some(c) => Some("telegram:"@ + c),
            None => match wechat_home(rt) {
                Some(c) => Some("wechat:"@ + c),
                None => None,
            },
        },
    }
}

/// The configured home chat with its platform.
pub fn config_home_chat(rt: &RuntimeConfig) -> (r: Option<String>)
    ensures
        text::opt_text(r) == home_chat(*rt),
{
    if let Some(c) = rt.feishu.ready() {
        if let Some(chat) = &c.home_chat {
            return Some(text::prefixed("feishu:", chat));
        }
    }
    if let Some(c) = rt.telegram.ready() {
        if let Some(chat) = &c.home_chat {
            return Some(text::prefixed("telegram:", chat));
        }
    }
    if let Some(c) = rt.wechat.ready() {
        if let Some(chat) = &c.home_chat {
            return Some(text::prefixed("wechat:", chat));
        }
    }
    None
}

/// Where proactive output goes: to the session chosen at run time, else to the
/// configured chat.
pub open spec fn home_lines(
    rt: RuntimeConfig,
    chosen: Result<Option<Seq<char>>, Seq<char>>,
) -> Seq<Seq<char>> {
    seq![
        "\nhome channel (proactive output):"@,
        match chosen {
            Ok(Some(session)) => "  ✓ /sethome override → "@ + session,
            Ok(None) => match home_chat(rt) {
                Some(c) => "  ✓ config home_chat → "@ + c,
                None => "  · none set — proactive output falls back to the macOS notifier"@,
            },
            Err(e) => "  ✗ could not read home setting: "@ + e,
        },
    ]
}

/// A result as mathematical values.
pub open spec fn chosen_view(r: Result<Option<String>, String>) -> Result<
    Option<Seq<char>>,
    Seq<char>,
> {
    match r {
        Ok(o) => Ok(text::opt_text(o)),
        Err(e) => Err(e@),
    }
}

/// Where proactive output goes, `chosen` being what the store says.
pub fn home_channel_health(rt: &RuntimeConfig, chosen: &Result<Option<String>, String>) -> (r: Vec<
    String,
>)
    ensures
        text::views(r@) == home_lines(*rt, chosen_view(*chosen)),
{
    let mut out = text::only("\nhome channel (proactive output):".to_owned());
    let line = match chosen {
        Ok(Some(session)) => text::prefixed("  ✓ /sethome override → ", session),
        Ok(None) => match config_home_chat(rt) {
            Some(c) => text::prefixed("  ✓ config home_chat → ", &c),
            None => "  · none set — proactive output falls back to the macOS notifier".to_owned(),
        },
        Err(e) => text::prefixed("  ✗ could not read home setting: ", e),
    };
    text::append_line(&mut out, line);
    assert(text::views(out@) =~= home_lines(*rt, chosen_view(*chosen)));
    out
}

/// The positions of the failed runs.
pub open spec fn failed_runs(runs: Seq<Run>) -> Seq<int> {
    sorting::chosen(Seq::new(runs.len(), |i: int| runs[i].status == RunStatus::Failed))
}

/// A failed run's line, where `at` is how its start reads.
pub open spec fn failure_line(r: Run, at: Seq<char>) -> Seq<char> {
    "  ✗ "@ + r.id@ + " "@ + at + " "@ + if r.error@.len() == 0 {
        "—"@
    } else {
        r.error@
    }
}

/// A failed run's line, where `at` is how its start reads.
pub fn line_of_failure(r: &Run, at: &str) -> (s: String)
    ensures
        s@ == failure_line(*r, at@),
{
    let mut s = text::prefixed("  ✗ ", &r.id);
    s.push_str(" ");
    s.push_str(at);
    s.push_str(" ");
    if r.error.as_str().is_empty() {
        s.push_str("—");
    } else {
        s.push_str(&r.error);
    }
    s
}

/// Whether `lines` is the health of the recent runs, for some reading of their times:
/// how many failed, and the most recent three of those.
pub open spec fn is_run_health(runs: Result<Vec<Run>, String>, lines: Seq<Seq<char>>) -> bool {
    match runs {
        Err(e) => lines == seq!["\nrecent runs:"@, "  ✗ could not read run ledger: "@ + e@],
        Ok(list) => if list@.len() == 0 {
            lines == seq!["\nrecent runs:"@, "  (no runs recorded)"@]
        } else {
            let failed = failed_runs(list@);
            &&& lines.len() == 2 + text::head_len(failed.len(), 3)
            &&& lines[0] == "\nrecent runs:"@
            &&& lines[1] == "  last "@ + number::decimal(list@.len()) + " turns, "@
                + number::decimal(failed.len()) + " failed"@
            &&& forall|k: int|
                2 <= k < lines.len() ==> is_failure_line(
                    list@[failed[k - 2]],
                    #[trigger] lines[k],
                )
        },
    }
}

/// Whether `line` is the line of a failed run for some reading of its time.
pub open spec fn is_failure_line(r: Run, line: Seq<char>) -> bool {
    exists|at: Seq<char>|
        schedule::is_local_stamp(r.started_at, at) && line == #[trigger] failure_line(r, at)
}

/// The health of the recent runs, times on the machine's own wall clock.
pub fn run_health(runs: &Result<Vec<Run>, String>) -> (r: Vec<String>)
    ensures
        is_run_health(*runs, text::views(r@)),
{
    let mut out = text::only("\nrecent runs:".to_owned());
    let list = match runs {
        Ok(list) => list,
        Err(e) => {
            text::append_line(&mut out, text::prefixed("  ✗ could not read run ledger: ", e));
            assert(text::views(out@) =~= seq![
                "\nrecent runs:"@,
                "  ✗ could not read run ledger: "@ + e@,
            ]);
            return out;
        },
    };
    if list.len() == 0 {
        text::append_line(&mut out, "  (no runs recorded)".to_owned());
        assert(text::views(out@) =~= seq!["\nrecent runs:"@, "  (no runs recorded)"@]);
        return out;
    }
    let ghost wanted = Seq::new(list@.len(), |i: int| list@[i].status == RunStatus::Failed);
    let mut flags: Vec<bool> = Vec::new();
    let mut i: usize = 0;
    while i < list.len()
        invariant
            i <= list.len(),
            wanted == Seq::new(list@.len(), |i: int| list@[i].status == RunStatus::Failed),
            flags@ =~= wanted.take(i as int),
        decreases list.len() - i,
    {
        flags.push(list[i].status == RunStatus::Failed);
        i = i + 1;
    }
    assert(flags@ =~= wanted);
    let failed = sorting::positions(&flags);
    let mut counted = "  last ".to_owned();
    counted.push_str(&number::write_size(list.len()));
    counted.push_str(" turns, ");
    counted.push_str(&number::write_size(failed.len()));
    counted.push_str(" failed");
    text::append_line(&mut out, counted);
    let limit: usize = if failed.len() < 3 {
        failed.len()
    } else {
        3
    };
    let mut j: usize = 0;
    assert(text::views(out@).len() == 2);
    while j < limit
        invariant
            j <= limit <= failed.len(),
            failed@.len() == failed_runs(list@).len(),
            forall|k: int| 0 <= k < failed@.len() ==> #[trigger] failed@[k] < list@.len(),
            forall|k: int|
                0 <= k < failed@.len() ==> failed@[k] == #[trigger] failed_runs(list@)[k],
            text::views(out@).len() == 2 + j,
            text::views(out@)[0] == "\nrecent runs:"@,
            text::views(out@)[1] == counted@,
            forall|k: int|
                2 <= k < 2 + j ==> is_failure_line(
                    list@[failed_runs(list@)[k - 2]],
                    #[trigger] text::views(out@)[k],
                ),
        decreases limit - j,
    {
        assert(failed@[j as int] == failed_runs(list@)[j as int]);
        let run = &list[failed[j]];
        let at = local_stamp(run.started_at);
        let ghost before = text::views(out@);
        let line = line_of_failure(run, &at);
        text::append_line(&mut out, line);
        proof {
            assert(text::views(out@)[2 + j] == failure_line(*run, at@));
            assert forall|k: int| 2 <= k < 3 + j implies is_failure_line(
                list@[failed_runs(list@)[k - 2]],
                #[trigger] text::views(out@)[k],
            ) by {
                if k < 2 + j {
                    assert(text::views(out@)[k] == before[k]);
                }
            }
        }
        j = j + 1;
    }
    out
}

/// What the report reads from outside the configuration.
pub struct Findings {
    pub gateway: Option<GatewayInfo>,
    pub reachable: bool,
    /// Where a gateway advertises itself.
    pub rendezvous: String,
    /// What stands against the Codex login; none where it works.
    pub codex: Option<String>,
    /// Whether the WeChat credentials are there.
    pub wechat_logged_in: bool,
    /// The session that proactive output was sent to at run time.
    pub home: Result<Option<String>, String>,
    /// The last fifty runs.
    pub runs: Result<Vec<Run>, String>,
}

/// The part of the report that the configuration and the findings determine.
pub open spec fn settled_lines(config: ConfigSnapshot, f: Findings) -> Seq<Seq<char>> {
    let rt = config.runtime;
    seq!["home: "@ + rt.home@].push(gateway_line(f.gateway, f.reachable, f.rendezvous@))
        + issue_lines(config.report.issues@) + model_lines(
        rt,
        config.report,
        text::opt_text(f.codex),
    ) + schedule_lines(rt) + policy_lines(
        rt.policy.configured,
        rt.policy.policy.rule_list().len(),
        rt.policy.policy.normal_verdict(),
        rt.policy.invalid@.len(),
    ) + channel_lines(rt, f.wechat_logged_in) + home_lines(rt, chosen_view(f.home))
}

/// The whole report.
pub fn doctor(config: &ConfigSnapshot, f: &Findings) -> (r: Vec<String>)
    requires
        !(config.runtime.api is Disabled),
    ensures
        exists|runs: Seq<Seq<char>>| #[trigger]
            is_run_health(f.runs, runs) && text::views(r@) == settled_lines(*config, *f) + runs,
{
    let rt = &config.runtime;
    let mut out = text::only(text::prefixed("home: ", &rt.home));
    text::append_line(&mut out, gateway_health(&f.gateway, f.reachable, &f.rendezvous));
    text::append_lines(&mut out, issue_health(&config.report.issues));
    let codex = match &f.codex {
        Some(e) => Some(e.as_str()),
        None => None,
    };
    text::append_lines(&mut out, model_health(rt, &config.report, codex));
    text::append_lines(&mut out, schedule_health(rt));
    text::append_lines(&mut out, policy_health(&rt.policy));
    text::append_lines(&mut out, channel_health(rt, f.wechat_logged_in));
    text::append_lines(&mut out, home_channel_health(rt, &f.home));
    assert(text::views(out@) == settled_lines(*config, *f));
    let runs = run_health(&f.runs);
    let ghost shown = text::views(runs@);
    text::append_lines(&mut out, runs);
    assert(is_run_health(f.runs, shown));
    out
}

} // verus!
