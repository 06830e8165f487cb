//! What the gateway process hosts, from the resolved configuration.
use crate::agent::schedule;
use crate::agent::schedule::Schedule;
use crate::cli::doctor;
use crate::cli::doctor::config_home_chat;
use crate::config::report;
use crate::config::report::{ConfigIssue, IssueSeverity};
use crate::config::resolved::{RuntimeConfig, DEFAULT_MAINTENANCE_SCHEDULE};
use crate::config::snapshot;
use crate::config::snapshot::ConfigSnapshot;
use crate::text;
use vstd::prelude::*;

verus! {

/// The schedule of what runs every minute.
pub const EVERY_MINUTE: &'static str = "* * * * *";

/// The maintenance schedule in force: a typo degrades to the default, so that it never
/// takes an always-on process down.
pub fn schedule_or_default(expr: &str) -> (r: (Schedule, String))
    ensures
        r.1@ == if schedule::cron_fault(expr@) is None {
            expr@
        } else {
            DEFAULT_MAINTENANCE_SCHEDULE@
        },
        r.0.pattern() == r.1@,
{
    match Schedule::parse(expr) {
        Ok(s) => (s, expr.to_owned()),
        Err(_) => {
            let fallback = Schedule::parse(DEFAULT_MAINTENANCE_SCHEDULE);
            match fallback {
                Ok(s) => (s, DEFAULT_MAINTENANCE_SCHEDULE.to_owned()),
                Err(_) => {
                    assert(false);
                    vstd::pervasive::unreached()
                },
            }
        },
    }
}

/// The schedule of an optional sweep: a typo turns the sweep off, never the process.
pub open spec fn effective(expr: Option<Seq<char>>) -> Option<Seq<char>> {
    match expr {
        Some(e) => if schedule::cron_fault(e) is None {
            Some(e)
        } else {
            None
        },
        None => None,
    }
}

/// The schedule of an optional sweep, with the expression in force.
pub fn optional_schedule(expr: Option<&str>) -> (r: (Option<Schedule>, Option<String>))
    ensures
        text::opt_text(r.1) == effective(text::opt_view(expr)),
        match r.0 {
            Some(s) => r.1 is Some && s.pattern() == r.1->Some_0@,
            None => r.1 is None,
        },
{
    match expr {
        None => (None, None),
        Some(e) => match Schedule::parse(e) {
            Ok(s) => (Some(s), Some(e.to_owned())),
            Err(_) => (None, None),
        },
    }
}

/// The sweeps of the process.
#[derive(Debug, Clone, Copy, PartialEq, Eq, Structural)]
pub enum Sweep {
    Review,
    Reminders,
    Tasks,
    /// The daily briefing; gated to working days where that is configured.
    Briefing { workdays_only: bool },
    Dreaming,
}

impl Sweep {
    /// What the process calls it.
    pub open spec fn word(self) -> Seq<char> {
        match self {
            Sweep::Review => "review"@,
            Sweep::Reminders => "reminders"@,
            Sweep::Tasks => "tasks"@,
            Sweep::Briefing { .. } => "briefing"@,
            Sweep::Dreaming => "dreaming"@,
        }
    }

    pub fn name(self) -> (r: &'static str)
        ensures
            r@ == self.word(),
    {
        match self {
            Sweep::Review => "review",
            Sweep::Reminders => "reminders",
            Sweep::Tasks => "tasks",
            Sweep::Briefing { .. } => "briefing",
            Sweep::Dreaming => "dreaming",
        }
    }
}

/// A sweep on its schedule.
pub struct Service {
    pub sweep: Sweep,
    pub schedule: Schedule,
}

/// The sweeps and schedules of a list of services.
pub open spec fn services_of(list: Seq<Service>) -> Seq<(Sweep, Seq<char>)> {
    list.map_values(|s: Service| (s.sweep, s.schedule.pattern()))
}

/// A service that is there where its schedule is.
pub open spec fn service_if(sweep: Sweep, expr: Option<Seq<char>>) -> Seq<(Sweep, Seq<char>)> {
    match expr {
        Some(e) => seq![(sweep, e)],
        None => Seq::empty(),
    }
}

/// The services of the process.
pub open spec fn planned_services(rt: RuntimeConfig) -> Seq<(Sweep, Seq<char>)> {
    seq![
        (
            Sweep::Review,
            if schedule::cron_fault(rt.maintenance_schedule@) is None {
                rt.maintenance_schedule@
            } else {
                DEFAULT_MAINTENANCE_SCHEDULE@
            },
        ),
        (Sweep::Reminders, EVERY_MINUTE@),
        (Sweep::Tasks, EVERY_MINUTE@),
    ] + service_if(
        Sweep::Briefing { workdays_only: rt.briefing_workdays_only },
        effective(text::opt_text(rt.briefing_schedule)),
    ) + service_if(Sweep::Dreaming, effective(text::opt_text(rt.dream_schedule)))
}

/// The chat channels that are ready.
pub open spec fn chat_channels(rt: RuntimeConfig) -> Seq<Seq<char>> {
    text::one_if(rt.feishu is Ready, "feishu"@) + text::one_if(
        rt.telegram is Ready,
        "telegram"@,
    ) + text::one_if(rt.wechat is Ready, "wechat"@)
}

/// The channels of the process, the API channel last.
pub open spec fn planned_channels(rt: RuntimeConfig) -> Seq<Seq<char>> {
    chat_channels(rt) + text::one_if(rt.homeassistant_channel is Ready, "homeassistant"@) + seq![
        "api"@,
    ]
}

/// An expression in the banner.
pub open spec fn in_banner(expr: Option<Seq<char>>) -> Seq<char> {
    match expr {
        Some(e) => "`"@ + e + "`"@,
        None => "off"@,
    }
}

fn show_expr(expr: &Option<String>) -> (r: String)
    ensures
        r@ == in_banner(text::opt_text(*expr)),
{
    match expr {
        Some(e) => text::between("`", e, "`"),
        None => "off".to_owned(),
    }
}

/// What the process says when it starts.
pub open spec fn banner(
    maintenance: Seq<char>,
    briefing: Option<Seq<char>>,
    dreaming: Option<Seq<char>>,
    channels: Seq<Seq<char>>,
) -> Seq<char> {
    "Komo gateway — maintenance `"@ + maintenance + "`, reminders every minute, briefing "@
        + in_banner(briefing) + ", dreaming "@ + in_banner(dreaming) + ", channels: "@
        + text::joined(channels, ", "@) + ". Ctrl-C to stop.\n"@
}

/// What the process hosts.
pub struct GatewayPlan {
    pub services: Vec<Service>,
    pub channels: Vec<String>,
    /// Where proactive output goes unless the user chose a chat at run time.
    pub config_home: Option<String>,
    /// Whether a shutdown is announced: only where there is a chat to hear it.
    pub announces_shutdown: bool,
    pub banner: String,
}

impl GatewayPlan {
    /// Whether `self` is what a configuration calls for.
    pub open spec fn fits(self, rt: RuntimeConfig) -> bool {
        &&& services_of(self.services@) == planned_services(rt)
        &&& text::views(self.channels@) == planned_channels(rt)
        &&& text::opt_text(self.config_home) == doctor::home_chat(rt)
        &&& self.announces_shutdown == (chat_channels(rt).len() > 0)
        &&& self.banner@ == banner(
            planned_services(rt)[0].1,
            effective(text::opt_text(rt.briefing_schedule)),
            effective(text::opt_text(rt.dream_schedule)),
            planned_channels(rt),
        )
    }
}

fn channels_for(rt: &RuntimeConfig) -> (r: (Vec<String>, bool))
    ensures
        text::views(r.0@) == planned_channels(*rt),
        r.1 == (chat_channels(*rt).len() > 0),
{
    let mut out: Vec<String> = Vec::new();
    assert(text::views(out@) =~= Seq::empty());
    text::append_if(&mut out, rt.feishu.ready().is_some(), "feishu".to_owned());
    assert(text::views(out@) =~= text::one_if(rt.feishu is Ready, "feishu"@));
    text::append_if(&mut out, rt.telegram.ready().is_some(), "telegram".to_owned());
    text::append_if(&mut out, rt.wechat.ready().is_some(), "wechat".to_owned());
    assert(text::views(out@) == chat_channels(*rt));
    assert(out@.len() == text::views(out@).len());
    let chat = out.len() > 0;
    text::append_if(
        &mut out,
        rt.homeassistant_channel.ready().is_some(),
        "homeassistant".to_owned(),
    );
    text::append_line(&mut out, "api".to_owned());
    assert(text::views(out@) =~= planned_channels(*rt));
    (out, chat)
}

/// What the process hosts; the first fatal issue of the configuration, or an API channel
/// that is not ready, keeps it from starting.
pub fn run(config: &ConfigSnapshot) -> (r: Result<GatewayPlan, String>)
    ensures
        match report::first_fatal(report::issues_of(config.report.issues@), 0) {
            Some(k) => r matches Err(e) && snapshot::reports(
                report::issues_of(config.report.issues@),
                Some(k),
                Err(e),
            ),
            None => if config.runtime.api is Ready {
                r matches Ok(plan) && plan.fits(config.runtime)
            } else {
                r matches Err(e) && e@ == "api channel misconfigured"@
            },
        },
{
    match config.validate_gateway() {
        Ok(_) => {},
        Err(e) => return Err(e),
    }
    let rt = &config.runtime;
    if rt.api.ready().is_none() {
        return Err("api channel misconfigured".to_owned());
    }
    let (review, maintenance) = schedule_or_default(&rt.maintenance_schedule);
    let reminders = match Schedule::parse(EVERY_MINUTE) {
        Ok(s) => s,
        Err(e) => return Err(e),
    };
    let tasks = match Schedule::parse(EVERY_MINUTE) {
        Ok(s) => s,
        Err(e) => return Err(e),
    };
    let briefing_expr = match &rt.briefing_schedule {
        Some(s) => Some(s.as_str()),
        None => None,
    };
    let dream_expr = match &rt.dream_schedule {
        Some(s) => Some(s.as_str()),
        None => None,
    };
    let (briefing, briefing_in_force) = optional_schedule(briefing_expr);
    let (dreaming, dream_in_force) = optional_schedule(dream_expr);
    let mut services: Vec<Service> = Vec::new();
    services.push(Service { sweep: Sweep::Review, schedule: review });
    services.push(Service { sweep: Sweep::Reminders, schedule: reminders });
    services.push(Service { sweep: Sweep::Tasks, schedule: tasks });
    let ghost always = seq![
        planned_services(*rt)[0],
        (Sweep::Reminders, EVERY_MINUTE@),
        (Sweep::Tasks, EVERY_MINUTE@),
    ];
    assert(services_of(services@) =~= always);
    let ghost sweep = Sweep::Briefing { workdays_only: rt.briefing_workdays_only };
    if let Some(s) = briefing {
        services.push(
            Service {
                sweep: Sweep::Briefing { workdays_only: rt.briefing_workdays_only },
                schedule: s,
            },
        );
    }
    let ghost with_briefing = always + service_if(
        sweep,
        effective(text::opt_text(rt.briefing_schedule)),
    );
    assert(services_of(services@) =~= with_briefing);
    if let Some(s) = dreaming {
        services.push(Service { sweep: Sweep::Dreaming, schedule: s });
    }
    assert(services_of(services@) =~= planned_services(*rt));
    let (channels, chat) = channels_for(rt);
    let mut said = text::between(
        "Komo gateway — maintenance `",
        &maintenance,
        "`, reminders every minute, briefing ",
    );
    said.push_str(&show_expr(&briefing_in_force));
    said.push_str(", dreaming ");
    said.push_str(&show_expr(&dream_in_force));
    said.push_str(", channels: ");
    said.push_str(&text::join(&channels, ", "));
    said.push_str(". Ctrl-C to stop.\n");
    Ok(
        GatewayPlan {
            services,
            channels,
            config_home: config_home_chat(rt),
            announces_shutdown: chat,
            banner: said,
        },
    )
}

/// The warnings that a start tolerates, each with what it is about.
pub open spec fn warnings(issues: Seq<ConfigIssue>) -> Seq<(Seq<char>, Seq<char>)>
    decreases issues.len(),
{
    if issues.len() == 0 {
        Seq::empty()
    } else if issues.last().severity == IssueSeverity::Warning {
        warnings(issues.drop_last()).push((issues.last().path@, issues.last().message@))
    } else {
        warnings(issues.drop_last())
    }
}

/// The warnings that a start tolerates, each with what it is about.
pub fn tolerated(issues: &Vec<ConfigIssue>) -> (r: Vec<(&'static str, String)>)
    ensures
        r@.map_values(|p: (&'static str, String)| (p.0@, p.1@)) == warnings(issues@),
{
    let mut out: Vec<(&'static str, String)> = Vec::new();
    let mut i: usize = 0;
    assert(out@.map_values(|p: (&'static str, String)| (p.0@, p.1@)) =~= warnings(issues@.take(0)));
    while i < issues.len()
        invariant
            i <= issues.len(),
            out@.map_values(|p: (&'static str, String)| (p.0@, p.1@)) == warnings(
                issues@.take(i as int),
            ),
        decreases issues.len() - i,
    {
        let ghost before = out@;
        assert(issues@.take(i + 1).drop_last() =~= issues@.take(i as int));
        if issues[i].severity == IssueSeverity::Warning {
            out.push((issues[i].path, issues[i].message.clone()));
            assert(out@.map_values(|p: (&'static str, String)| (p.0@, p.1@))
                =~= before.map_values(|p: (&'static str, String)| (p.0@, p.1@)).push(
                (issues@[i as int].path@, issues@[i as int].message@),
            ));
        }
        i = i + 1;
    }
    assert(issues@.take(i as int) =~= issues@);
    out
}

/// A bad optional schedule turns off its own sweep alone: the rest of the services stay.
pub proof fn typos_never_take_the_gateway_down(rt: RuntimeConfig)
    ensures
        planned_services(rt).len() >= 3,
        planned_services(rt)[0].0 == Sweep::Review,
        planned_services(rt)[1] == (Sweep::Reminders, EVERY_MINUTE@),
        planned_services(rt)[2] == (Sweep::Tasks, EVERY_MINUTE@),
{
}

/// The API channel is always served.
pub proof fn the_api_is_always_served(rt: RuntimeConfig)
    ensures
        planned_channels(rt).last() == "api"@,
{
}

} // verus!
