//! What holds of the process that serves, in terms of its settings and what it hosts.
use crate::agent::schedule;
use crate::cli::gateway;
use crate::cli::gateway::{GatewayPlan, Sweep};
use crate::cli::wiring;
use crate::cli::wiring::{ToolKind, Wiring};
use crate::config::snapshot::ConfigSnapshot;
use crate::path;
use crate::text;
use vstd::prelude::*;

verus! {

/// Whether a plan runs a sweep on a schedule.
pub open spec fn runs(plan: GatewayPlan, sweep: Sweep, expr: Seq<char>) -> bool {
    exists|k: int|
        0 <= k < plan.services@.len() && (#[trigger] plan.services@[k]).sweep == sweep
            && plan.services@[k].schedule.pattern() == expr
}

proof fn lemma_runs(plan: GatewayPlan, k: int)
    requires
        0 <= k < gateway::services_of(plan.services@).len(),
    ensures
        runs(
            plan,
            gateway::services_of(plan.services@)[k].0,
            gateway::services_of(plan.services@)[k].1,
        ),
{
    let s = gateway::services_of(plan.services@);
    assert(s.len() == plan.services@.len());
    assert(s[k] == (plan.services@[k].sweep, plan.services@[k].schedule.pattern()));
}

/// Reminders and tasks are looked over every minute, and sessions on the configured
/// schedule, or hourly where that does not parse; a briefing and dreaming run exactly where
/// their schedule is set and parses.
pub proof fn the_process_runs_its_sweeps(
    config: &ConfigSnapshot,
    r: Result<GatewayPlan, String>,
)
    requires
        call_ensures(gateway::run, (config,), r),
        r is Ok,
    ensures
        ({
            let plan = r->Ok_0;
            let rt = config.runtime;
            let brief = rt.briefing_schedule is Some && schedule::cron_fault(
                rt.briefing_schedule->0@,
            ) is None;
            let dream = rt.dream_schedule is Some && schedule::cron_fault(rt.dream_schedule->0@)
                is None;
            &&& runs(plan, Sweep::Reminders, "* * * * *"@)
            &&& runs(plan, Sweep::Tasks, "* * * * *"@)
            &&& schedule::cron_fault(rt.maintenance_schedule@) is None ==> runs(
                plan,
                Sweep::Review,
                rt.maintenance_schedule@,
            )
            &&& schedule::cron_fault(rt.maintenance_schedule@) is Some ==> runs(
                plan,
                Sweep::Review,
                "0 * * * *"@,
            )
            &&& brief ==> runs(
                plan,
                Sweep::Briefing { workdays_only: rt.briefing_workdays_only },
                rt.briefing_schedule->0@,
            )
            &&& dream ==> runs(plan, Sweep::Dreaming, rt.dream_schedule->0@)
            &&& plan.services@.len() == 3 + (if brief {
                1int
            } else {
                0
            }) + (if dream {
                1int
            } else {
                0
            })
        }),
{
    let plan = r->Ok_0;
    let rt = config.runtime;
    let s = gateway::services_of(plan.services@);
    assert(s == gateway::planned_services(rt));
    assert(s.len() == plan.services@.len());
    lemma_runs(plan, 0);
    lemma_runs(plan, 1);
    lemma_runs(plan, 2);
    if s.len() > 3 {
        lemma_runs(plan, 3);
    }
    if s.len() > 4 {
        lemma_runs(plan, 4);
    }
}

/// A chat channel is served exactly where it is ready, the API always; and a shutdown is
/// announced exactly where there is a chat to hear it.
pub proof fn ready_channels_are_served(config: &ConfigSnapshot, r: Result<GatewayPlan, String>)
    requires
        call_ensures(gateway::run, (config,), r),
        r is Ok,
    ensures
        ({
            let c = text::views(r->Ok_0.channels@);
            let rt = config.runtime;
            &&& rt.api is Ready
            &&& c.contains("api"@)
            &&& c.contains("feishu"@) <==> rt.feishu is Ready
            &&& c.contains("telegram"@) <==> rt.telegram is Ready
            &&& c.contains("wechat"@) <==> rt.wechat is Ready
            &&& c.contains("homeassistant"@) <==> rt.homeassistant_channel is Ready
            &&& r->Ok_0.announces_shutdown <==> rt.feishu is Ready || rt.telegram is Ready
                || rt.wechat is Ready
        }),
{
    let c = text::views(r->Ok_0.channels@);
    let rt = config.runtime;
    reveal_strlit("api");
    reveal_strlit("feishu");
    reveal_strlit("telegram");
    reveal_strlit("wechat");
    reveal_strlit("homeassistant");
    assert("api"@.len() == 3 && "feishu"@.len() == 6 && "telegram"@.len() == 8 && "wechat"@.len()
        == 6 && "homeassistant"@.len() == 13);
    assert("feishu"@[0] == 'f' && "wechat"@[0] == 'w');
    let n1 = if rt.feishu is Ready {
        1int
    } else {
        0
    };
    let n2 = n1 + if rt.telegram is Ready {
        1int
    } else {
        0
    };
    let n3 = n2 + if rt.wechat is Ready {
        1int
    } else {
        0
    };
    let n4 = n3 + if rt.homeassistant_channel is Ready {
        1int
    } else {
        0
    };
    assert(c == gateway::planned_channels(rt));
    assert(c.len() == n4 + 1);
    assert(c[n4] == "api"@);
    if rt.feishu is Ready {
        assert(c[0] == "feishu"@);
    }
    if rt.telegram is Ready {
        assert(c[n1] == "telegram"@);
    }
    if rt.wechat is Ready {
        assert(c[n2] == "wechat"@);
    }
    if rt.homeassistant_channel is Ready {
        assert(c[n3] == "homeassistant"@);
    }
    assert forall|k: int| 0 <= k < c.len() implies {
        let x = #[trigger] c[k];
        ||| x == "api"@
        ||| x == "feishu"@ && rt.feishu is Ready
        ||| x == "telegram"@ && rt.telegram is Ready
        ||| x == "wechat"@ && rt.wechat is Ready
        ||| x == "homeassistant"@ && rt.homeassistant_channel is Ready
    } by {
        if k < n1 {
        } else if k < n2 {
        } else if k < n3 {
        } else if k < n4 {
        }
    }
}

/// The agent runs with the configured budget and history, has the Home Assistant tool
/// exactly where that is configured and the others always, and looks for skills in the
/// configured directories first.
pub proof fn the_agent_is_wired_as_configured(
    config: &ConfigSnapshot,
    root: &str,
    others: &Vec<String>,
    store: &str,
    user: Option<&str>,
    r: Result<Wiring, String>,
)
    requires
        call_ensures(wiring::build, (config, root, others, store, user), r),
        r is Ok,
    ensures
        ({
            let w = r->Ok_0;
            let rt = config.runtime;
            let dirs = text::views(w.skill_dirs@);
            let own = rt.skills_path@.len() as int;
            &&& w.runtime.max_turns == rt.model.max_turns
            &&& w.runtime.history_window == rt.model.max_history_messages
            &&& w.runtime.review_interval == rt.review_interval
            &&& w.runtime.reviewer
            &&& w.tools@.contains(ToolKind::HomeAssistant) <==> rt.homeassistant_tool is Some
            &&& w.tools@.contains(ToolKind::File) && w.tools@.contains(ToolKind::Shell)
            &&& w.tools@.contains(ToolKind::Memory) && w.tools@.contains(ToolKind::Skill)
            &&& w.tools@.contains(ToolKind::Reminder) && w.tools@.contains(ToolKind::Task)
            &&& w.tools@.contains(ToolKind::Time) && w.tools@.contains(ToolKind::Delegate)
            &&& dirs.len() > own
            &&& forall|i: int| 0 <= i < own ==> #[trigger] dirs[i] == rt.skills_path@[i]@
            &&& dirs[own] == path::joined(root@, "skills"@)
            &&& dirs.contains(store@)
        }),
{
    let w = r->Ok_0;
    let rt = config.runtime;
    let t = w.tools@;
    assert(t[0] == ToolKind::Time && t[1] == ToolKind::File && t[2] == ToolKind::Shell && t[6]
        == ToolKind::Reminder && t[7] == ToolKind::Task);
    let n = t.len() as int;
    assert(t[n - 1] == ToolKind::Skill && t[n - 2] == ToolKind::Delegate && t[n - 3]
        == ToolKind::Memory);
    if rt.homeassistant_tool is Some {
        assert(t[10] == ToolKind::HomeAssistant);
    }
    let dirs = text::views(w.skill_dirs@);
    let own = rt.skills_path@.len() as int;
    let configured = text::views(rt.skills_path@);
    assert(configured.len() == own);
    assert forall|i: int| 0 <= i < own implies #[trigger] dirs[i] == rt.skills_path@[i]@ by {
        assert(dirs[i] == configured[i]);
    }
    let at = own + 1 + others@.len();
    assert(wiring::under(root@, text::views(others@)).len() == others@.len());
    assert(dirs[at] == store@);
}

} // verus!
