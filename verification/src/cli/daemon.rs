//! The background daemon: reviews of stored sessions on a schedule.
use crate::agent::schedule;
use crate::agent::schedule::Schedule;
use crate::config::resolved::ModelConfig;
use crate::config::sources::{FileConfig, Secrets};
use crate::config::strict;
use crate::config::strict::ShionEnv;
use crate::text;
use vstd::prelude::*;

verus! {

/// What the daemon runs on.
pub struct DaemonPlan {
    pub schedule: Schedule,
    /// The model that reviews: the cheaper one where there is one.
    pub model: ModelConfig,
    /// What is said at the start.
    pub banner: String,
}

/// What the daemon runs on; an expression that does not parse or an unusable model
/// selection starts none.
pub fn run(
    expr: &str,
    read: Result<ShionEnv, String>,
    file: &FileConfig,
    secrets: &Secrets,
) -> (r: Result<DaemonPlan, String>)
    ensures
        match r {
            Ok(plan) => {
                &&& schedule::cron_fault(expr@) is None
                &&& plan.schedule.pattern() == expr@
                &&& plan.banner@ == "Shion daemon — maintenance sweep on schedule `"@ + expr@
                    + "`. Ctrl-C to stop.\n"@
                &&& exists|m: ModelConfig|
                    {
                        &&& #[trigger] strict::is_resolved(read, *file, *secrets, Ok(m))
                        &&& plan.model == (ModelConfig {
                            model: match m.aux_model {
                                Some(aux) => aux,
                                None => m.model,
                            },
                            ..m
                        })
                    }
            },
            Err(e) => match schedule::cron_fault(expr@) {
                Some(fault) => e@ == schedule::bad_cron(expr@, fault),
                None => strict::is_resolved(read, *file, *secrets, Err(e)),
            },
        },
{
    let schedule = match Schedule::parse(expr) {
        Ok(s) => s,
        Err(e) => return Err(e),
    };
    let model = match ModelConfig::from_env(read, file, secrets) {
        Ok(m) => m,
        Err(e) => return Err(e),
    };
    assert(strict::is_resolved(read, *file, *secrets, Ok(model)));
    Ok(
        DaemonPlan {
            schedule,
            model: model.aux_variant(),
            banner: text::between(
                "Shion daemon — maintenance sweep on schedule `",
                expr,
                "`. Ctrl-C to stop.\n",
            ),
        },
    )
}

} // verus!
