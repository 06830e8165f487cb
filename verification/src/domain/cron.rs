//! Scheduled jobs: commands or agent turns that the gateway runs unattended.
use crate::system;
use crate::text;
use vstd::prelude::*;

verus! {

/// Default wall-clock budget for a job command, in seconds.
pub const DEFAULT_CRON_JOB_TIMEOUT_SECS: u64 = 900;

/// Outcome of a job's most recent execution.
#[derive(Debug, Clone, Copy, PartialEq, Eq, Structural)]
pub enum CronRunStatus {
    Succeeded,
    Failed,
}

impl CronRunStatus {
    /// The word that stands for it.
    pub open spec fn word(self) -> Seq<char> {
        match self {
            CronRunStatus::Succeeded => "ok"@,
            CronRunStatus::Failed => "failed"@,
        }
    }

    pub fn as_str(&self) -> (r: &'static str)
        ensures
            r@ == self.word(),
    {
        match self {
            CronRunStatus::Succeeded => "ok",
            CronRunStatus::Failed => "failed",
        }
    }
}

/// The status that a stored word stands for: none for the empty word (never ran),
/// and failed for anything that is not `ok`.
pub open spec fn cron_status_of(word: Seq<char>) -> Option<CronRunStatus> {
    if word.len() == 0 {
        None
    } else if word == "ok"@ {
        Some(CronRunStatus::Succeeded)
    } else {
        Some(CronRunStatus::Failed)
    }
}

/// `""` (never ran) gives `None`; anything not `ok` parses as failed.
pub fn parse_cron_run_status(s: &str) -> (r: Option<CronRunStatus>)
    ensures
        r == cron_status_of(s@),
{
    if s.is_empty() {
        None
    } else if text::same(s, "ok") {
        Some(CronRunStatus::Succeeded)
    } else {
        Some(CronRunStatus::Failed)
    }
}

/// The word for a status parses back to the status.
pub proof fn cron_status_words_parse_back(s: CronRunStatus)
    ensures
        cron_status_of(s.word()) == Some(s),
{
    reveal_strlit("ok");
    reveal_strlit("failed");
    assert("ok"@.len() == 2 && "failed"@.len() == 6);
}

/// What a job does when it fires.
#[derive(Debug)]
pub enum CronAction {
    /// Run a fixed program and deliver its output.
    Command {
        /// Program to execute, run directly and not via a shell.
        command: String,
        args: Vec<String>,
        /// Working directory. `None` = the gateway's own.
        workdir: Option<String>,
        /// Wall-clock budget in seconds.
        timeout_secs: u64,
    },
    /// Run a prompt through an unattended agent turn and deliver the reply.
    Agent {
        /// The instruction the agent turn runs.
        prompt: String,
        /// Skills to load before running the prompt.
        skills: Vec<String>,
    },
}

impl CronAction {
    /// The word for the sort of action.
    pub open spec fn word(self) -> Seq<char> {
        match self {
            CronAction::Command { .. } => "command"@,
            CronAction::Agent { .. } => "agent"@,
        }
    }

    /// Short label for listings and logs.
    pub fn kind(&self) -> (r: &'static str)
        ensures
            r@ == self.word(),
    {
        match self {
            CronAction::Command { .. } => "command",
            CronAction::Agent { .. } => "agent",
        }
    }
}

/// One scheduled job. `name` is the operator-facing key; `id` is the storage key.
#[derive(Debug)]
pub struct CronJob {
    pub id: String,
    pub name: String,
    /// Cron expression (local timezone).
    pub schedule: String,
    pub action: CronAction,
    /// Disabled jobs stay listed but never fire.
    pub enabled: bool,
    /// Next scheduled fire (unix seconds).
    pub next_run_at: i64,
    pub last_run_at: Option<i64>,
    pub last_status: Option<CronRunStatus>,
    /// Failure detail from the most recent run.
    pub last_error: String,
    pub created_at: i64,
}

impl CronJob {
    /// Whether `self` is a fresh enabled job that has never run.
    pub open spec fn is_fresh(self, name: Seq<char>, schedule: Seq<char>, next_run_at: i64) -> bool {
        &&& system::is_hyphenated(self.id@)
        &&& system::is_issued(self.id@)
        &&& system::clock_reads(self.created_at as int)
        &&& self.name@ == name
        &&& self.schedule@ == schedule
        &&& self.enabled
        &&& self.next_run_at == next_run_at
        &&& self.last_run_at is None
        &&& self.last_status is None
        &&& self.last_error@.len() == 0
    }

    /// A new enabled job with the given action. The caller validates the schedule
    /// and computes the first fire.
    pub fn new(name: &str, schedule: &str, action: CronAction, next_run_at: i64) -> (r: Self)
        ensures
            r.is_fresh(name@, schedule@, next_run_at),
            r.action == action,
    {
        CronJob {
            id: system::issue_id(),
            name: name.to_owned(),
            schedule: schedule.to_owned(),
            action,
            enabled: true,
            next_run_at,
            last_run_at: None,
            last_status: None,
            last_error: String::new(),
            created_at: system::now(),
        }
    }

    /// A command job without arguments, with the default time budget.
    pub fn new_command(name: &str, schedule: &str, command: &str, next_run_at: i64) -> (r: Self)
        ensures
            r.is_fresh(name@, schedule@, next_run_at),
            match r.action {
                CronAction::Command { command: c, args, workdir, timeout_secs } => {
                    &&& c@ == command@
                    &&& args@.len() == 0
                    &&& workdir is None
                    &&& timeout_secs == DEFAULT_CRON_JOB_TIMEOUT_SECS
                },
                CronAction::Agent { .. } => false,
            },
    {
        CronJob::new(
            name,
            schedule,
            CronAction::Command {
                command: command.to_owned(),
                args: Vec::new(),
                workdir: None,
                timeout_secs: DEFAULT_CRON_JOB_TIMEOUT_SECS,
            },
            next_run_at,
        )
    }

    /// Due = enabled and the scheduled fire time has arrived.
    pub fn is_due(&self, now: i64) -> (r: bool)
        ensures
            r == (self.enabled && self.next_run_at <= now),
    {
        self.enabled && self.next_run_at <= now
    }
}

/// The operator's request to create a job.
#[derive(Debug)]
pub struct CronJobSpec {
    pub name: String,
    pub schedule: String,
    pub action: CronAction,
}

} // verus!
