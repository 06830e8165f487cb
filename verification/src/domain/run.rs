//! The run ledger: an execution record of every agent turn, one [`Run`] per user
//! turn with one [`RunStep`] per tool invocation.
use crate::json;
use crate::number;
use crate::system;
use crate::text;
use vstd::prelude::*;
use vstd::string::*;

verus! {

/// Verbatim cap on a run's texts, in characters.
pub const RUN_FIELD_CAP: usize = 4000;

/// Verbatim cap on a step's texts, in characters.
pub const STEP_FIELD_CAP: usize = 2000;

/// Error stamped on a run that was in flight when the process died.
pub const INTERRUPTED_ERROR: &'static str = "interrupted (process restarted)";

/// Cap on a step's texts inside the resume digest, in characters.
pub const RESUME_SNIPPET_CAP: usize = 200;

/// Budget for the resume digest as a whole, in bytes.
pub const RESUME_DIGEST_CAP: usize = 8000;

/// `s` cut to `cap` characters, with a marker where something was cut.
pub open spec fn truncated(s: Seq<char>, cap: int) -> Seq<char> {
    if s.len() <= cap {
        s
    } else {
        s.take(cap) + " …[truncated]"@
    }
}

/// Truncate `s` to at most `cap` characters, appending a marker when cut.
pub fn truncate(s: &str, cap: usize) -> (r: String)
    ensures
        r@ == truncated(s@, cap as int),
{
    if s.unicode_len() <= cap {
        return s.to_owned();
    }
    let mut out = text::take(s, cap).to_owned();
    out.push_str(" …[truncated]");
    out
}

/// A truncated text is as long as the cap and the marker at most, begins with
/// what fits of the original, and is the original where that fits.
pub proof fn truncation_is_bounded(s: Seq<char>, cap: int)
    requires
        0 <= cap,
    ensures
        truncated(s, cap).len() <= cap + 13,
        text::has_prefix(truncated(s, cap), text::head(s, cap)),
        s.len() <= cap ==> truncated(s, cap) == s,
        truncated(truncated(s, cap), cap + 13) == truncated(s, cap),
{
    reveal_strlit(" …[truncated]");
    let t = truncated(s, cap);
    let h = text::head(s, cap);
    assert(t.subrange(0, h.len() as int) =~= h);
}

#[derive(Debug, Clone, Copy, PartialEq, Eq, Structural)]
pub enum RunStatus {
    /// The turn is in flight.
    Running,
    Done,
    Failed,
}

impl RunStatus {
    /// The word that stands for it.
    pub open spec fn word(self) -> Seq<char> {
        match self {
            RunStatus::Running => "running"@,
            RunStatus::Done => "done"@,
            RunStatus::Failed => "failed"@,
        }
    }

    pub fn as_str(&self) -> (r: &'static str)
        ensures
            r@ == self.word(),
    {
        match self {
            RunStatus::Running => "running",
            RunStatus::Done => "done",
            RunStatus::Failed => "failed",
        }
    }
}

/// The status that a word names.
pub open spec fn run_status_of(word: Seq<char>) -> Option<RunStatus> {
    if word == "running"@ {
        Some(RunStatus::Running)
    } else if word == "done"@ {
        Some(RunStatus::Done)
    } else if word == "failed"@ {
        Some(RunStatus::Failed)
    } else {
        None
    }
}

/// The status that a word names, or what is wrong with the word.
pub fn parse_run_status(s: &str) -> (r: Result<RunStatus, String>)
    ensures
        match r {
            Ok(status) => run_status_of(s@) == Some(status),
            Err(m) => run_status_of(s@) is None && m@ == "unknown run status `"@ + s@
                + "` (expected running/done/failed)"@,
        },
{
    if text::same(s, "running") {
        Ok(RunStatus::Running)
    } else if text::same(s, "done") {
        Ok(RunStatus::Done)
    } else if text::same(s, "failed") {
        Ok(RunStatus::Failed)
    } else {
        let mut m = "unknown run status `".to_owned();
        m.push_str(s);
        m.push_str("` (expected running/done/failed)");
        Err(m)
    }
}

/// The word for a status parses back to the status.
pub proof fn run_status_words_parse_back(s: RunStatus)
    ensures
        run_status_of(s.word()) == Some(s),
{
    reveal_strlit("running");
    reveal_strlit("done");
    reveal_strlit("failed");
    assert("running"@.len() == 7 && "done"@.len() == 4 && "failed"@.len() == 6);
}

/// One agent turn: the user input, a short outcome summary, the final reply, and
/// the status.
#[derive(Debug)]
pub struct Run {
    pub id: String,
    pub session_id: String,
    /// The user message that started the turn (truncated).
    pub input: String,
    /// Post-turn summary: "respond" (no tools) or "n tool call(s)".
    pub plan: String,
    pub status: RunStatus,
    /// The assistant reply (truncated). Empty until the turn finishes.
    pub final_output: String,
    /// Failure reason. Empty unless the run failed.
    pub error: String,
    /// The run was interrupted mid-flight and can be resumed.
    pub recoverable: bool,
    pub started_at: i64,
    pub ended_at: Option<i64>,
}

impl Run {
    /// Whether `self` is a run opened at `now` with the clock at `nanos`.
    pub open spec fn is_opened(
        self,
        session: Seq<char>,
        input: Seq<char>,
        now: i64,
        nanos: int,
    ) -> bool {
        &&& self.id@ == "run-"@ + number::signed(nanos)
        &&& self.session_id@ == session
        &&& self.input@ == truncated(input, RUN_FIELD_CAP as int)
        &&& self.plan@.len() == 0
        &&& self.status == RunStatus::Running
        &&& self.final_output@.len() == 0
        &&& self.error@.len() == 0
        &&& !self.recoverable
        &&& self.started_at == now
        &&& self.ended_at is None
    }

    /// Open a run for the session at the given time.
    pub fn open_at(session_id: &str, input: &str, now: i64, nanos: i128) -> (r: Self)
        ensures
            r.is_opened(session_id@, input@, now, nanos as int),
    {
        let mut id = "run-".to_owned();
        id.push_str(&number::write_wide(nanos));
        Run {
            id,
            session_id: session_id.to_owned(),
            input: truncate(input, RUN_FIELD_CAP),
            plan: String::new(),
            status: RunStatus::Running,
            final_output: String::new(),
            error: String::new(),
            recoverable: false,
            started_at: now,
            ended_at: None,
        }
    }

    /// Open a new run for `session_id`, started now.
    pub fn start(session_id: &str, input: &str) -> (r: Self)
        ensures
            exists|now: i64, nanos: int| #[trigger]
                r.is_opened(session_id@, input@, now, nanos) && system::clock_reads(now as int)
                    && system::clock_ticks(nanos),
    {
        let nanos: i128 = system::now_nanos();
        let now: i64 = system::now();
        let r = Run::open_at(session_id, input, now, nanos);
        assert(r.is_opened(session_id@, input@, now, nanos as int));
        r
    }
}

/// One tool invocation within a run.
#[derive(Debug)]
pub struct RunStep {
    pub run_id: String,
    /// Order within the run.
    pub seq: i64,
    pub tool_name: String,
    /// Redacted and truncated JSON arguments the model passed.
    pub args: String,
    /// Truncated result. Empty on failure.
    pub result: String,
    /// Tool error. Empty unless the call failed.
    pub error: String,
    pub ok: bool,
    pub started_at: i64,
    pub ended_at: i64,
}

/// A step's text as one short line.
pub open spec fn snippet(s: Seq<char>) -> Seq<char> {
    truncated(text::replaced(s, '\n', " "@), RESUME_SNIPPET_CAP as int)
}

fn snip(s: &str) -> (r: String)
    ensures
        r@ == snippet(s@),
{
    truncate(&text::replace(s, '\n', " "), RESUME_SNIPPET_CAP)
}

/// What came of a step.
pub open spec fn step_outcome(s: RunStep) -> Seq<char> {
    if s.ok {
        snippet(s.result@)
    } else {
        "error: "@ + snippet(s.error@)
    }
}

/// The digest line of the step at position `i`.
pub open spec fn step_line(s: RunStep, i: int) -> Seq<char> {
    number::decimal((i + 1) as nat) + ". "@ + s.tool_name@ + " "@ + snippet(s.args@) + " → "@
        + step_outcome(s) + "\n"@
}

/// The line that stands for `n` steps left out.
pub open spec fn elision(n: int, id: Seq<char>) -> Seq<char> {
    "…and "@ + number::decimal(n as nat)
        + " more step(s), elided for length (full record: `komo run inspect "@ + id + "`).\n"@
}

/// `out` continued with the lines of the steps from `i` on, until the budget is
/// spent; what is left then becomes one line.
pub open spec fn digest(out: Seq<char>, id: Seq<char>, steps: Seq<RunStep>, i: int) -> Seq<char>
    decreases steps.len() - i,
{
    if i < 0 || i >= steps.len() {
        out
    } else if text::byte_len(out) > RESUME_DIGEST_CAP {
        out + elision(steps.len() - i, id)
    } else {
        digest(out + step_line(steps[i], i), id, steps, i + 1)
    }
}

/// The opening of a resume prompt.
pub open spec fn resume_head(run: Run) -> Seq<char> {
    "[resume "@ + run.id@
        + "] The previous attempt at the task was interrupted (the process restarted mid-turn). Original request:\n\n"@
        + run.input@ + "\n\n"@
}

/// The part of a resume prompt up to its closing words.
pub open spec fn resume_body(run: Run, steps: Seq<RunStep>) -> Seq<char> {
    if steps.len() == 0 {
        resume_head(run) + "No tool calls had completed before the interruption.\n"@
    } else {
        digest(
            resume_head(run) + ("Before the interruption, "@ + number::decimal(steps.len())
                + " tool call(s) had already completed:\n"@),
            run.id@,
            steps,
            0,
        )
    }
}

/// The priming input for resuming a run.
pub open spec fn resume_text(run: Run, steps: Seq<RunStep>) -> Seq<char> {
    resume_body(run, steps)
        + "\nReview what already took effect, then continue the task from where it stopped. Do not re-apply side effects that already succeeded — verify first when unsure. Reply with the completed outcome."@
}

fn write_step(s: &RunStep, i: usize) -> (r: String)
    requires
        i < usize::MAX,
    ensures
        r@ == step_line(*s, i as int),
{
    let mut line = number::write_size(i + 1);
    line.push_str(". ");
    line.push_str(&s.tool_name);
    line.push_str(" ");
    line.push_str(&snip(&s.args));
    line.push_str(" → ");
    if s.ok {
        line.push_str(&snip(&s.result));
    } else {
        let mut e = "error: ".to_owned();
        e.push_str(&snip(&s.error));
        line.push_str(&e);
    }
    line.push_str("\n");
    line
}

fn write_elision(n: usize, id: &str) -> (r: String)
    ensures
        r@ == elision(n as int, id@),
{
    let mut line = "…and ".to_owned();
    line.push_str(&number::write_size(n));
    line.push_str(" more step(s), elided for length (full record: `komo run inspect ");
    line.push_str(id);
    line.push_str("`).\n");
    line
}

/// Compose the priming input for resuming an interrupted run: the original
/// request plus a digest of the tool calls that had completed, so the model can
/// judge which side effects already took hold and continue rather than restart.
pub fn resume_prompt(run: &Run, steps: &[RunStep]) -> (r: String)
    ensures
        r@ == resume_text(*run, steps@),
{
    let mut out = "[resume ".to_owned();
    out.push_str(&run.id);
    out.push_str(
        "] The previous attempt at the task was interrupted (the process restarted mid-turn). Original request:\n\n",
    );
    out.push_str(&run.input);
    out.push_str("\n\n");
    if steps.len() == 0 {
        out.push_str("No tool calls had completed before the interruption.\n");
    } else {
        let mut count = "Before the interruption, ".to_owned();
        count.push_str(&number::write_size(steps.len()));
        count.push_str(" tool call(s) had already completed:\n");
        out.push_str(&count);
        let ghost goal = digest(out@, run.id@, steps@, 0);
        let mut i: usize = 0;
        while i < steps.len() && text::bytes_in(&out) <= RESUME_DIGEST_CAP
            invariant
                i <= steps.len(),
                goal == digest(out@, run.id@, steps@, i as int),
            decreases steps.len() - i,
        {
            out.push_str(&write_step(&steps[i], i));
            i = i + 1;
        }
        if i < steps.len() {
            out.push_str(&write_elision(steps.len() - i, &run.id));
        }
    }
    out.push_str(
        "\nReview what already took effect, then continue the task from where it stopped. Do not re-apply side effects that already succeeded — verify first when unsure. Reply with the completed outcome.",
    );
    out
}

/// The digest lines of the steps from `i` up to `k`.
pub open spec fn step_lines(steps: Seq<RunStep>, i: int, k: int) -> Seq<char>
    decreases k - i,
{
    if i >= k {
        Seq::empty()
    } else {
        step_line(steps[i], i) + step_lines(steps, i + 1, k)
    }
}

/// A digest tells of a first part of the steps, in order and without a gap, and
/// then says how many it leaves out: none is dropped silently, and nothing is
/// left out while there is budget.
pub proof fn digest_accounts_for_every_step(
    out: Seq<char>,
    id: Seq<char>,
    steps: Seq<RunStep>,
    i: int,
)
    requires
        0 <= i <= steps.len(),
    ensures
        exists|k: int|
            {
                &&& i <= k <= steps.len()
                &&& digest(out, id, steps, i) == out + #[trigger] step_lines(steps, i, k) + (
                if k < steps.len() {
                    elision(steps.len() - k, id)
                } else {
                    Seq::empty()
                })
                &&& k < steps.len() ==> text::byte_len(out + step_lines(steps, i, k))
                    > RESUME_DIGEST_CAP
            },
    decreases steps.len() - i,
{
    if i == steps.len() {
        assert(out =~= out + step_lines(steps, i, i) + Seq::<char>::empty());
    } else if text::byte_len(out) > RESUME_DIGEST_CAP {
        assert(out + step_lines(steps, i, i) =~= out);
        assert(digest(out, id, steps, i) =~= out + step_lines(steps, i, i) + elision(
            steps.len() - i,
            id,
        ));
    } else {
        let next = out + step_line(steps[i], i);
        digest_accounts_for_every_step(next, id, steps, i + 1);
        let k = choose|k: int|
            {
                &&& i + 1 <= k <= steps.len()
                &&& digest(next, id, steps, i + 1) == next + #[trigger] step_lines(steps, i + 1, k)
                    + (if k < steps.len() {
                    elision(steps.len() - k, id)
                } else {
                    Seq::empty()
                })
                &&& k < steps.len() ==> text::byte_len(next + step_lines(steps, i + 1, k))
                    > RESUME_DIGEST_CAP
            };
        assert(out + step_lines(steps, i, k) =~= next + step_lines(steps, i + 1, k));
    }
}

/// A resume prompt quotes the request in full.
pub proof fn resume_prompt_quotes_the_request(run: Run, steps: Seq<RunStep>)
    ensures
        text::has_prefix(resume_text(run, steps), resume_head(run)),
        text::has_part(resume_text(run, steps), run.input@),
{
    let head = resume_head(run);
    let all = resume_text(run, steps);
    let body = resume_body(run, steps);
    if steps.len() > 0 {
        let opening = head + ("Before the interruption, "@ + number::decimal(steps.len())
            + " tool call(s) had already completed:\n"@);
        digest_accounts_for_every_step(opening, run.id@, steps, 0);
        assert(body.len() >= opening.len());
        assert(body.subrange(0, head.len() as int) =~= head);
    } else {
        assert(body.subrange(0, head.len() as int) =~= head);
    }
    assert(all.subrange(0, head.len() as int) =~= body.subrange(0, head.len() as int));
    let at = ("[resume "@ + run.id@
        + "] The previous attempt at the task was interrupted (the process restarted mid-turn). Original request:\n\n"@).len() as int;
    assert(head.subrange(at, at + run.input@.len()) =~= run.input@);
    assert(all.subrange(0, head.len() as int) =~= head);
    assert(all.subrange(at, at + run.input@.len()) =~= all.subrange(0, head.len() as int).subrange(
        at,
        at + run.input@.len(),
    ));
    assert(text::occurs_at(all, run.input@, at));
}

/// Whether a call of the tool `tool` with these arguments loads the skill.
pub open spec fn loads_skill(
    tool: Seq<char>,
    action: Option<Seq<char>>,
    name: Option<Seq<char>>,
    skill: Seq<char>,
) -> bool {
    tool == "skill"@ && action == Some("view"@) && name == Some(skill)
}

/// Whether a call of the tool `tool` with these arguments loads the skill.
pub fn is_skill_view(tool: &str, action: &Option<String>, name: &Option<String>, skill: &str) -> (r:
    bool)
    ensures
        r == loads_skill(tool@, text::opt_text(*action), text::opt_text(*name), skill@),
{
    if !text::same(tool, "skill") {
        return false;
    }
    match (action, name) {
        (Some(a), Some(n)) => text::same(a, "view") && text::same(n, skill),
        _ => false,
    }
}

/// Whether a ledger step is the `skill` tool loading `skill_name`'s
/// instructions. A skill "used" is exactly a skill viewed.
pub fn step_views_skill(step: &RunStep, skill_name: &str) -> (r: bool)
    ensures
        r == loads_skill(
            step.tool_name@,
            json::json_string_at(step.args@, "/action"@),
            json::json_string_at(step.args@, "/name"@),
            skill_name@,
        ),
{
    let action = json::string_at(&step.args, "/action");
    let name = json::string_at(&step.args, "/name");
    is_skill_view(&step.tool_name, &action, &name, skill_name)
}

} // verus!
