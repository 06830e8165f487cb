//! The operator's view of what is stored: reminders, tasks, runs, skills and sessions.
use crate::agent::schedule;
use crate::agent::schedule::local_stamp;
use crate::domain::reminder::Reminder;
use crate::domain::run::{Run, RunStep};
use crate::domain::skill::Skill;
use crate::domain::task::{Task, TaskStatus};
use crate::number;
use crate::sorting;
use crate::text;
use vstd::prelude::*;
use vstd::string::*;

verus! {

/// A text on one line, cut to `n` characters.
pub open spec fn on_one_line(s: Seq<char>, n: int) -> Seq<char> {
    let flat = text::replaced(s, '\n', " "@);
    if flat.len() <= n {
        flat
    } else {
        flat.take(n) + "…"@
    }
}

/// A text on one line, cut to `n` characters.
pub fn oneline(s: &str, n: usize) -> (r: String)
    ensures
        r@ == on_one_line(s@, n as int),
{
    let flat = text::replace(s, '\n', " ");
    let len: usize = flat.as_str().unicode_len();
    let mut out = text::take(&flat, n).to_owned();
    if len > n {
        out.push_str("…");
    }
    out
}

/// A reminder's line, where `at` is how its time reads.
pub open spec fn reminder_line(r: Reminder, at: Seq<char>) -> Seq<char> {
    if r.schedule@.len() > 0 {
        r.id@ + "  ["@ + r.schedule@ + "]  next "@ + at + "  "@ + r.message@
    } else {
        r.id@ + "  [one-shot]  due "@ + at + "  "@ + r.message@
    }
}

/// Whether `line` is the line of a reminder for some reading of its time.
pub open spec fn is_reminder_line(r: Reminder, line: Seq<char>) -> bool {
    exists|at: Seq<char>|
        schedule::is_local_stamp(r.run_at, at) && line == #[trigger] reminder_line(r, at)
}

/// A reminder's line, where `at` is how its time reads.
pub fn line_of_reminder(r: &Reminder, at: &str) -> (s: String)
    ensures
        s@ == reminder_line(*r, at@),
{
    let mut s = r.id.clone();
    if r.is_recurring() {
        s.push_str("  [");
        s.push_str(&r.schedule);
        s.push_str("]  next ");
    } else {
        s.push_str("  [one-shot]  due ");
    }
    s.push_str(at);
    s.push_str("  ");
    s.push_str(&r.message);
    s
}

/// The reminders by when they are due.
pub open spec fn reminder_order(list: Seq<Reminder>) -> Seq<int> {
    sorting::ranking(Seq::new(list.len(), |i: int| (list[i].run_at, 0i64)))
}

/// The pending reminders, the next one first, times on the machine's own wall clock.
pub fn cron_list(list: &Vec<Reminder>) -> (r: Vec<String>)
    ensures
        list@.len() == 0 ==> text::views(r@) == seq!["No pending reminders."@],
        list@.len() > 0 ==> r@.len() == list@.len() && forall|k: int|
            0 <= k < r@.len() ==> is_reminder_line(list@[reminder_order(list@)[k]], (#[trigger] r@[k])@),
{
    let mut out: Vec<String> = Vec::new();
    if list.len() == 0 {
        text::append_line(&mut out, "No pending reminders.".to_owned());
        assert(text::views(out@) =~= seq!["No pending reminders."@]);
        return out;
    }
    let ghost keyed = Seq::new(list@.len(), |i: int| (list@[i].run_at, 0i64));
    let mut keys: Vec<sorting::Key> = Vec::new();
    let mut i: usize = 0;
    while i < list.len()
        invariant
            i <= list.len(),
            keyed == Seq::new(list@.len(), |i: int| (list@[i].run_at, 0i64)),
            keys@ =~= keyed.take(i as int),
        decreases list.len() - i,
    {
        keys.push((list[i].run_at, 0));
        i = i + 1;
    }
    assert(keys@ =~= keyed);
    let order = sorting::rank(&keys);
    let mut j: usize = 0;
    while j < order.len()
        invariant
            j <= order.len() == list@.len(),
            forall|k: int| 0 <= k < order@.len() ==> #[trigger] order@[k] < list@.len(),
            forall|k: int|
                0 <= k < order@.len() ==> order@[k] == #[trigger] reminder_order(list@)[k],
            out@.len() == j,
            forall|k: int|
                0 <= k < j ==> is_reminder_line(list@[reminder_order(list@)[k]], (#[trigger] out@[k])@),
        decreases order.len() - j,
    {
        assert(order@[j as int] == reminder_order(list@)[j as int]);
        let r = &list[order[j]];
        let at = local_stamp(r.run_at);
        let s = line_of_reminder(r, &at);
        text::append_line(&mut out, s);
        assert(out@[j as int]@ == reminder_line(list@[reminder_order(list@)[j as int]], at@));
        j = j + 1;
    }
    out
}

/// A task's line, where `due` is how its due time reads.
pub open spec fn task_line(t: Task, due: Seq<char>) -> Seq<char> {
    let head = "  "@ + t.id@ + "  "@ + t.title@;
    let boarded = if t.board@.len() > 0 {
        head + "  #"@ + t.board@
    } else {
        head
    };
    let waiting = if t.waiting_on@.len() > 0 {
        boarded + "  (waiting on: "@ + t.waiting_on@ + ")"@
    } else {
        boarded
    };
    if t.due_at is Some {
        waiting + "  due "@ + due
    } else {
        waiting
    }
}

/// A task's line, where `due` is how its due time reads.
pub fn line_of_task(t: &Task, due: &str) -> (s: String)
    ensures
        s@ == task_line(*t, due@),
{
    let mut s = "  ".to_owned();
    s.push_str(&t.id);
    s.push_str("  ");
    s.push_str(&t.title);
    if !t.board.as_str().is_empty() {
        s.push_str("  #");
        s.push_str(&t.board);
    }
    if !t.waiting_on.as_str().is_empty() {
        s.push_str("  (waiting on: ");
        s.push_str(&t.waiting_on);
        s.push_str(")");
    }
    if t.due_at.is_some() {
        s.push_str("  due ");
        s.push_str(due);
    }
    s
}

/// The positions of the tasks of a status.
pub open spec fn tasks_of(list: Seq<Task>, status: TaskStatus) -> Seq<int> {
    sorting::chosen(Seq::new(list.len(), |i: int| list[i].status == status))
}

/// The tasks of a status under its name; nothing where there are none.
pub open spec fn task_group(list: Seq<Task>, status: TaskStatus, dues: Seq<Seq<char>>) -> Seq<
    Seq<char>,
> {
    let at = tasks_of(list, status);
    if at.len() == 0 {
        Seq::empty()
    } else {
        seq![status.word() + ":"@] + Seq::new(
            at.len(),
            |k: int| task_line(list[at[k]], dues[at[k]]),
        )
    }
}

fn group_lines(list: &Vec<Task>, status: TaskStatus, dues: &Vec<String>) -> (r: Vec<String>)
    requires
        dues@.len() == list@.len(),
    ensures
        text::views(r@) == task_group(list@, status, text::views(dues@)),
{
    let ghost wanted = Seq::new(list@.len(), |i: int| list@[i].status == status);
    let mut flags: Vec<bool> = Vec::new();
    let mut i: usize = 0;
    while i < list.len()
        invariant
            i <= list.len(),
            wanted == Seq::new(list@.len(), |i: int| list@[i].status == status),
            flags@ =~= wanted.take(i as int),
        decreases list.len() - i,
    {
        flags.push(list[i].status == status);
        i = i + 1;
    }
    assert(flags@ =~= wanted);
    let at = sorting::positions(&flags);
    let mut out: Vec<String> = Vec::new();
    assert(text::views(out@) =~= Seq::empty());
    if at.len() == 0 {
        return out;
    }
    let ghost all = task_group(list@, status, text::views(dues@));
    let mut head = status.as_str().to_owned();
    head.push_str(":");
    text::append_line(&mut out, head);
    assert(text::views(out@) =~= all.take(1));
    let mut j: usize = 0;
    while j < at.len()
        invariant
            j <= at.len(),
            at@.len() > 0,
            dues@.len() == list@.len(),
            at@.len() == tasks_of(list@, status).len(),
            forall|k: int| 0 <= k < at@.len() ==> #[trigger] at@[k] < list@.len(),
            forall|k: int|
                0 <= k < at@.len() ==> at@[k] == #[trigger] tasks_of(list@, status)[k],
            all == task_group(list@, status, text::views(dues@)),
            text::views(out@) == all.take(j + 1),
        decreases at.len() - j,
    {
        assert(at@[j as int] == tasks_of(list@, status)[j as int]);
        let p: usize = at[j];
        let s = line_of_task(&list[p], &dues[p]);
        text::append_line(&mut out, s);
        j = j + 1;
        assert(text::views(out@) =~= all.take(j + 1));
    }
    assert(all.take(j + 1) =~= all);
    out
}

/// The open tasks grouped by status, the inbox first since it needs triage.
pub open spec fn task_listing(list: Seq<Task>, dues: Seq<Seq<char>>) -> Seq<Seq<char>> {
    if list.len() == 0 {
        seq!["No open tasks."@]
    } else {
        task_group(list, TaskStatus::Inbox, dues) + task_group(list, TaskStatus::Todo, dues)
            + task_group(list, TaskStatus::Waiting, dues)
    }
}

/// The open tasks grouped by status, where `dues` is how each task's due time reads.
pub fn list_tasks(list: &Vec<Task>, dues: &Vec<String>) -> (r: Vec<String>)
    requires
        dues@.len() == list@.len(),
    ensures
        text::views(r@) == task_listing(list@, text::views(dues@)),
{
    if list.len() == 0 {
        let mut out: Vec<String> = Vec::new();
        text::append_line(&mut out, "No open tasks.".to_owned());
        assert(text::views(out@) =~= seq!["No open tasks."@]);
        return out;
    }
    let mut out = group_lines(list, TaskStatus::Inbox, dues);
    text::append_lines(&mut out, group_lines(list, TaskStatus::Todo, dues));
    text::append_lines(&mut out, group_lines(list, TaskStatus::Waiting, dues));
    out
}

/// Whether `dues` is how the due times of tasks read on some machine's wall clock; empty
/// for a task without one.
pub open spec fn are_dues(list: Seq<Task>, dues: Seq<Seq<char>>) -> bool {
    &&& dues.len() == list.len()
    &&& forall|i: int|
        0 <= i < dues.len() ==> match list[i].due_at {
            Some(d) => schedule::is_local_stamp(d, #[trigger] dues[i]),
            None => dues[i].len() == 0,
        }
}

/// The open tasks grouped by status, due times on the machine's own wall clock.
pub fn task_list(list: &Vec<Task>) -> (r: Vec<String>)
    ensures
        exists|dues: Seq<Seq<char>>|
            are_dues(list@, dues) && text::views(r@) == #[trigger] task_listing(list@, dues),
{
    let mut dues: Vec<String> = Vec::new();
    let mut i: usize = 0;
    while i < list.len()
        invariant
            i <= list.len(),
            are_dues(list@.take(i as int), text::views(dues@)),
        decreases list.len() - i,
    {
        let due = match list[i].due_at {
            Some(d) => local_stamp(d),
            None => String::new(),
        };
        let ghost before = text::views(dues@);
        text::append_line(&mut dues, due);
        assert forall|k: int| 0 <= k < i + 1 implies match list@.take(i + 1)[k].due_at {
            Some(d) => schedule::is_local_stamp(d, #[trigger] text::views(dues@)[k]),
            None => text::views(dues@)[k].len() == 0,
        } by {
            if k < i {
                assert(text::views(dues@)[k] == before[k]);
                assert(list@.take(i + 1)[k] == list@.take(i as int)[k]);
            }
        }
        i = i + 1;
    }
    assert(list@.take(i as int) =~= list@);
    let r = list_tasks(list, &dues);
    assert(text::views(r@) == task_listing(list@, text::views(dues@)));
    r
}

/// A run's line, where `at` is how its start reads.
pub open spec fn run_line(r: Run, at: Seq<char>) -> Seq<char> {
    let head = r.id@ + "  ["@ + r.status.word() + "]"@;
    let marked = if r.recoverable {
        head + " ⟲"@
    } else {
        head
    };
    marked + "  "@ + at + "  "@ + if r.plan@.len() == 0 {
        "-"@
    } else {
        r.plan@
    } + "  "@ + on_one_line(r.input@, 60)
}

/// Whether `line` is the line of a run for some reading of its time.
pub open spec fn is_run_line(r: Run, line: Seq<char>) -> bool {
    exists|at: Seq<char>|
        schedule::is_local_stamp(r.started_at, at) && line == #[trigger] run_line(r, at)
}

/// A run's line, where `at` is how its start reads.
pub fn line_of_run(r: &Run, at: &str) -> (s: String)
    ensures
        s@ == run_line(*r, at@),
{
    let mut s = r.id.clone();
    s.push_str("  [");
    s.push_str(r.status.as_str());
    s.push_str("]");
    if r.recoverable {
        s.push_str(" ⟲");
    }
    s.push_str("  ");
    s.push_str(at);
    s.push_str("  ");
    if r.plan.as_str().is_empty() {
        s.push_str("-");
    } else {
        s.push_str(&r.plan);
    }
    s.push_str("  ");
    s.push_str(&oneline(&r.input, 60));
    s
}

/// The recent runs as given, most recent first, times on the machine's own wall clock.
pub fn run_list(runs: &Vec<Run>) -> (r: Vec<String>)
    ensures
        runs@.len() == 0 ==> text::views(r@) == seq!["No runs recorded."@],
        runs@.len() > 0 ==> r@.len() == runs@.len() && forall|k: int|
            0 <= k < r@.len() ==> is_run_line(runs@[k], (#[trigger] r@[k])@),
{
    let mut out: Vec<String> = Vec::new();
    if runs.len() == 0 {
        text::append_line(&mut out, "No runs recorded.".to_owned());
        assert(text::views(out@) =~= seq!["No runs recorded."@]);
        return out;
    }
    let mut j: usize = 0;
    while j < runs.len()
        invariant
            j <= runs.len(),
            out@.len() == j,
            forall|k: int|
                0 <= k < j ==> is_run_line(runs@[k], (#[trigger] out@[k])@),
        decreases runs.len() - j,
    {
        let at = local_stamp(runs[j].started_at);
        let s = line_of_run(&runs[j], &at);
        text::append_line(&mut out, s);
        assert(out@[j as int]@ == run_line(runs@[j as int], at@));
        j = j + 1;
    }
    out
}

/// The card of a run, where `started` and `ended` are how its times read.
pub open spec fn run_card(run: Run, started: Seq<char>, ended: Seq<char>) -> Seq<Seq<char>> {
    text::one_if(true, "run     "@ + run.id@) + text::one_if(true, "session "@ + run.session_id@) + text::one_if(
        true,
        "status  "@ + run.status.word(),
    ) + text::one_if(true, "started "@ + started) + text::one_if(run.ended_at is Some, "ended   "@ + ended) + text::one_if(
        run.plan@.len() > 0,
        "plan    "@ + run.plan@,
    ) + text::one_if(true, "input   "@ + on_one_line(run.input@, 200)) + text::one_if(
        run.error@.len() > 0,
        "error   "@ + run.error@,
    ) + text::one_if(run.recoverable, "resume  recoverable — `shion run resume "@ + run.id@ + "`"@) + text::one_if(
        run.final_output@.len() > 0,
        "output  "@ + on_one_line(run.final_output@, 200),
    )
}

/// A step's lines.
pub open spec fn step_lines(s: RunStep) -> Seq<Seq<char>> {
    seq![
        "  #"@ + number::signed(s.seq as int) + "  "@ + if s.ok {
            "ok "@
        } else {
            "ERR"@
        } + "  "@ + s.tool_name@,
        "      args   "@ + on_one_line(s.args@, 120),
        if s.ok {
            "      result "@ + on_one_line(s.result@, 120)
        } else {
            "      error  "@ + on_one_line(s.error@, 120)
        },
    ]
}

/// The lines of the steps of a run.
pub open spec fn steps_lines(steps: Seq<RunStep>) -> Seq<Seq<char>>
    decreases steps.len(),
{
    if steps.len() == 0 {
        Seq::empty()
    } else {
        steps_lines(steps.drop_last()) + step_lines(steps.last())
    }
}

/// A run in full, where `started` and `ended` are how its times read.
pub open spec fn run_view(
    run: Run,
    steps: Seq<RunStep>,
    started: Seq<char>,
    ended: Seq<char>,
) -> Seq<Seq<char>> {
    run_card(run, started, ended) + if steps.len() == 0 {
        seq!["\n(no tool steps)"@]
    } else {
        seq!["\nsteps:"@] + steps_lines(steps)
    }
}

fn append_step(out: &mut Vec<String>, s: &RunStep)
    ensures
        text::views(final(out)@) == text::views(old(out)@) + step_lines(*s),
{
    let ghost before = text::views(out@);
    let mut head = "  #".to_owned();
    head.push_str(&number::write_signed(s.seq));
    head.push_str("  ");
    if s.ok {
        head.push_str("ok ");
    } else {
        head.push_str("ERR");
    }
    head.push_str("  ");
    head.push_str(&s.tool_name);
    text::append_line(out, head);
    text::append_line(out, text::prefixed("      args   ", &oneline(&s.args, 120)));
    if s.ok {
        text::append_line(out, text::prefixed("      result ", &oneline(&s.result, 120)));
    } else {
        text::append_line(out, text::prefixed("      error  ", &oneline(&s.error, 120)));
    }
    assert(text::views(out@) =~= before + step_lines(*s));
}

/// A run in full, where `started` and `ended` are how its times read.
pub fn show_run(run: &Run, steps: &Vec<RunStep>, started: &str, ended: &str) -> (r: Vec<String>)
    ensures
        text::views(r@) == run_view(*run, steps@, started@, ended@),
{
    let mut out: Vec<String> = Vec::new();
    assert(text::views(out@) =~= Seq::empty());
    text::append_if(&mut out, true, text::prefixed("run     ", &run.id));
    assert(text::views(out@) =~= text::one_if(true, "run     "@ + run.id@));
    text::append_if(&mut out, true, text::prefixed("session ", &run.session_id));
    text::append_if(&mut out, true, text::prefixed("status  ", run.status.as_str()));
    text::append_if(&mut out, true, text::prefixed("started ", started));
    text::append_if(&mut out, run.ended_at.is_some(), text::prefixed("ended   ", ended));
    text::append_if(&mut out, !run.plan.as_str().is_empty(), text::prefixed("plan    ", &run.plan));
    text::append_if(&mut out, true, text::prefixed("input   ", &oneline(&run.input, 200)));
    text::append_if(&mut out, !run.error.as_str().is_empty(), text::prefixed("error   ", &run.error));
    let mut resume = text::prefixed("resume  recoverable — `shion run resume ", &run.id);
    resume.push_str("`");
    text::append_if(&mut out, run.recoverable, resume);
    text::append_if(
        &mut out,
        !run.final_output.as_str().is_empty(),
        text::prefixed("output  ", &oneline(&run.final_output, 200)),
    );
    let ghost card = run_card(*run, started@, ended@);
    assert(text::views(out@) =~= card);
    if steps.len() == 0 {
        text::append_line(&mut out, "\n(no tool steps)".to_owned());
        assert(text::views(out@) =~= card + seq!["\n(no tool steps)"@]);
        return out;
    }
    text::append_line(&mut out, "\nsteps:".to_owned());
    let ghost head = card + seq!["\nsteps:"@];
    assert(text::views(out@) =~= head + steps_lines(steps@.take(0)));
    let mut i: usize = 0;
    while i < steps.len()
        invariant
            i <= steps.len(),
            text::views(out@) == head + steps_lines(steps@.take(i as int)),
        decreases steps.len() - i,
    {
        append_step(&mut out, &steps[i]);
        assert(steps@.take(i + 1).drop_last() =~= steps@.take(i as int));
        i = i + 1;
        assert(text::views(out@) =~= head + steps_lines(steps@.take(i as int)));
    }
    assert(steps@.take(i as int) =~= steps@);
    assert(text::views(out@) =~= run_view(*run, steps@, started@, ended@));
    out
}

/// One run in full with its steps, times on the machine's own wall clock.
pub fn run_inspect(id: &str, found: &Option<(Run, Vec<RunStep>)>) -> (r: Vec<String>)
    ensures
        match *found {
            None => text::views(r@) == seq!["No run with id `"@ + id@ + "`."@],
            Some((run, steps)) => exists|started: Seq<char>, ended: Seq<char>|
                {
                    &&& schedule::is_local_stamp(run.started_at, started)
                    &&& run.ended_at matches Some(t) ==> schedule::is_local_stamp(t, ended)
                    &&& text::views(r@) == #[trigger] run_view(run, steps@, started, ended)
                },
        },
{
    match found {
        None => {
            let mut out: Vec<String> = Vec::new();
            let mut note = text::prefixed("No run with id `", id);
            note.push_str("`.");
            text::append_line(&mut out, note);
            assert(text::views(out@) =~= seq!["No run with id `"@ + id@ + "`."@]);
            out
        },
        Some((run, steps)) => {
            let started = local_stamp(run.started_at);
            let ended = match run.ended_at {
                Some(t) => local_stamp(t),
                None => String::new(),
            };
            let r = show_run(run, steps, &started, &ended);
            assert(text::views(r@) == run_view(*run, steps@, started@, ended@));
            r
        },
    }
}

/// What is said of a pruned ledger, where `cutoff` is how the cutoff reads.
pub fn run_prune(removed: u64, cutoff: &str) -> (r: String)
    ensures
        r@ == if removed == 0 {
            "No runs older than "@ + cutoff@ + "; nothing pruned."@
        } else {
            "Pruned "@ + number::decimal(removed as nat) + " run(s) started before "@ + cutoff@
                + "."@
        },
{
    if removed == 0 {
        let mut out = text::prefixed("No runs older than ", cutoff);
        out.push_str("; nothing pruned.");
        out
    } else {
        let mut out = text::prefixed("Pruned ", &number::write_unsigned(removed));
        out.push_str(" run(s) started before ");
        out.push_str(cutoff);
        out.push_str(".");
        out
    }
}

/// The cutoff that keeps the `keep` most recent runs, given the runs most recent first:
/// when the first run to drop started. None where there is nothing to prune.
pub fn run_keep_cutoff(runs: &Vec<Run>, keep: usize) -> (r: Option<i64>)
    ensures
        r == if keep < runs@.len() {
            Some(runs@[keep as int].started_at)
        } else {
            None
        },
{
    if keep < runs.len() {
        Some(runs[keep].started_at)
    } else {
        None
    }
}

/// An active skill's line.
pub open spec fn skill_line(s: Skill) -> Seq<char> {
    let locked = if s.protected {
        s.name@ + " 🔒"@
    } else {
        s.name@
    };
    let off = if s.disabled {
        locked + " [disabled]"@
    } else {
        locked
    };
    off + "  "@ + on_one_line(s.description@, 80)
}

fn line_of_skill(s: &Skill) -> (r: String)
    ensures
        r@ == skill_line(*s),
{
    let mut out = s.name.clone();
    if s.protected {
        out.push_str(" 🔒");
    }
    if s.disabled {
        out.push_str(" [disabled]");
    }
    out.push_str("  ");
    out.push_str(&oneline(&s.description, 80));
    out
}

/// A candidate skill's line.
pub open spec fn candidate_line(s: Skill) -> Seq<char> {
    "  "@ + s.name@ + "  ["@ + s.source@ + "]  "@ + on_one_line(s.description@, 80)
}

fn line_of_candidate(s: &Skill) -> (r: String)
    ensures
        r@ == candidate_line(*s),
{
    let mut out = text::prefixed("  ", &s.name);
    out.push_str("  [");
    out.push_str(&s.source);
    out.push_str("]  ");
    out.push_str(&oneline(&s.description, 80));
    out
}

/// The skill store: active skills, then the candidates that await triage.
pub open spec fn skill_listing(active: Seq<Skill>, candidates: Seq<Skill>, root: Seq<char>) -> Seq<
    Seq<char>,
> {
    if active.len() == 0 && candidates.len() == 0 {
        seq!["No skills in "@ + root + "."@]
    } else {
        active.map_values(|s: Skill| skill_line(s)) + if candidates.len() == 0 {
            Seq::empty()
        } else {
            seq!["\ncandidates (`shion skill promote|reject <name>`):"@] + candidates.map_values(
                |s: Skill| candidate_line(s),
            )
        }
    }
}

/// The skill store: active skills, then the candidates that await triage.
pub fn skill_list(active: &Vec<Skill>, candidates: &Vec<Skill>, root: &str) -> (r: Vec<String>)
    ensures
        text::views(r@) == skill_listing(active@, candidates@, root@),
{
    let mut out: Vec<String> = Vec::new();
    if active.len() == 0 && candidates.len() == 0 {
        let mut note = text::prefixed("No skills in ", root);
        note.push_str(".");
        text::append_line(&mut out, note);
        assert(text::views(out@) =~= seq!["No skills in "@ + root@ + "."@]);
        return out;
    }
    let ghost first = active@.map_values(|s: Skill| skill_line(s));
    let mut i: usize = 0;
    assert(text::views(out@) =~= first.take(0));
    while i < active.len()
        invariant
            i <= active.len(),
            first == active@.map_values(|s: Skill| skill_line(s)),
            text::views(out@) == first.take(i as int),
        decreases active.len() - i,
    {
        text::append_line(&mut out, line_of_skill(&active[i]));
        i = i + 1;
        assert(text::views(out@) =~= first.take(i as int));
    }
    assert(first.take(i as int) =~= first);
    if candidates.len() > 0 {
        let ghost second = candidates@.map_values(|s: Skill| candidate_line(s));
        let ghost head = first + seq!["\ncandidates (`shion skill promote|reject <name>`):"@];
        text::append_line(
            &mut out,
            "\ncandidates (`shion skill promote|reject <name>`):".to_owned(),
        );
        let mut j: usize = 0;
        assert(text::views(out@) =~= head + second.take(0));
        while j < candidates.len()
            invariant
                j <= candidates.len(),
                second == candidates@.map_values(|s: Skill| candidate_line(s)),
                text::views(out@) == head + second.take(j as int),
            decreases candidates.len() - j,
        {
            text::append_line(&mut out, line_of_candidate(&candidates[j]));
            j = j + 1;
            assert(text::views(out@) =~= head + second.take(j as int));
        }
        assert(second.take(j as int) =~= second);
        assert(text::views(out@) =~= skill_listing(active@, candidates@, root@));
    } else {
        assert(text::views(out@) =~= skill_listing(active@, candidates@, root@));
    }
    out
}

/// A stored session, counted.
#[derive(Debug)]
pub struct SessionInfo {
    pub id: String,
    pub created_at: i64,
    pub messages: u64,
    pub user_turns: u64,
}

/// A session's line, where `at` is how its creation reads.
pub open spec fn session_line(s: SessionInfo, at: Seq<char>) -> Seq<char> {
    s.id@ + "  created "@ + at + "  "@ + number::decimal(s.messages as nat) + " messages ("@
        + number::decimal(s.user_turns as nat) + " user turns)"@
}

/// Whether `line` is the line of a session for some reading of its time.
pub open spec fn is_session_line(r: SessionInfo, line: Seq<char>) -> bool {
    exists|at: Seq<char>|
        schedule::is_local_stamp(r.created_at, at) && line == #[trigger] session_line(r, at)
}

/// A session's line, where `at` is how its creation reads.
pub fn line_of_session(s: &SessionInfo, at: &str) -> (r: String)
    ensures
        r@ == session_line(*s, at@),
{
    let mut out = s.id.clone();
    out.push_str("  created ");
    out.push_str(at);
    out.push_str("  ");
    out.push_str(&number::write_unsigned(s.messages));
    out.push_str(" messages (");
    out.push_str(&number::write_unsigned(s.user_turns));
    out.push_str(" user turns)");
    out
}

/// The stored sessions, times on the machine's own wall clock.
pub fn session_list(list: &Vec<SessionInfo>) -> (r: Vec<String>)
    ensures
        list@.len() == 0 ==> text::views(r@) == seq!["No sessions."@],
        list@.len() > 0 ==> r@.len() == list@.len() && forall|k: int|
            0 <= k < r@.len() ==> is_session_line(list@[k], (#[trigger] r@[k])@),
{
    let mut out: Vec<String> = Vec::new();
    if list.len() == 0 {
        text::append_line(&mut out, "No sessions.".to_owned());
        assert(text::views(out@) =~= seq!["No sessions."@]);
        return out;
    }
    let mut j: usize = 0;
    while j < list.len()
        invariant
            j <= list.len(),
            out@.len() == j,
            forall|k: int|
                0 <= k < j ==> is_session_line(list@[k], (#[trigger] out@[k])@),
        decreases list.len() - j,
    {
        let at = local_stamp(list[j].created_at);
        let s = line_of_session(&list[j], &at);
        text::append_line(&mut out, s);
        assert(out@[j as int]@ == session_line(list@[j as int], at@));
        j = j + 1;
    }
    out
}

/// What is said once empty sessions were removed.
pub fn session_clean(removed: u64) -> (r: String)
    ensures
        r@ == "Removed "@ + number::decimal(removed as nat) + " empty session(s)."@,
{
    let mut out = text::prefixed("Removed ", &number::write_unsigned(removed));
    out.push_str(" empty session(s).");
    out
}

} // verus!
