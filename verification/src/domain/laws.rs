//! What holds of the domain, in terms of what goes in and comes out.
use crate::domain::approval::{ApprovalRequest, Risk};
use crate::domain::context::{RunContext, SessionContext};
use crate::domain::cron::CronJob;
use crate::domain::memory::{Memory, MemoryKind};
use crate::domain::pairing;
use crate::domain::pairing::{ApproveOutcome, PairingRequest, PairingStatus};
use crate::domain::reminder::{Reminder, ReminderStatus};
use crate::domain::run;
use crate::domain::run::{Run, RunStatus};
use crate::domain::task::{Task, TaskStatus};
use crate::domain::workspace;
use crate::domain::workspace::Workspace;
use crate::number;
use crate::path;
use crate::system;
use crate::text;
use vstd::prelude::*;
use vstd::utf8::*;

verus! {

// ---------------------------------------------------------------------------
// Pairing
// ---------------------------------------------------------------------------

/// The code that a row was made for opens it.
pub proof fn the_right_code_opens(
    platform: &str,
    sender: &str,
    chat: &str,
    code: &str,
    salt: String,
    now: i64,
    row: PairingRequest,
    s: &str,
    h: &str,
    ok: bool,
)
    requires
        call_ensures(PairingRequest::of_code, (platform, sender, chat, code, salt, now), row),
        s@ == row.salt@,
        h@ == row.code_hash@,
        call_ensures(pairing::verify_code, (s, h, code), ok),
    ensures
        ok,
        row.status == PairingStatus::Pending,
        row.created_at == now,
        row.sender_id@ == sender@,
        row.platform@ == platform@,
        row.chat_id@ == chat@,
{
}

/// Another code opens a row only where SHA-256 gives one digest to the salt followed by
/// either code, which are different bytes.
pub proof fn another_code_needs_a_collision(
    platform: &str,
    sender: &str,
    chat: &str,
    code: &str,
    salt: String,
    now: i64,
    row: PairingRequest,
    s: &str,
    h: &str,
    other: &str,
    ok: bool,
)
    requires
        call_ensures(PairingRequest::of_code, (platform, sender, chat, code, salt, now), row),
        s@ == row.salt@,
        h@ == row.code_hash@,
        other@ != code@,
        call_ensures(pairing::verify_code, (s, h, other), ok),
    ensures
        encode_utf8(salt@) + encode_utf8(other@) != encode_utf8(salt@) + encode_utf8(code@),
        ok <==> pairing::sha256(encode_utf8(salt@) + encode_utf8(other@)) == pairing::sha256(
            encode_utf8(salt@) + encode_utf8(code@),
        ),
{
    pairing::wrong_codes_need_a_collision(
        row,
        platform@,
        sender@,
        chat@,
        code@,
        salt@,
        now,
        other@,
    );
}

/// A code that waits for approval holds for an hour, and an approval for good.
pub proof fn codes_hold_for_an_hour(row: &PairingRequest, now: i64, r: bool)
    requires
        call_ensures(PairingRequest::is_expired, (row, now), r),
    ensures
        row.status == PairingStatus::Approved ==> !r,
        row.status == PairingStatus::Pending && now <= row.created_at + 3600 ==> !r,
        row.status == PairingStatus::Pending && now > row.created_at + 3600 ==> r,
{
}

/// Five wrong codes lock approving for the hour that follows the last of them.
pub proof fn five_wrong_codes_lock_approving(
    failures: i64,
    last: i64,
    now: i64,
    r: Option<ApproveOutcome>,
)
    requires
        call_ensures(pairing::lockout, (failures, last, now), r),
        last <= now,
    ensures
        r is Some <==> failures >= 5 && now - last < 3600,
        r matches Some(o) ==> o is Locked && o->retry_after_secs == 3600 - (now - last),
{
}

/// At most three senders wait for approval on a platform.
pub proof fn three_senders_may_wait(pending: usize, r: bool)
    requires
        call_ensures(pairing::has_room, (pending,), r),
    ensures
        pending <= 2 <==> r,
{
}

/// The bytes of a code matter up to eight of them, each by its remainder: codes of bytes
/// that agree there agree, and each has eight characters.
pub proof fn codes_follow_their_bytes(a: &Vec<u8>, b: &Vec<u8>, x: String, y: String)
    requires
        call_ensures(pairing::code_from, (a,), x),
        call_ensures(pairing::code_from, (b,), y),
        a@.len() >= 8,
        b@.len() >= 8,
    ensures
        x@.len() == 8,
        (forall|i: int| 0 <= i < 8 ==> #[trigger] a@[i] as int % 31 == b@[i] as int % 31) ==> x@
            == y@,
        forall|i: int| 0 <= i < 8 ==> "ABCDEFGHJKMNPQRSTUVWXYZ23456789"@.contains(#[trigger] x@[i]),
        forall|i: int|
            0 <= i < 8 && a@[i] == 0 ==> #[trigger] x@[i] == 'A',
        forall|i: int|
            0 <= i < 8 && a@[i] == 30 ==> #[trigger] x@[i] == '9',
{
    reveal_strlit("ABCDEFGHJKMNPQRSTUVWXYZ23456789");
    let all = "ABCDEFGHJKMNPQRSTUVWXYZ23456789"@;
    assert(all[0] == 'A' && all[30] == '9');
    assert forall|i: int| 0 <= i < 8 implies all.contains(#[trigger] x@[i]) by {
        let k = a@[i] as int % 31;
        assert(x@[i] == all[k]);
    }
    if forall|i: int| 0 <= i < 8 ==> #[trigger] a@[i] as int % 31 == b@[i] as int % 31 {
        assert forall|i: int| 0 <= i < 8 implies x@[i] == y@[i] by {
            assert(a@[i] as int % 31 == b@[i] as int % 31);
        }
        assert(x@ =~= y@);
    }
}

// ---------------------------------------------------------------------------
// Jobs, reminders and tasks
// ---------------------------------------------------------------------------

/// A job is due from its time on, as long as it is enabled; one that is due stays due.
pub proof fn jobs_come_due(job: &CronJob, now: i64, later: i64, r: bool, s: bool)
    requires
        call_ensures(CronJob::is_due, (job, now), r),
        call_ensures(CronJob::is_due, (job, later), s),
    ensures
        !job.enabled ==> !r,
        job.enabled && now == job.next_run_at ==> r,
        now < job.next_run_at ==> !r,
        r && now <= later ==> s,
{
}

/// A new job is enabled, has never run, and does what it was made for.
pub proof fn new_jobs_wait_for_their_time(
    name: &str,
    schedule: &str,
    command: &str,
    at: i64,
    job: CronJob,
)
    requires
        call_ensures(CronJob::new_command, (name, schedule, command, at), job),
    ensures
        job.enabled,
        job.next_run_at == at,
        job.last_run_at is None,
        job.last_status is None,
        job.name@ == name@,
        job.schedule@ == schedule@,
        job.action is Command,
        job.action->command@ == command@,
        job.action->args@.len() == 0,
{
}

/// A reminder recurs exactly where it has a schedule; a new one is pending, for its time
/// and with its message.
pub proof fn reminders_recur_by_their_schedule(
    message: String,
    at: i64,
    schedule: String,
    once: Reminder,
    again: Reminder,
    first: bool,
    second: bool,
)
    requires
        call_ensures(Reminder::new, (message, at), once),
        call_ensures(Reminder::recurring, (message, at, schedule), again),
        call_ensures(Reminder::is_recurring, (&once,), first),
        call_ensures(Reminder::is_recurring, (&again,), second),
    ensures
        !first,
        second <==> schedule@.len() > 0,
        once.message@ == message@ && once.run_at == at && once.status == ReminderStatus::Pending,
        again.message@ == message@ && again.run_at == at && again.status
            == ReminderStatus::Pending,
        again.schedule@ == schedule@,
{
}

/// A new task waits in the inbox under its title, with nothing else said of it.
pub proof fn new_tasks_wait_in_the_inbox(title: String, t: Task)
    requires
        call_ensures(Task::new, (title,), t),
    ensures
        t.status == TaskStatus::Inbox,
        t.title@ == title@,
        t.due_at is None,
        t.due_notified_at is None,
        t.completed_at is None,
        t.note@.len() == 0,
        t.waiting_on@.len() == 0,
{
}

/// What is new is stamped by the machine's clock, and what has an id of its own has one
/// that was issued for it.
pub proof fn new_things_are_stamped_by_the_clock(
    title: String,
    t: Task,
    kind: MemoryKind,
    content: &str,
    m: Memory,
    message: String,
    at: i64,
    schedule: String,
    r: Reminder,
    session: &str,
    input: &str,
    run: Run,
    name: &str,
    expr: &str,
    command: &str,
    job: CronJob,
)
    requires
        call_ensures(Task::new, (title,), t),
        call_ensures(Memory::new, (kind, content), m),
        call_ensures(Reminder::recurring, (message, at, schedule), r),
        call_ensures(Run::start, (session, input), run),
        call_ensures(CronJob::new_command, (name, expr, command, at), job),
    ensures
        system::clock_reads(t.created_at as int),
        system::clock_reads(m.created_at as int),
        m.updated_at == m.created_at,
        system::clock_reads(r.created_at as int),
        system::clock_reads(run.started_at as int),
        system::clock_reads(job.created_at as int),
        system::is_issued(job.id@),
        exists|id: Seq<char>| #[trigger] system::is_issued(id) && r.id@ == "rem-"@ + id,
        exists|nanos: int| #[trigger]
            system::clock_ticks(nanos) && t.id@ == "task-"@ + number::signed(nanos),
        exists|nanos: int| #[trigger]
            system::clock_ticks(nanos) && m.id@ == "mem-"@ + number::signed(nanos),
        exists|nanos: int| #[trigger]
            system::clock_ticks(nanos) && run.id@ == "run-"@ + number::signed(nanos),
{
}

/// A pairing code and its salt are left to chance, and its hour starts by the machine's
/// clock.
pub proof fn codes_are_left_to_chance(
    platform: &str,
    sender: &str,
    chat: &str,
    r: (PairingRequest, String),
)
    requires
        call_ensures(PairingRequest::mint, (platform, sender, chat), r),
    ensures
        system::is_drawn(r.0.salt@),
        system::clock_reads(r.0.created_at as int),
        r.0.status == PairingStatus::Pending,
        r.0.sender_id@ == sender@,
        exists|bytes: Seq<u8>| #[trigger]
            system::are_drawn(bytes) && r.1@ == pairing::code_text(bytes),
{
}

// ---------------------------------------------------------------------------
// Runs
// ---------------------------------------------------------------------------

/// A text is cut only where it is longer than the cap; what is left is its beginning, of
/// that many characters, and a marker.
pub proof fn texts_are_cut_at_the_cap(s: &str, cap: usize, r: String)
    requires
        call_ensures(run::truncate, (s, cap), r),
    ensures
        s@.len() <= cap ==> r@ == s@,
        s@.len() > cap ==> r@.len() == cap + 13 && r@.take(cap as int) == s@.take(cap as int)
            && text::has_suffix(r@, " …[truncated]"@),
{
    reveal_strlit(" …[truncated]");
    let mark = " …[truncated]"@;
    if s@.len() > cap {
        assert(r@.take(cap as int) =~= s@.take(cap as int));
        assert(r@.subrange(r@.len() - mark.len(), r@.len() as int) =~= mark);
    }
}

/// A run opens as running, under its session and with nothing said of its end.
pub proof fn runs_open_as_running(session: &str, input: &str, r: Run)
    requires
        call_ensures(Run::start, (session, input), r),
    ensures
        r.status == RunStatus::Running,
        r.session_id@ == session@,
        r.ended_at is None,
        r.error@.len() == 0,
        r.final_output@.len() == 0,
        !r.recoverable,
        input@.len() <= run::RUN_FIELD_CAP ==> r.input@ == input@,
{
}

/// A tool call loads a skill exactly where it is a call of the skill tool that views the
/// skill of that name.
pub proof fn skills_are_loaded_by_viewing(
    tool: &str,
    action: &Option<String>,
    name: &Option<String>,
    skill: &str,
    r: bool,
)
    requires
        call_ensures(run::is_skill_view, (tool, action, name, skill), r),
    ensures
        r <==> tool@ == "skill"@ && action is Some && action->0@ == "view"@ && name is Some
            && name->0@ == skill@,
{
}

proof fn lemma_lines_hold(steps: Seq<run::RunStep>, i: int, k: int, j: int)
    requires
        0 <= i <= j < k <= steps.len(),
    ensures
        text::has_part(run::step_lines(steps, i, k), run::step_line(steps[j], j)),
    decreases k - i,
{
    let whole = run::step_lines(steps, i, k);
    let line = run::step_line(steps[i], i);
    let rest = run::step_lines(steps, i + 1, k);
    if j == i {
        assert(whole.subrange(0, line.len() as int) =~= line);
        assert(text::occurs_at(whole, line, 0));
    } else {
        lemma_lines_hold(steps, i + 1, k, j);
        let want = run::step_line(steps[j], j);
        let at = choose|at: int| text::occurs_at(rest, want, at);
        let there = line.len() + at;
        assert(whole.subrange(there, there + want.len()) =~= rest.subrange(at, at + want.len()));
        assert(text::occurs_at(whole, want, there));
    }
}

proof fn lemma_line_says(s: run::RunStep, j: int)
    requires
        0 <= j,
    ensures
        text::has_part(run::step_line(s, j), s.tool_name@),
        !s.ok ==> text::has_part(run::step_line(s, j), "error: "@),
{
    let line = run::step_line(s, j);
    let front = number::decimal((j + 1) as nat) + ". "@;
    let name = s.tool_name@;
    let back = " "@ + run::snippet(s.args@) + " → "@ + run::step_outcome(s) + "\n"@;
    assert(line =~= front + name + back);
    text::lemma_part_of_itself(name);
    text::lemma_part_of_part(line, front, name, back, name);
    if !s.ok {
        let e = "error: "@;
        let x = front + name + " "@ + run::snippet(s.args@) + " → "@;
        let y = run::snippet(s.error@) + "\n"@;
        assert(line =~= x + e + y);
        text::lemma_part_of_itself(e);
        text::lemma_part_of_part(line, x, e, y, e);
    }
}

/// The words that stand for `n` steps left out.
pub open spec fn more_steps(n: int) -> Seq<char> {
    number::decimal(n as nat) + " more step(s)"@
}

proof fn lemma_elision_says(n: int, id: Seq<char>)
    ensures
        text::has_part(run::elision(n, id), more_steps(n)),
{
    reveal_strlit(" more step(s), elided for length (full record: `komo run inspect ");
    reveal_strlit(" more step(s)");
    let long = " more step(s), elided for length (full record: `komo run inspect "@;
    let short = " more step(s)"@;
    let said = more_steps(n);
    assert(long.take(short.len() as int) =~= short);
    assert(long =~= short + long.skip(short.len() as int));
    let front = "…and "@;
    let back = long.skip(short.len() as int) + id + "`).\n"@;
    assert(run::elision(n, id) =~= front + said + back);
    text::lemma_part_of_itself(said);
    text::lemma_part_of_part(run::elision(n, id), front, said, back, said);
}

/// Whether a prompt tells of the first `k` steps, each by its tool and by whether one
/// failed, and of how many it leaves out.
pub open spec fn tells_of_steps(prompt: Seq<char>, steps: Seq<run::RunStep>, k: int) -> bool {
    &&& 0 <= k <= steps.len()
    &&& forall|j: int| 0 <= j < k ==> text::has_part(prompt, (#[trigger] steps[j]).tool_name@)
    &&& forall|j: int|
        0 <= j < k && !(#[trigger] steps[j]).ok ==> text::has_part(prompt, "error: "@)
    &&& k < steps.len() ==> text::has_part(prompt, more_steps(steps.len() - k))
}

/// A resumed run is told its request and its name.
pub proof fn resumed_runs_know_their_request(r: &Run, steps: &[run::RunStep], prompt: String)
    requires
        call_ensures(run::resume_prompt, (r, steps), prompt),
    ensures
        text::has_part(prompt@, r.input@),
        text::has_part(prompt@, r.id@),
{
    run::resume_prompt_quotes_the_request(*r, steps@);
    let head = run::resume_head(*r);
    let lead = "[resume "@;
    let after =
        "] The previous attempt at the task was interrupted (the process restarted mid-turn). Original request:\n\n"@
        + r.input@ + "\n\n"@;
    assert(head =~= lead + r.id@ + after);
    assert(prompt@.subrange(0, head.len() as int) == head);
    assert(prompt@ =~= lead + r.id@ + (after + prompt@.skip(head.len() as int))) by {
        assert(prompt@ =~= prompt@.subrange(0, head.len() as int) + prompt@.skip(
            head.len() as int,
        ));
        assert(lead + r.id@ + after + prompt@.skip(head.len() as int) =~= lead + r.id@ + (after
            + prompt@.skip(head.len() as int)));
    }
    text::lemma_part_of_itself(r.id@);
    text::lemma_part_of_part(
        prompt@,
        lead,
        r.id@,
        after + prompt@.skip(head.len() as int),
        r.id@,
    );
}

proof fn lemma_prompt_says(
    prompt: Seq<char>,
    opening: Seq<char>,
    id: Seq<char>,
    last: Seq<char>,
    steps: Seq<run::RunStep>,
    k: int,
)
    requires
        0 <= k <= steps.len(),
        prompt == opening + run::step_lines(steps, 0, k) + (if k < steps.len() {
            run::elision(steps.len() - k, id)
        } else {
            Seq::empty()
        }) + last,
    ensures
        tells_of_steps(prompt, steps, k),
{
    let lines = run::step_lines(steps, 0, k);
    let tail = if k < steps.len() {
        run::elision(steps.len() - k, id)
    } else {
        Seq::empty()
    };
    assert(prompt =~= opening + lines + (tail + last));
    assert forall|j: int| 0 <= j < k implies text::has_part(
        prompt,
        (#[trigger] steps[j]).tool_name@,
    ) && (!steps[j].ok ==> text::has_part(prompt, "error: "@)) by {
        let line = run::step_line(steps[j], j);
        lemma_lines_hold(steps, 0, k, j);
        lemma_line_says(steps[j], j);
        lemma_part_in(prompt, opening, lines, tail + last, line, steps[j].tool_name@);
        if !steps[j].ok {
            lemma_part_in(prompt, opening, lines, tail + last, line, "error: "@);
        }
    }
    if k < steps.len() {
        lemma_elision_says(steps.len() - k, id);
        text::lemma_part_of_part(prompt, opening + lines, tail, last, more_steps(steps.len() - k));
    }
}

/// A resumed run is told each tool that had been called, up to some step, and then how
/// many more there were.
pub proof fn resumed_runs_know_their_steps(r: &Run, steps: &[run::RunStep], prompt: String)
    requires
        call_ensures(run::resume_prompt, (r, steps), prompt),
        steps@.len() > 0,
    ensures
        exists|k: int| #[trigger] tells_of_steps(prompt@, steps@, k),
{
    let list = steps@;
    let head = run::resume_head(*r);
    let opening = head + ("Before the interruption, "@ + number::decimal(list.len())
        + " tool call(s) had already completed:\n"@);
    run::digest_accounts_for_every_step(opening, r.id@, list, 0);
    let k = choose|k: int|
        {
            &&& 0 <= k <= list.len()
            &&& run::digest(opening, r.id@, list, 0) == opening + #[trigger] run::step_lines(
                list,
                0,
                k,
            ) + (if k < list.len() {
                run::elision(list.len() - k, r.id@)
            } else {
                Seq::empty()
            })
            &&& k < list.len() ==> text::byte_len(opening + run::step_lines(list, 0, k))
                > run::RESUME_DIGEST_CAP
        };
    let last =
        "\nReview what already took effect, then continue the task from where it stopped. Do not re-apply side effects that already succeeded — verify first when unsure. Reply with the completed outcome."@;
    lemma_prompt_says(prompt@, opening, r.id@, last, list, k);
}

proof fn lemma_part_in(
    s: Seq<char>,
    front: Seq<char>,
    mid: Seq<char>,
    back: Seq<char>,
    line: Seq<char>,
    p: Seq<char>,
)
    requires
        s == front + mid + back,
        text::has_part(mid, line),
        text::has_part(line, p),
    ensures
        text::has_part(s, p),
{
    let at = choose|at: int| text::occurs_at(mid, line, at);
    let x = mid.take(at);
    let y = mid.skip(at + line.len());
    assert(mid =~= x + line + y);
    text::lemma_part_of_part(mid, x, line, y, p);
    text::lemma_part_of_part(s, front, mid, back, p);
}

// ---------------------------------------------------------------------------
// Workspaces
// ---------------------------------------------------------------------------

proof fn lemma_location_of_child(roots: Seq<Seq<char>>, p: Seq<char>, name: Seq<char>)
    requires
        path::is_rooted(p),
        path::is_plain_name(name),
    ensures
        path::is_rooted(p.push('/') + name),
        workspace::location(roots, p.push('/') + name) == workspace::location(roots, p).push(name),
{
    path::lemma_child(p, name);
    assert((p.push('/') + name)[0] == p[0]);
}

/// What is in a workspace has everything below it there too.
pub proof fn what_is_inside_stays_inside(
    ws: &Workspace,
    p: &str,
    q: &str,
    name: Seq<char>,
    outer: bool,
    inner: bool,
)
    requires
        call_ensures(Workspace::contains, (ws, p), outer),
        call_ensures(Workspace::contains, (ws, q), inner),
        path::is_rooted(p@),
        path::is_plain_name(name),
        q@ == p@.push('/') + name,
        outer,
    ensures
        inner,
{
    let roots = ws.root_list();
    lemma_location_of_child(roots, p@, name);
    let k = choose|k: int|
        0 <= k < roots.len() && path::leads(
            path::components(#[trigger] roots[k]),
            workspace::location(roots, p@),
        );
    let c = path::components(roots[k]);
    let l = workspace::location(roots, p@);
    assert(l.push(name).take(c.len() as int) =~= l.take(c.len() as int));
    assert(path::leads(path::components(roots[k]), workspace::location(roots, q@)));
}

/// A rooted directory that a workspace lists is in it, where the directory is written
/// without steps in place or up.
pub proof fn roots_are_inside(ws: &Workspace, k: int, p: &str, r: bool)
    requires
        call_ensures(Workspace::contains, (ws, p), r),
        0 <= k < ws.root_list().len(),
        p@ == ws.root_list()[k],
        path::is_rooted(p@),
        forall|i: int|
            0 <= i < path::components(p@).len() ==> #[trigger] path::components(p@)[i] != "."@
                && path::components(p@)[i] != ".."@,
    ensures
        r,
{
    let roots = ws.root_list();
    path::lemma_without_dots(p@);
    let c = path::components(roots[k]);
    assert(c.take(c.len() as int) =~= c);
    assert(path::leads(path::components(roots[k]), workspace::location(roots, p@)));
}

/// A path that is not rooted is read from the first directory of the workspace.
pub proof fn relative_paths_start_at_the_first_root(
    ws: &Workspace,
    p: &str,
    q: &str,
    relative: bool,
    rooted: bool,
)
    requires
        call_ensures(Workspace::contains, (ws, p), relative),
        call_ensures(Workspace::contains, (ws, q), rooted),
        ws.root_list().len() > 0,
        path::is_rooted(ws.root_list()[0]),
        ws.root_list()[0].last() != '/',
        !path::is_rooted(p@),
        q@ == ws.root_list()[0].push('/') + p@,
    ensures
        relative == rooted,
{
    assert(path::is_rooted(q@)) by {
        assert(q@[0] == ws.root_list()[0][0]);
    }
}

/// Climbing takes one component back, and never past the root: from a place directly in a
/// workspace's only directory it leads out of it, where that directory is not the root.
pub proof fn climbing_out_is_refused(ws: &Workspace, p: &str, q: &str, at_root: bool, up: bool)
    requires
        call_ensures(Workspace::contains, (ws, p), at_root),
        call_ensures(Workspace::contains, (ws, q), up),
        ws.root_list() == seq![p@],
        path::is_rooted(p@),
        path::components(p@).len() > 1,
        forall|i: int|
            0 <= i < path::components(p@).len() ==> #[trigger] path::components(p@)[i] != "."@
                && path::components(p@)[i] != ".."@,
        forall|i: int| 0 < i < path::components(p@).len() ==> #[trigger] path::components(p@)[i] != "/"@,
        q@ == p@.push('/') + ".."@,
    ensures
        at_root,
        !up,
{
    let roots = ws.root_list();
    assert(roots[0] == p@);
    roots_are_inside(ws, 0, p, at_root);
    path::lemma_without_dots(p@);
    path::lemma_climb(p@);
    assert(q@[0] == p@[0]);
    let c = path::components(p@);
    assert(c[c.len() - 1] != "/"@);
}

// ---------------------------------------------------------------------------
// Contexts and requests
// ---------------------------------------------------------------------------

/// A detached turn can neither ask nor is it trusted, a trusted one needs no prompt, and
/// one over the interactive interface can ask; each is of its own session.
pub proof fn contexts_say_who_can_answer(
    session: &str,
    detached: SessionContext,
    trusted: SessionContext,
    interactive: SessionContext,
)
    requires
        call_ensures(SessionContext::detached, (session,), detached),
        call_ensures(SessionContext::trusted, (session,), trusted),
        call_ensures(SessionContext::interactive_http, (session,), interactive),
    ensures
        !detached.interactive && !detached.auto_approve && detached.session_id@ == session@,
        !trusted.interactive && trusted.auto_approve && trusted.session_id@ == session@,
        interactive.interactive && !interactive.auto_approve && interactive.session_id@
            == session@,
{
}

/// A request says what it asks and how risky that is, and is of no kind that could be
/// allowed ahead unless it is given one.
pub proof fn requests_say_their_risk(
    summary: &str,
    detail: &str,
    safe: ApprovalRequest,
    normal: ApprovalRequest,
    dangerous: ApprovalRequest,
)
    requires
        call_ensures(ApprovalRequest::safe, (summary,), safe),
        call_ensures(ApprovalRequest::normal, (summary,), normal),
        call_ensures(ApprovalRequest::dangerous, (summary, detail), dangerous),
    ensures
        safe.risk == Risk::Safe && safe.summary@ == summary@ && safe.scope_key is None,
        normal.risk == Risk::Normal && normal.summary@ == summary@ && normal.scope_key is None,
        dangerous.risk == Risk::Dangerous && dangerous.summary@ == summary@ && dangerous.scope_key
            is None && dangerous.detail is Some && dangerous.detail->0@ == detail@,
{
}

/// The steps of a run are numbered from zero, one after the other.
pub proof fn steps_are_numbered_in_turn(
    id: String,
    made: RunContext,
    a: &mut RunContext,
    b: &mut RunContext,
    first: i64,
    second: i64,
    count: i64,
    after: &RunContext,
)
    requires
        call_ensures(RunContext::new, (id,), made),
        *old(a) == made,
        call_ensures(RunContext::next_seq, (a,), first),
        *old(b) == *final(a),
        call_ensures(RunContext::next_seq, (b,), second),
        *after == *final(b),
        call_ensures(RunContext::steps_count, (after,), count),
    ensures
        first == 0,
        second == 1,
        count == 2,
{
}

/// A task is open until it is done or cancelled.
pub proof fn tasks_are_open_until_done(s: &TaskStatus, r: bool)
    requires
        call_ensures(TaskStatus::is_open, (s,), r),
    ensures
        r <==> *s != TaskStatus::Done && *s != TaskStatus::Cancelled,
{
}

} // verus!
