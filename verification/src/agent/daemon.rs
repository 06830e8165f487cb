//! Background maintenance: what each sweep decides, and when the loop gives up.
//!
//! A sweep works on what a repository handed over and returns what to announce and
//! what to store; announcing comes first, so that a crash in between repeats a notice
//! rather than losing it.
use crate::agent::schedule;
use crate::agent::schedule::next_occurrence_local;
use crate::domain::memory::{Memory, MemoryConfidence, MemoryStatus};
use crate::domain::memory;
use crate::domain::reminder::{Reminder, ReminderStatus};
use crate::domain::task::Task;
use crate::number;
use crate::sorting;
use crate::text;
use vstd::prelude::*;

verus! {

/// Stop the daemon once this many maintenance cycles fail back-to-back.
pub const MAX_CONSECUTIVE_FAILURES: u32 = 5;

/// Grace window in seconds: what is due longer than this is announced as missed.
pub const REMINDER_GRACE_SECS: i64 = 600;

/// Window in seconds for "recently learned" memories in the briefing: seven days.
pub const BRIEFING_MEMORY_WINDOW_SECS: i64 = 604_800;

/// Cap on each briefing list; what is cut is counted in-line.
pub const BRIEFING_SECTION_CAP: usize = 10;

/// What one maintenance cycle did.
#[derive(Debug, Clone, Copy, PartialEq, Eq, Structural)]
pub struct MaintenanceSummary {
    pub sessions_reviewed: usize,
    pub memories_written: usize,
    pub skills_written: usize,
    pub reminders_fired: usize,
    pub tasks_notified: usize,
    /// Commitments captured into the task inbox this sweep.
    pub tasks_captured: usize,
    /// Daily briefings composed and delivered this sweep (0 or 1).
    pub briefings_sent: usize,
    /// Candidate memories the dream sweep promoted to active this cycle.
    pub memories_promoted: usize,
    /// Candidate memories the dream sweep archived this cycle.
    pub memories_archived: usize,
}

/// A cycle that did nothing.
pub open spec fn idle() -> MaintenanceSummary {
    MaintenanceSummary {
        sessions_reviewed: 0,
        memories_written: 0,
        skills_written: 0,
        reminders_fired: 0,
        tasks_notified: 0,
        tasks_captured: 0,
        briefings_sent: 0,
        memories_promoted: 0,
        memories_archived: 0,
    }
}

impl Default for MaintenanceSummary {
    fn default() -> (r: Self)
        ensures
            r == idle(),
    {
        MaintenanceSummary {
            sessions_reviewed: 0,
            memories_written: 0,
            skills_written: 0,
            reminders_fired: 0,
            tasks_notified: 0,
            tasks_captured: 0,
            briefings_sent: 0,
            memories_promoted: 0,
            memories_archived: 0,
        }
    }
}

/// A notification to deliver.
#[derive(Debug)]
pub struct Notice {
    pub title: String,
    pub body: String,
}

/// The titles and bodies of a list of notices.
pub open spec fn notices_of(list: Seq<Notice>) -> Seq<(Seq<char>, Seq<char>)> {
    list.map_values(|n: Notice| (n.title@, n.body@))
}

/// The messages as bullets.
pub open spec fn bulleted(messages: Seq<Seq<char>>) -> Seq<Seq<char>> {
    messages.map_values(|m: Seq<char>| "• "@ + m)
}

/// A group of due items as at most one notice: nothing for none, the plain message
/// for one, a bulleted digest under a count-tagged title for several.
pub open spec fn batch(title: Seq<char>, messages: Seq<Seq<char>>) -> Seq<(
    Seq<char>,
    Seq<char>,
)> {
    if messages.len() == 0 {
        Seq::empty()
    } else if messages.len() == 1 {
        seq![(title, messages[0])]
    } else {
        seq![
            (
                title + " ("@ + number::decimal(messages.len()) + " items)"@,
                text::joined(bulleted(messages), "\n"@),
            ),
        ]
    }
}

/// Coalesces a group of due items, so that a backlog makes one ping, not one per item.
pub fn notify_batch(title: &str, messages: &Vec<String>) -> (r: Option<Notice>)
    ensures
        match r {
            None => batch(title@, text::views(messages@)).len() == 0,
            Some(n) => batch(title@, text::views(messages@)) == seq![(n.title@, n.body@)],
        },
{
    broadcast use text::lemma_views_push;

    if messages.len() == 0 {
        return None;
    }
    if messages.len() == 1 {
        return Some(Notice { title: title.to_owned(), body: messages[0].clone() });
    }
    let ghost all = bulleted(text::views(messages@));
    let mut lines: Vec<String> = Vec::new();
    let mut i: usize = 0;
    assert(text::views(lines@) =~= all.take(0));
    while i < messages.len()
        invariant
            i <= messages.len(),
            all == bulleted(text::views(messages@)),
            text::views(lines@) == all.take(i as int),
        decreases messages.len() - i,
    {
        broadcast use text::lemma_views_push;

        let mut line = "• ".to_owned();
        line.push_str(&messages[i]);
        let ghost before = text::views(lines@);
        lines.push(line);
        assert(text::views(lines@) == before.push(line@));
        i = i + 1;
        assert(text::views(lines@) =~= all.take(i as int));
    }
    assert(all.take(i as int) =~= all);
    let mut heading = title.to_owned();
    heading.push_str(" (");
    heading.push_str(&number::write_size(messages.len()));
    heading.push_str(" items)");
    Some(Notice { title: heading, body: text::join(&lines, "\n") })
}

/// Two groups of due items, each as at most one notice.
fn two_batches(
    first: &str,
    some: &Vec<String>,
    second: &str,
    others: &Vec<String>,
) -> (r: Vec<Notice>)
    ensures
        notices_of(r@) == batch(first@, text::views(some@)) + batch(
            second@,
            text::views(others@),
        ),
{
    let mut out: Vec<Notice> = Vec::new();
    assert(notices_of(out@) =~= Seq::empty());
    if let Some(n) = notify_batch(first, some) {
        out.push(n);
    }
    assert(notices_of(out@) =~= batch(first@, text::views(some@)));
    let ghost before = out@;
    if let Some(n) = notify_batch(second, others) {
        out.push(n);
        assert(notices_of(out@) =~= notices_of(before).push((n.title@, n.body@)));
    }
    assert(notices_of(out@) =~= batch(first@, text::views(some@)) + batch(
        second@,
        text::views(others@),
    ));
    out
}

// ---- Reminders ----

/// Whether what was due at `at` is past the grace window.
pub open spec fn is_late(at: i64, now: i64) -> bool {
    now - at > REMINDER_GRACE_SECS
}

fn late(at: i64, now: i64) -> (r: bool)
    ensures
        r == is_late(at, now),
{
    now as i128 - at as i128 > REMINDER_GRACE_SECS as i128
}

/// The reminders that are due.
pub open spec fn due_reminders(list: Seq<Reminder>, now: i64) -> Seq<int> {
    sorting::chosen(Seq::new(list.len(), |i: int| list[i].run_at <= now))
}

/// The messages of the due reminders that are past the grace window, or of those that
/// are not.
pub open spec fn due_messages(list: Seq<Reminder>, now: i64, past: bool) -> Seq<Seq<char>> {
    let at = due_reminders(list, now);
    let picked = sorting::chosen(
        Seq::new(at.len(), |k: int| is_late(list[at[k]].run_at, now) == past),
    );
    Seq::new(picked.len(), |k: int| list[at[picked[k]]].message@)
}

/// What becomes of a due reminder.
#[derive(Debug, Clone, Copy, PartialEq, Eq, Structural)]
pub enum ReminderStep {
    /// Store the next time it is due; it stays pending.
    Reschedule(i64),
    /// Store a final status.
    Mark(ReminderStatus),
}

/// What becomes of a due reminder, where `next` is the next slot of a recurring one,
/// if its schedule has one.
pub open spec fn step_of(r: Reminder, now: i64, next: Option<i64>) -> ReminderStep {
    if r.schedule@.len() > 0 {
        match next {
            Some(t) => ReminderStep::Reschedule(t),
            None => ReminderStep::Mark(ReminderStatus::Missed),
        }
    } else if is_late(r.run_at, now) {
        ReminderStep::Mark(ReminderStatus::Missed)
    } else {
        ReminderStep::Mark(ReminderStatus::Fired)
    }
}

/// What becomes of a due reminder. A recurring one whose schedule is broken is marked
/// missed, so that it does not fail again on every tick.
pub fn reminder_step(r: &Reminder, now: i64, next: Option<i64>) -> (s: ReminderStep)
    ensures
        s == step_of(*r, now, next),
{
    if r.is_recurring() {
        match next {
            Some(t) => ReminderStep::Reschedule(t),
            None => ReminderStep::Mark(ReminderStatus::Missed),
        }
    } else if late(r.run_at, now) {
        ReminderStep::Mark(ReminderStatus::Missed)
    } else {
        ReminderStep::Mark(ReminderStatus::Fired)
    }
}

/// Whether `next` is the next slot after `now` of a schedule on some wall clock: none where
/// the schedule is broken, or the search for a slot fails.
pub open spec fn is_next_slot(expr: Seq<char>, now: i64, next: Option<i64>) -> bool {
    exists|found: Result<i64, String>| #[trigger]
        schedule::is_local_search(expr, now as int, found) && next == match found {
            Ok(t) => Some(t),
            Err(_) => None,
        }
}

/// Whether `s` is what becomes of a due reminder on some machine: a recurring one takes
/// the next slot of its schedule after `now`, or is missed where there is none.
pub open spec fn is_step(r: Reminder, now: i64, s: ReminderStep) -> bool {
    if r.schedule@.len() > 0 {
        exists|next: Option<i64>| #[trigger]
            is_next_slot(r.schedule@, now, next) && s == step_of(r, now, next)
    } else {
        s == step_of(r, now, None)
    }
}

/// Whether a stored step counts as a reminder that fired.
pub open spec fn fires(s: ReminderStep) -> bool {
    s is Reschedule || s == ReminderStep::Mark(ReminderStatus::Fired)
}

/// A step to store, with the reminder it belongs to.
#[derive(Debug)]
pub struct ReminderUpdate {
    pub id: String,
    pub step: ReminderStep,
}

/// What a reminder sweep announces and stores.
#[derive(Debug)]
pub struct ReminderPlan {
    pub notices: Vec<Notice>,
    pub updates: Vec<ReminderUpdate>,
}

/// The sweep over pending reminders, run every minute.
#[derive(Debug)]
pub struct ReminderSweep {
    pub reminders: Vec<Reminder>,
}

fn messages_at(list: &Vec<Reminder>, at: &Vec<usize>, now: i64, past: bool) -> (r: Vec<String>)
    requires
        forall|k: int| 0 <= k < at@.len() ==> #[trigger] at@[k] < list@.len(),
        at@.len() == due_reminders(list@, now).len(),
        forall|k: int|
            0 <= k < at@.len() ==> at@[k] == #[trigger] due_reminders(list@, now)[k],
    ensures
        text::views(r@) == due_messages(list@, now, past),
{
    broadcast use text::lemma_views_push;

    let ghost due = due_reminders(list@, now);
    let ghost wanted = Seq::new(due.len(), |k: int| is_late(list@[due[k]].run_at, now) == past);
    let mut flags: Vec<bool> = Vec::new();
    let mut i: usize = 0;
    assert(flags@ =~= wanted.take(0));
    while i < at.len()
        invariant
            i <= at.len(),
            forall|k: int| 0 <= k < at@.len() ==> #[trigger] at@[k] < list@.len(),
            at@.len() == due.len(),
            forall|k: int| 0 <= k < at@.len() ==> at@[k] == #[trigger] due[k],
            wanted == Seq::new(due.len(), |k: int| is_late(list@[due[k]].run_at, now) == past),
            flags@ == wanted.take(i as int),
        decreases at.len() - i,
    {
        assert(at@[i as int] == due[i as int]);
        flags.push(late(list[at[i]].run_at, now) == past);
        i = i + 1;
        assert(flags@ =~= wanted.take(i as int));
    }
    assert(wanted.take(i as int) =~= wanted);
    let picked = sorting::positions(&flags);
    let ghost all = due_messages(list@, now, past);
    let mut out: Vec<String> = Vec::new();
    let mut j: usize = 0;
    assert(text::views(out@) =~= all.take(0));
    while j < picked.len()
        invariant
            j <= picked.len(),
            forall|k: int| 0 <= k < at@.len() ==> #[trigger] at@[k] < list@.len(),
            at@.len() == due.len(),
            due == due_reminders(list@, now),
            forall|k: int| 0 <= k < at@.len() ==> at@[k] == #[trigger] due[k],
            wanted == Seq::new(due.len(), |k: int| is_late(list@[due[k]].run_at, now) == past),
            flags@ == wanted,
            picked@.len() == sorting::chosen(flags@).len(),
            forall|k: int|
                0 <= k < picked@.len() ==> picked@[k] == #[trigger] sorting::chosen(flags@)[k],
            forall|k: int| 0 <= k < picked@.len() ==> #[trigger] picked@[k] < at@.len(),
            all == due_messages(list@, now, past),
            text::views(out@) == all.take(j as int),
        decreases picked.len() - j,
    {
        broadcast use text::lemma_views_push;

        assert(picked@[j as int] == sorting::chosen(flags@)[j as int]);
        assert(at@[picked@[j as int] as int] == due[picked@[j as int] as int]);
        let message = list[at[picked[j]]].message.clone();
        let ghost before = text::views(out@);
        out.push(message);
        assert(text::views(out@) == before.push(message@));
        j = j + 1;
        assert(text::views(out@) =~= all.take(j as int));
    }
    assert(all.take(j as int) =~= all);
    out
}

impl ReminderSweep {
    /// What this sweep announces and stores at `now`.
    pub fn run(&self, now: i64) -> (r: ReminderPlan)
        requires
            schedule::is_searchable(now as int),
        ensures
            notices_of(r.notices@) == batch(
                "Komo reminder"@,
                due_messages(self.reminders@, now, false),
            ) + batch("Komo (missed reminder)"@, due_messages(self.reminders@, now, true)),
            r.updates@.len() == due_reminders(self.reminders@, now).len(),
            forall|k: int|
                0 <= k < r.updates@.len() ==> {
                    let it = self.reminders@[due_reminders(self.reminders@, now)[k]];
                    (#[trigger] r.updates@[k]).id@ == it.id@ && is_step(it, now, r.updates@[k].step)
                },
    {
        let list = &self.reminders;
        let ghost want = Seq::new(list@.len(), |i: int| list@[i].run_at <= now);
        let mut flags: Vec<bool> = Vec::new();
        let mut i: usize = 0;
        assert(flags@ =~= want.take(0));
        while i < list.len()
            invariant
                i <= list.len(),
                want == Seq::new(list@.len(), |i: int| list@[i].run_at <= now),
                flags@ == want.take(i as int),
            decreases list.len() - i,
        {
            flags.push(list[i].run_at <= now);
            i = i + 1;
            assert(flags@ =~= want.take(i as int));
        }
        assert(want.take(i as int) =~= want);
        let at = sorting::positions(&flags);
        let on_time = messages_at(list, &at, now, false);
        let missed = messages_at(list, &at, now, true);
        let notices = two_batches("Komo reminder", &on_time, "Komo (missed reminder)", &missed);
        let mut updates: Vec<ReminderUpdate> = Vec::new();
        let mut j: usize = 0;
        while j < at.len()
            invariant
                j <= at.len(),
                *list == self.reminders,
                schedule::is_searchable(now as int),
                at@.len() == due_reminders(list@, now).len(),
                forall|k: int|
                    0 <= k < at@.len() ==> at@[k] == #[trigger] due_reminders(list@, now)[k],
                forall|k: int| 0 <= k < at@.len() ==> #[trigger] at@[k] < list@.len(),
                updates@.len() == j,
                forall|k: int|
                    0 <= k < j ==> {
                        let it = self.reminders@[due_reminders(self.reminders@, now)[k]];
                        (#[trigger] updates@[k]).id@ == it.id@ && is_step(it, now, updates@[k].step)
                    },
            decreases at.len() - j,
        {
            assert(at@[j as int] == due_reminders(list@, now)[j as int]);
            let it = &list[at[j]];
            let next: Option<i64> = if it.is_recurring() {
                let found = next_occurrence_local(&it.schedule, now);
                assert(schedule::is_local_search(it.schedule@, now as int, found));
                let slot = match found {
                    Ok(t) => Some(t),
                    Err(_) => None,
                };
                assert(is_next_slot(it.schedule@, now, slot));
                slot
            } else {
                None
            };
            let step = reminder_step(it, now, next);
            updates.push(ReminderUpdate { id: it.id.clone(), step });
            j = j + 1;
        }
        ReminderPlan { notices, updates }
    }

    /// What the sweep did, where `saved[k]` says whether the `k`-th update was stored.
    pub fn summary(plan: &ReminderPlan, saved: &Vec<bool>) -> (r: MaintenanceSummary)
        requires
            saved@.len() == plan.updates@.len(),
        ensures
            r.reminders_fired == sorting::chosen(
                Seq::new(
                    saved@.len(),
                    |k: int| saved@[k] && fires(plan.updates@[k].step),
                ),
            ).len(),
            r == (MaintenanceSummary { reminders_fired: r.reminders_fired, ..idle() }),
    {
        let ghost want = Seq::new(
            saved@.len(),
            |k: int| saved@[k] && fires(plan.updates@[k].step),
        );
        let mut flags: Vec<bool> = Vec::new();
        let mut i: usize = 0;
        assert(flags@ =~= want.take(0));
        while i < saved.len()
            invariant
                i <= saved.len(),
                saved@.len() == plan.updates@.len(),
                want == Seq::new(
                    saved@.len(),
                    |k: int| saved@[k] && fires(plan.updates@[k].step),
                ),
                flags@ == want.take(i as int),
            decreases saved.len() - i,
        {
            let fired = match plan.updates[i].step {
                ReminderStep::Reschedule(_) => true,
                ReminderStep::Mark(ReminderStatus::Fired) => true,
                ReminderStep::Mark(_) => false,
            };
            flags.push(saved[i] && fired);
            i = i + 1;
            assert(flags@ =~= want.take(i as int));
        }
        assert(want.take(i as int) =~= want);
        let at = sorting::positions(&flags);
        let mut r = MaintenanceSummary::default();
        r.reminders_fired = at.len();
        r
    }
}

/// Storing its step takes a reminder out of the due ones: it is due after `now` or no
/// longer pending.
pub proof fn due_reminders_are_settled(r: Reminder, now: i64, s: ReminderStep)
    requires
        is_step(r, now, s),
    ensures
        match s {
            ReminderStep::Reschedule(t) => r.schedule@.len() > 0 && t > now,
            ReminderStep::Mark(status) => status != ReminderStatus::Pending,
        },
{
}

/// Every due reminder is announced, in one of the two groups and with its message.
pub proof fn due_reminders_are_announced(list: Seq<Reminder>, now: i64, i: int)
    requires
        0 <= i < list.len(),
        list[i].run_at <= now,
    ensures
        due_messages(list, now, is_late(list[i].run_at, now)).contains(list[i].message@),
{
    let flags = Seq::new(list.len(), |i: int| list[i].run_at <= now);
    sorting::chosen_is_exact(flags);
    assert(flags[i]);
    let at = due_reminders(list, now);
    let k = choose|k: int| 0 <= k < at.len() && at[k] == i;
    let past = is_late(list[i].run_at, now);
    let wanted = Seq::new(at.len(), |k: int| is_late(list[at[k]].run_at, now) == past);
    sorting::chosen_is_exact(wanted);
    assert(wanted[k]);
    let picked = sorting::chosen(wanted);
    let j = choose|j: int| 0 <= j < picked.len() && picked[j] == k;
    assert(due_messages(list, now, past)[j] == list[i].message@);
}

/// A broken schedule is never rescheduled.
pub proof fn broken_schedules_are_missed(r: Reminder, now: i64, s: ReminderStep)
    requires
        is_step(r, now, s),
        r.schedule@.len() > 0,
        schedule::cron_fault(r.schedule@) is Some,
    ensures
        s == ReminderStep::Mark(ReminderStatus::Missed),
{
}

// ---- Tasks ----

/// Whether a task has come due and nobody was told yet.
pub open spec fn is_due(t: Task, now: i64) -> bool {
    &&& t.due_at matches Some(d)
    &&& d <= now
    &&& t.due_notified_at is None
}

/// The tasks that have come due.
pub open spec fn due_tasks(list: Seq<Task>, now: i64) -> Seq<int> {
    sorting::chosen(Seq::new(list.len(), |i: int| is_due(list[i], now)))
}

/// What is said of a due task: its title and who it waits on.
pub open spec fn task_body(t: Task) -> Seq<char> {
    if t.waiting_on@.len() == 0 {
        t.title@
    } else {
        t.title@ + " (waiting on: "@ + t.waiting_on@ + ")"@
    }
}

fn body_of(t: &Task) -> (r: String)
    ensures
        r@ == task_body(*t),
{
    let mut out = t.title.clone();
    if !t.waiting_on.as_str().is_empty() {
        out.push_str(" (waiting on: ");
        out.push_str(&t.waiting_on);
        out.push_str(")");
    }
    out
}

/// What is said of the due tasks that are past the grace window, or of those that are
/// not.
pub open spec fn task_messages(list: Seq<Task>, now: i64, past: bool) -> Seq<Seq<char>> {
    let picked = sorting::chosen(
        Seq::new(
            list.len(),
            |i: int| is_due(list[i], now) && is_late(list[i].due_at->Some_0, now) == past,
        ),
    );
    Seq::new(picked.len(), |k: int| task_body(list[picked[k]]))
}

/// What a task sweep announces and stores.
#[derive(Debug)]
pub struct TaskPlan {
    pub notices: Vec<Notice>,
    pub updates: Vec<Task>,
}

/// The sweep over open tasks, run every minute. A task that came due is announced once
/// and stays open.
#[derive(Debug)]
pub struct TaskSweep {
    pub tasks: Vec<Task>,
}

fn bodies(list: &Vec<Task>, now: i64, past: bool) -> (r: Vec<String>)
    ensures
        text::views(r@) == task_messages(list@, now, past),
{
    let ghost want = Seq::new(
        list@.len(),
        |i: int| is_due(list@[i], now) && is_late(list@[i].due_at->Some_0, now) == past,
    );
    let mut flags: Vec<bool> = Vec::new();
    let mut i: usize = 0;
    assert(flags@ =~= want.take(0));
    while i < list.len()
        invariant
            i <= list.len(),
            want == Seq::new(
                list@.len(),
                |i: int| is_due(list@[i], now) && is_late(list@[i].due_at->Some_0, now) == past,
            ),
            flags@ == want.take(i as int),
        decreases list.len() - i,
    {
        let t = &list[i];
        let flag = match t.due_at {
            Some(d) => d <= now && t.due_notified_at.is_none() && late(d, now) == past,
            None => false,
        };
        flags.push(flag);
        i = i + 1;
        assert(flags@ =~= want.take(i as int));
    }
    assert(want.take(i as int) =~= want);
    let picked = sorting::positions(&flags);
    let ghost all = task_messages(list@, now, past);
    let mut out: Vec<String> = Vec::new();
    let mut j: usize = 0;
    assert(text::views(out@) =~= all.take(0));
    while j < picked.len()
        invariant
            j <= picked.len(),
            flags@.len() == list@.len(),
            picked@.len() == sorting::chosen(flags@).len(),
            forall|k: int|
                0 <= k < picked@.len() ==> picked@[k] == #[trigger] sorting::chosen(flags@)[k],
            forall|k: int| 0 <= k < picked@.len() ==> #[trigger] picked@[k] < list@.len(),
            all == Seq::new(
                sorting::chosen(flags@).len(),
                |k: int| task_body(list@[sorting::chosen(flags@)[k]]),
            ),
            text::views(out@) == all.take(j as int),
        decreases picked.len() - j,
    {
        broadcast use text::lemma_views_push;

        assert(picked@[j as int] == sorting::chosen(flags@)[j as int]);
        let body = body_of(&list[picked[j]]);
        let ghost before = text::views(out@);
        out.push(body);
        assert(text::views(out@) == before.push(body@));
        j = j + 1;
        assert(text::views(out@) =~= all.take(j as int));
    }
    assert(all.take(j as int) =~= all);
    out
}

/// A task marked as announced at `now`.
pub open spec fn announced(t: Task, now: i64) -> Task {
    Task { due_notified_at: Some(now), ..t }
}

impl TaskSweep {
    /// What this sweep announces and stores at `now`.
    pub fn run(&self, now: i64) -> (r: TaskPlan)
        ensures
            notices_of(r.notices@) == batch(
                "Komo task due"@,
                task_messages(self.tasks@, now, false),
            ) + batch("Komo (overdue task)"@, task_messages(self.tasks@, now, true)),
            r.updates@.len() == due_tasks(self.tasks@, now).len(),
            forall|k: int|
                0 <= k < r.updates@.len() ==> #[trigger] r.updates@[k] == announced(
                    self.tasks@[due_tasks(self.tasks@, now)[k]],
                    now,
                ),
    {
        let list = &self.tasks;
        let due_now = bodies(list, now, false);
        let overdue = bodies(list, now, true);
        let notices = two_batches("Komo task due", &due_now, "Komo (overdue task)", &overdue);
        let ghost want = Seq::new(list@.len(), |i: int| is_due(list@[i], now));
        let mut flags: Vec<bool> = Vec::new();
        let mut i: usize = 0;
        assert(flags@ =~= want.take(0));
        while i < list.len()
            invariant
                i <= list.len(),
                want == Seq::new(list@.len(), |i: int| is_due(list@[i], now)),
                flags@ == want.take(i as int),
            decreases list.len() - i,
        {
            let t = &list[i];
            let flag = match t.due_at {
                Some(d) => d <= now && t.due_notified_at.is_none(),
                None => false,
            };
            flags.push(flag);
            i = i + 1;
            assert(flags@ =~= want.take(i as int));
        }
        assert(want.take(i as int) =~= want);
        let at = sorting::positions(&flags);
        let mut updates: Vec<Task> = Vec::new();
        let mut j: usize = 0;
        while j < at.len()
            invariant
                j <= at.len(),
                *list == self.tasks,
                at@.len() == due_tasks(list@, now).len(),
                forall|k: int|
                    0 <= k < at@.len() ==> at@[k] == #[trigger] due_tasks(list@, now)[k],
                forall|k: int| 0 <= k < at@.len() ==> #[trigger] at@[k] < list@.len(),
                updates@.len() == j,
                forall|k: int|
                    0 <= k < j ==> #[trigger] updates@[k] == announced(
                        self.tasks@[due_tasks(self.tasks@, now)[k]],
                        now,
                    ),
            decreases at.len() - j,
        {
            assert(at@[j as int] == due_tasks(list@, now)[j as int]);
            let mut t = list[at[j]].clone();
            t.due_notified_at = Some(now);
            updates.push(t);
            j = j + 1;
        }
        TaskPlan { notices, updates }
    }

    /// What the sweep did, where `saved[k]` says whether the `k`-th update was stored.
    pub fn summary(saved: &Vec<bool>) -> (r: MaintenanceSummary)
        ensures
            r == (MaintenanceSummary { tasks_notified: r.tasks_notified, ..idle() }),
            r.tasks_notified == sorting::chosen(saved@).len(),
    {
        let at = sorting::positions(saved);
        let mut r = MaintenanceSummary::default();
        r.tasks_notified = at.len();
        r
    }
}

/// A task is announced at most once: once marked, no later sweep finds it due.
pub proof fn tasks_are_announced_at_most_once(t: Task, now: i64, later: i64)
    requires
        is_due(t, now),
    ensures
        !is_due(announced(t, now), later),
        announced(t, now).status == t.status,
{
}

/// Every due task is announced, in one of the two groups.
pub proof fn due_tasks_are_announced(list: Seq<Task>, now: i64, i: int)
    requires
        0 <= i < list.len(),
        is_due(list[i], now),
    ensures
        task_messages(list, now, is_late(list[i].due_at->Some_0, now)).contains(
            task_body(list[i]),
        ),
        due_tasks(list, now).contains(i),
{
    let past = is_late(list[i].due_at->Some_0, now);
    let want = Seq::new(
        list.len(),
        |i: int| is_due(list[i], now) && is_late(list[i].due_at->Some_0, now) == past,
    );
    sorting::chosen_is_exact(want);
    assert(want[i]);
    let picked = sorting::chosen(want);
    let k = choose|k: int| 0 <= k < picked.len() && picked[k] == i;
    assert(task_messages(list, now, past)[k] == task_body(list[i]));
    let due = Seq::new(list.len(), |i: int| is_due(list[i], now));
    sorting::chosen_is_exact(due);
    assert(due[i]);
}

// ---- Dreaming ----

/// What a dream cycle makes of a memory.
#[derive(Debug, Clone, Copy, PartialEq, Eq, Structural)]
pub enum DreamVerdict {
    /// A candidate that was recalled often enough: lift it into recall.
    Promote,
    /// An old candidate that was never recalled: forget it.
    Archive,
    /// Leave it alone.
    Keep,
}

/// The memory to store under a verdict; none where it is kept as it is. A promotion is
/// proven by use but not confirmed by the user.
pub open spec fn dreamed(m: Memory, verdict: DreamVerdict, now: i64) -> Option<Memory> {
    match verdict {
        DreamVerdict::Promote => Some(
            Memory {
                status: MemoryStatus::Active,
                confidence: MemoryConfidence::Inferred,
                updated_at: now,
                ..m
            },
        ),
        DreamVerdict::Archive => Some(Memory { status: MemoryStatus::Archived, updated_at: now, ..m }),
        DreamVerdict::Keep => None,
    }
}

/// The memory to store under a verdict; none where it is kept as it is.
pub fn dream(m: &Memory, verdict: DreamVerdict, now: i64) -> (r: Option<Memory>)
    ensures
        r == dreamed(*m, verdict, now),
{
    match verdict {
        DreamVerdict::Promote => {
            let mut out = m.clone();
            out.status = MemoryStatus::Active;
            out.confidence = MemoryConfidence::Inferred;
            out.updated_at = now;
            Some(out)
        },
        DreamVerdict::Archive => {
            let mut out = m.clone();
            out.status = MemoryStatus::Archived;
            out.updated_at = now;
            Some(out)
        },
        DreamVerdict::Keep => None,
    }
}

/// Which memories got a verdict and were stored.
pub open spec fn given_flags(
    verdicts: Seq<DreamVerdict>,
    saved: Seq<bool>,
    which: DreamVerdict,
) -> Seq<bool> {
    Seq::new(verdicts.len(), |k: int| verdicts[k] == which && saved[k])
}

/// The positions of the memories that got a verdict and were stored.
pub open spec fn given(verdicts: Seq<DreamVerdict>, saved: Seq<bool>, which: DreamVerdict) -> Seq<
    int,
> {
    sorting::chosen(given_flags(verdicts, saved, which))
}

fn count(verdicts: &Vec<DreamVerdict>, saved: &Vec<bool>, which: DreamVerdict) -> (r: usize)
    requires
        verdicts@.len() == saved@.len(),
    ensures
        r == given(verdicts@, saved@, which).len(),
{
    let ghost want = given_flags(verdicts@, saved@, which);
    let mut flags: Vec<bool> = Vec::new();
    let mut i: usize = 0;
    assert(flags@ =~= want.take(0));
    while i < verdicts.len()
        invariant
            i <= verdicts.len(),
            verdicts@.len() == saved@.len(),
            want == given_flags(verdicts@, saved@, which),
            flags@ == want.take(i as int),
        decreases verdicts.len() - i,
    {
        flags.push(verdicts[i] == which && saved[i]);
        i = i + 1;
        assert(flags@ =~= want.take(i as int));
    }
    assert(want.take(i as int) =~= want);
    assert(flags@ =~= want);
    let at = sorting::positions(&flags);
    at.len()
}

/// The consolidation sweep over memories: usage decides what becomes of a candidate.
#[derive(Debug)]
pub struct DreamSweep {
    pub memories: Vec<Memory>,
}

impl DreamSweep {
    /// What to store under one verdict per memory; none where a memory is kept.
    pub fn apply(&self, verdicts: &Vec<DreamVerdict>, now: i64) -> (r: Vec<Option<Memory>>)
        requires
            verdicts@.len() == self.memories@.len(),
        ensures
            r@ == Seq::new(
                verdicts@.len(),
                |i: int| dreamed(self.memories@[i], verdicts@[i], now),
            ),
    {
        let mut out: Vec<Option<Memory>> = Vec::new();
        let mut i: usize = 0;
        while i < verdicts.len()
            invariant
                i <= verdicts.len(),
                verdicts@.len() == self.memories@.len(),
                out@.len() == i,
                forall|k: int|
                    0 <= k < i ==> #[trigger] out@[k] == dreamed(
                        self.memories@[k],
                        verdicts@[k],
                        now,
                    ),
            decreases verdicts.len() - i,
        {
            out.push(dream(&self.memories[i], verdicts[i], now));
            i = i + 1;
        }
        assert(out@ =~= Seq::new(
            verdicts@.len(),
            |i: int| dreamed(self.memories@[i], verdicts@[i], now),
        ));
        out
    }

    /// What the sweep did, where `saved[k]` says whether the `k`-th memory was stored.
    pub fn summary(verdicts: &Vec<DreamVerdict>, saved: &Vec<bool>) -> (r: MaintenanceSummary)
        requires
            verdicts@.len() == saved@.len(),
        ensures
            r.memories_promoted == given(verdicts@, saved@, DreamVerdict::Promote).len(),
            r.memories_archived == given(verdicts@, saved@, DreamVerdict::Archive).len(),
            r == (MaintenanceSummary {
                memories_promoted: r.memories_promoted,
                memories_archived: r.memories_archived,
                ..idle()
            }),
    {
        let mut r = MaintenanceSummary::default();
        r.memories_promoted = count(verdicts, saved, DreamVerdict::Promote);
        r.memories_archived = count(verdicts, saved, DreamVerdict::Archive);
        r
    }
}

/// Dreaming promotes into recall but never into the profile that every turn sees, and
/// it never pins.
pub proof fn dreaming_never_pins(
    m: Memory,
    verdict: DreamVerdict,
    now: i64,
    scopes: Seq<memory::Scope>,
    at: i64,
)
    ensures
        dreamed(m, verdict, now) matches Some(d) ==> d.pinned == m.pinned && !d.pinnable(
            scopes,
            at,
        ),
{
}

// ---- Reviews and working days ----

/// What a review of sessions gave.
#[derive(Debug, Clone, Copy, PartialEq, Eq, Structural)]
pub struct ReviewReport {
    pub sessions_reviewed: usize,
    pub memories_written: usize,
    pub skills_written: usize,
    pub tasks_captured: usize,
}

/// The review of stored sessions.
#[derive(Debug)]
pub struct ReviewSweep {
    pub review: ReviewReport,
}

impl ReviewSweep {
    /// What the sweep did.
    pub fn run(&self) -> (r: MaintenanceSummary)
        ensures
            r == (MaintenanceSummary {
                sessions_reviewed: self.review.sessions_reviewed,
                memories_written: self.review.memories_written,
                skills_written: self.review.skills_written,
                tasks_captured: self.review.tasks_captured,
                ..idle()
            }),
    {
        let mut r = MaintenanceSummary::default();
        r.sessions_reviewed = self.review.sessions_reviewed;
        r.memories_written = self.review.memories_written;
        r.skills_written = self.review.skills_written;
        r.tasks_captured = self.review.tasks_captured;
        r
    }
}

/// A sweep that only runs on working days: the schedule decides when, the calendar whether
/// the day counts.
#[derive(Debug)]
pub struct WorkdayGated {
    /// Whether today is a working day.
    pub workday: bool,
}

impl WorkdayGated {
    /// Whether the sweep runs today.
    pub fn admits(&self) -> (r: bool)
        ensures
            r == self.workday,
    {
        self.workday
    }

    /// What the gated sweep did, `inner` being what the sweep itself did: nothing on a day
    /// off.
    pub fn run(&self, inner: MaintenanceSummary) -> (r: MaintenanceSummary)
        ensures
            r == if self.workday {
                inner
            } else {
                idle()
            },
    {
        if self.workday {
            inner
        } else {
            MaintenanceSummary::default()
        }
    }
}

// ---- The loop ----

/// Counts a cycle into the consecutive failures and says whether the breaker trips.
pub fn breaker_tripped(consecutive_failures: &mut u32, cycle_ok: bool) -> (r: bool)
    requires
        *old(consecutive_failures) < u32::MAX,
    ensures
        *final(consecutive_failures) == if cycle_ok {
            0
        } else {
            *old(consecutive_failures) + 1
        },
        r == (*final(consecutive_failures) >= MAX_CONSECUTIVE_FAILURES),
{
    if cycle_ok {
        *consecutive_failures = 0;
        false
    } else {
        *consecutive_failures = *consecutive_failures + 1;
        *consecutive_failures >= MAX_CONSECUTIVE_FAILURES
    }
}

/// How many cycles at the end of a history failed back-to-back.
pub open spec fn streak(history: Seq<bool>) -> nat
    decreases history.len(),
{
    if history.len() == 0 || history.last() {
        0
    } else {
        streak(history.drop_last()) + 1
    }
}

/// The loop's memory of how its cycles went.
pub struct Supervisor {
    failures: u32,
    history: Ghost<Seq<bool>>,
}

impl Supervisor {
    /// How the cycles went so far.
    pub closed spec fn cycles(self) -> Seq<bool> {
        self.history@
    }

    #[verifier::type_invariant]
    spec fn well_formed(self) -> bool {
        self.failures == streak(self.history@) && self.failures < MAX_CONSECUTIVE_FAILURES
    }

    /// A loop that has not run yet.
    pub fn new() -> (r: Self)
        ensures
            r.cycles() == Seq::<bool>::empty(),
    {
        Supervisor { failures: 0, history: Ghost(Seq::empty()) }
    }

    /// Counts a cycle: the loop to go on with, or why it stops.
    pub fn supervise(self, cycle_ok: bool) -> (r: Result<Self, String>)
        ensures
            match r {
                Ok(s) => s.cycles() == self.cycles().push(cycle_ok) && streak(s.cycles())
                    < MAX_CONSECUTIVE_FAILURES,
                Err(e) => streak(self.cycles().push(cycle_ok)) == MAX_CONSECUTIVE_FAILURES && e@
                    == "5 consecutive maintenance failures; stopping daemon"@,
            },
    {
        proof {
            use_type_invariant(&self);
            assert(self.cycles().push(cycle_ok).drop_last() =~= self.cycles());
        }
        let mut failures: u32 = self.failures;
        if breaker_tripped(&mut failures, cycle_ok) {
            Err("5 consecutive maintenance failures; stopping daemon".to_owned())
        } else {
            Ok(Supervisor { failures, history: Ghost(self.history@.push(cycle_ok)) })
        }
    }
}

/// A good cycle forgives every failure before it.
pub proof fn success_resets_the_breaker(history: Seq<bool>)
    ensures
        streak(history.push(true)) == 0,
{
}

/// A failure counts one more than the streak it follows, so a breaker that has not
/// tripped trips exactly when the last cycles all failed.
pub proof fn streak_counts_back(history: Seq<bool>, n: nat)
    ensures
        streak(history) >= n <==> n <= history.len() && forall|k: int|
            history.len() - n <= k < history.len() ==> !#[trigger] history[k],
    decreases history.len(),
{
    if n > 0 && history.len() > 0 {
        let short = history.drop_last();
        streak_counts_back(short, (n - 1) as nat);
        if history.last() {
            assert(history[history.len() - 1]);
        } else {
            if n <= history.len() && forall|k: int|
                history.len() - n <= k < history.len() ==> !#[trigger] history[k] {
                assert forall|k: int| short.len() - (n - 1) <= k < short.len() implies
                    !#[trigger] short[k] by {
                    assert(!history[k]);
                }
            }
            if streak(history) >= n {
                assert forall|k: int| history.len() - n <= k < history.len() implies
                    !#[trigger] history[k] by {
                    if k < short.len() {
                        assert(!short[k]);
                    }
                }
            }
        }
    }
}

} // verus!
