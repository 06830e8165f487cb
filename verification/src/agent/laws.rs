//! What holds of the agent's background work, in terms of what goes in and comes out.
use crate::agent::daemon;
use crate::agent::daemon::{
    DreamSweep, DreamVerdict, MaintenanceSummary, Notice, ReminderPlan, ReminderStep, ReminderSweep, Supervisor,
    TaskPlan, TaskSweep, WorkdayGated,
};
use crate::agent::reviewer;
use crate::agent::reviewer::{
    ReflectiveReviewer, ReviewPlan, ReviewSuggestions,
};
use crate::agent::schedule;
use crate::agent::schedule::next_occurrence_in;
use crate::casing;
use crate::domain::memory;
use crate::domain::memory::{Memory, MemoryConfidence, MemoryKind, MemoryStatus};
use crate::domain::message::{Role, Session};
use crate::domain::reminder::{Reminder, ReminderStatus};
use crate::domain::task::{Task, TaskStatus};
use crate::number;
use crate::sorting;
use crate::text;
use vstd::prelude::*;

verus! {

// ---------------------------------------------------------------------------
// What is learnt from a session
// ---------------------------------------------------------------------------

/// Whether a text speaks of a passing error or of a failure of the environment.
pub open spec fn speaks_of_failure(s: Seq<char>) -> bool {
    let lower = casing::lowercase(s);
    ||| text::has_part(lower, "command not found"@)
    ||| text::has_part(lower, "missing credential"@)
    ||| text::has_part(lower, "package not installed"@)
    ||| text::has_part(lower, "tool is broken"@)
    ||| text::has_part(lower, "tool broke"@)
    ||| text::has_part(lower, "retry fixed"@)
    ||| text::has_part(lower, "transient"@)
}

proof fn lemma_failure_marks(s: Seq<char>)
    ensures
        speaks_of_failure(s) == reviewer::tells_failure(casing::lowercase(s)),
{
    let lower = casing::lowercase(s);
    let m = reviewer::failure_marks();
    assert(m[0] == "command not found"@ && m[1] == "missing credential"@ && m[2]
        == "missing credentials"@ && m[3] == "package not installed"@ && m[4] == "tool is broken"@
        && m[5] == "tool broke"@ && m[6] == "retry fixed"@ && m[7] == "transient"@);
    if text::has_part(lower, "missing credentials"@) {
        reveal_strlit("missing credential");
        reveal_strlit("missing credentials");
        let i = choose|i: int| text::occurs_at(lower, "missing credentials"@, i);
        assert(text::occurs_at(lower, "missing credential"@, i)) by {
            let p = "missing credential"@;
            let q = "missing credentials"@;
            assert(q.take(p.len() as int) =~= p);
            assert(lower.subrange(i, i + p.len()) =~= lower.subrange(i, i + q.len()).take(
                p.len() as int,
            ));
        }
    }
    if speaks_of_failure(s) {
        assert(text::has_part(lower, m[0]) || text::has_part(lower, m[1]) || text::has_part(
            lower,
            m[3],
        ) || text::has_part(lower, m[4]) || text::has_part(lower, m[5]) || text::has_part(
            lower,
            m[6],
        ) || text::has_part(lower, m[7]));
    }
}

proof fn lemma_admitted_reaches(
    keys: Seq<Seq<char>>,
    barred: Seq<bool>,
    held: Seq<Seq<char>>,
    n: int,
    i: int,
) -> (k: int)
    requires
        0 <= i < n <= keys.len(),
        !barred[i],
        !held.contains(keys[i]),
    ensures
        0 <= k < reviewer::admitted(keys, barred, held, n).len(),
        0 <= reviewer::admitted(keys, barred, held, n)[k] <= i,
        keys[reviewer::admitted(keys, barred, held, n)[k]] == keys[i],
    decreases n,
{
    let at = reviewer::admitted(keys, barred, held, n);
    let init = reviewer::admitted(keys, barred, held, n - 1);
    if i < n - 1 {
        let k = lemma_admitted_reaches(keys, barred, held, n - 1, i);
        assert(at[k] == init[k]);
        k
    } else if reviewer::admitted_at(keys, barred, held, i) {
        at.len() - 1
    } else {
        let j = choose|j: int| 0 <= j < i && !barred[j] && #[trigger] keys[j] == keys[i];
        let k = lemma_admitted_reaches(keys, barred, held, n - 1, j);
        assert(at[k] == init[k]);
        k
    }
}

proof fn lemma_held_from(
    all: Seq<Memory>,
    session: Seq<char>,
    scopes: Seq<memory::Scope>,
    n: int,
    key: Seq<char>,
)
    requires
        0 <= n <= all.len(),
        forall|j: int|
            0 <= j < all.len() ==> {
                let m = #[trigger] all[j];
                &&& !(m.status == MemoryStatus::Active && scopes.contains(m.scope@)
                    && reviewer::memory_key_text(m.content@) == key)
                &&& !(m.source@ == session && m.source_message_id@ == key)
            },
    ensures
        !reviewer::held_keys(all, session, scopes, n).contains(key),
    decreases n,
{
    if n > 0 {
        lemma_held_from(all, session, scopes, n - 1, key);
        let m = all[n - 1];
        let init = reviewer::held_keys(all, session, scopes, n - 1);
        let now = reviewer::held_keys(all, session, scopes, n);
        if now.contains(key) {
            let j = choose|j: int| 0 <= j < now.len() && now[j] == key;
            if j < init.len() {
                assert(init[j] == key);
            }
        }
    }
}

/// A suggested memory that speaks of no failure, and that is neither known to the session
/// nor learnt from it before, is written, unless an earlier suggestion has its key: then
/// one with that key is.
pub proof fn new_facts_are_written(
    on_file: &ReflectiveReviewer,
    session: &str,
    suggestions: &Option<ReviewSuggestions>,
    plan: ReviewPlan,
    i: int,
)
    requires
        call_ensures(ReflectiveReviewer::review, (on_file, session, suggestions), plan),
        suggestions is Some,
        0 <= i < suggestions->0.memories@.len(),
        !speaks_of_failure(suggestions->0.memories@[i].content@),
        forall|j: int|
            0 <= j < on_file.memories@.len() ==> {
                let m = #[trigger] on_file.memories@[j];
                let key = reviewer::memory_key_text(suggestions->0.memories@[i].content@);
                &&& !(m.status == MemoryStatus::Active && memory::session_scopes(session@).contains(
                    m.scope@,
                ) && reviewer::memory_key_text(m.content@) == key)
                &&& !(m.source@ == session@ && m.source_message_id@ == key)
            },
    ensures
        exists|k: int, j: int|
            0 <= k < plan.memories@.len() && 0 <= j <= i && (#[trigger] plan.memories@[k]).content@
                == (#[trigger] suggestions->0.memories@[j]).content@ && reviewer::memory_key_text(
                suggestions->0.memories@[j].content@,
            ) == reviewer::memory_key_text(suggestions->0.memories@[i].content@),
{
    let s = suggestions->0.memories@;
    let keys = reviewer::suggested_keys(s);
    let bars = reviewer::suggested_bars(s);
    let scopes = memory::session_scopes(session@);
    let all = on_file.memories@;
    let held = reviewer::held_keys(all, session@, scopes, all.len() as int);
    lemma_failure_marks(s[i].content@);
    lemma_held_from(all, session@, scopes, all.len() as int, keys[i]);
    let k = lemma_admitted_reaches(keys, bars, held, s.len() as int, i);
    let at = reviewer::new_memories(s, session@, all);
    let m = plan.memories@[k];
    assert(reviewer::is_proposed_memory(m, s[at[k]], session@, keys[at[k]]));
    assert(m.content@ == s[at[k]].content@);
}

/// What is written is a candidate that only a person can raise: it has the lowest
/// confidence, is not pinned, is traced to its session and says what was suggested; and it
/// speaks of no failure.
pub proof fn written_facts_are_candidates(
    on_file: &ReflectiveReviewer,
    session: &str,
    suggestions: &Option<ReviewSuggestions>,
    plan: ReviewPlan,
    k: int,
)
    requires
        call_ensures(ReflectiveReviewer::review, (on_file, session, suggestions), plan),
        0 <= k < plan.memories@.len(),
    ensures
        plan.memories@[k].status == MemoryStatus::Candidate,
        plan.memories@[k].confidence == MemoryConfidence::Extracted,
        !plan.memories@[k].pinned,
        plan.memories@[k].expires_at is None,
        plan.memories@[k].recall_count == 0,
        plan.memories@[k].source@ == session@,
        plan.memories@[k].source_message_id@ == reviewer::memory_key_text(
            plan.memories@[k].content@,
        ),
        !speaks_of_failure(plan.memories@[k].content@),
        suggestions is Some,
        exists|i: int|
            0 <= i < suggestions->0.memories@.len() && plan.memories@[k].content@ == (
            #[trigger] suggestions->0.memories@[i]).content@ && (
            suggestions->0.memories@[i].kind is None ==> plan.memories@[k].kind
                == MemoryKind::Fact),
{
    let s = suggestions->0.memories@;
    let keys = reviewer::suggested_keys(s);
    let bars = reviewer::suggested_bars(s);
    let scopes = memory::session_scopes(session@);
    let all = on_file.memories@;
    let held = reviewer::held_keys(all, session@, scopes, all.len() as int);
    let at = reviewer::new_memories(s, session@, all);
    reviewer::admission_never_repeats(keys, bars, held, s.len() as int);
    let i = at[k];
    assert(reviewer::is_proposed_memory(plan.memories@[k], s[i], session@, keys[i]));
    lemma_failure_marks(s[i].content@);
    assert(s[i].content@ == plan.memories@[k].content@);
}

/// A commitment with a title that speaks of no failure, whose key the session has not
/// given before, is captured, unless an earlier one has its key: then that one is.
pub proof fn new_commitments_are_captured(
    on_file: &ReflectiveReviewer,
    session: &str,
    suggestions: &Option<ReviewSuggestions>,
    plan: ReviewPlan,
    i: int,
)
    requires
        call_ensures(ReflectiveReviewer::review, (on_file, session, suggestions), plan),
        suggestions is Some,
        0 <= i < suggestions->0.commitments@.len(),
        text::trimmed(suggestions->0.commitments@[i].title@).len() > 0,
        !speaks_of_failure(text::trimmed(suggestions->0.commitments@[i].title@)),
        forall|j: int|
            0 <= j < on_file.task_keys@.len() ==> (#[trigger] on_file.task_keys@[j])@
                != reviewer::commitment_key_text(
                text::trimmed(suggestions->0.commitments@[i].title@),
            ),
    ensures
        exists|k: int, j: int|
            0 <= k < plan.tasks@.len() && 0 <= j <= i && (#[trigger] plan.tasks@[k]).title@
                == text::trimmed((#[trigger] suggestions->0.commitments@[j]).title@)
                && plan.tasks@[k].source_message_id@ == reviewer::commitment_key_text(
                text::trimmed(suggestions->0.commitments@[i].title@),
            ),
{
    let c = suggestions->0.commitments@;
    let keys = reviewer::commitment_keys(c);
    let bars = reviewer::commitment_bars(c);
    let held = text::views(on_file.task_keys@);
    lemma_failure_marks(text::trimmed(c[i].title@));
    if held.contains(keys[i]) {
        let j = choose|j: int| 0 <= j < held.len() && held[j] == keys[i];
        assert(on_file.task_keys@[j]@ == keys[i]);
    }
    let k = lemma_admitted_reaches(keys, bars, held, c.len() as int, i);
    let at = reviewer::admitted(keys, bars, held, c.len() as int);
    let t = plan.tasks@[k];
    assert(reviewer::is_proposed_task(t, c[at[k]], session@, keys[at[k]]));
    assert(t.title@ == text::trimmed(c[at[k]].title@));
}

/// What is captured waits in the inbox: it is not due, belongs to no board, is traced to
/// its session, and says whom and what it is about as it was suggested.
pub proof fn captured_commitments_wait_in_the_inbox(
    on_file: &ReflectiveReviewer,
    session: &str,
    suggestions: &Option<ReviewSuggestions>,
    plan: ReviewPlan,
    k: int,
)
    requires
        call_ensures(ReflectiveReviewer::review, (on_file, session, suggestions), plan),
        0 <= k < plan.tasks@.len(),
    ensures
        plan.tasks@[k].status == TaskStatus::Inbox,
        plan.tasks@[k].due_at is None,
        plan.tasks@[k].board@.len() == 0,
        plan.tasks@[k].completed_at is None,
        plan.tasks@[k].due_notified_at is None,
        plan.tasks@[k].title@.len() > 0,
        plan.tasks@[k].source@ == session@,
        !speaks_of_failure(plan.tasks@[k].title@),
        suggestions is Some,
        exists|i: int|
            0 <= i < suggestions->0.commitments@.len() && {
                let c = #[trigger] suggestions->0.commitments@[i];
                &&& plan.tasks@[k].title@ == text::trimmed(c.title@)
                &&& c.note is None ==> plan.tasks@[k].note@.len() == 0
                &&& c.note matches Some(n) ==> plan.tasks@[k].note@ == n@
                &&& c.waiting_on is None ==> plan.tasks@[k].waiting_on@.len() == 0
                &&& c.waiting_on matches Some(w) ==> plan.tasks@[k].waiting_on@ == w@
            },
{
    let c = suggestions->0.commitments@;
    let keys = reviewer::commitment_keys(c);
    let bars = reviewer::commitment_bars(c);
    let held = text::views(on_file.task_keys@);
    let at = reviewer::admitted(keys, bars, held, c.len() as int);
    reviewer::admission_never_repeats(keys, bars, held, c.len() as int);
    let i = at[k];
    assert(reviewer::is_proposed_task(plan.tasks@[k], c[i], session@, keys[i]));
    lemma_failure_marks(text::trimmed(c[i].title@));
    assert(c[i].title@ == c[i].title@);
}

/// A suggested skill whose instructions speak of no failure, and whose name no protected
/// skill has, is proposed as suggested; where no description is suggested, the one on file
/// stays.
pub proof fn open_skills_are_proposed(
    on_file: &ReflectiveReviewer,
    session: &str,
    suggestions: &Option<ReviewSuggestions>,
    plan: ReviewPlan,
    i: int,
)
    requires
        call_ensures(ReflectiveReviewer::review, (on_file, session, suggestions), plan),
        suggestions is Some,
        suggestions->0.skills@.len() == on_file.skills@.len(),
        0 <= i < suggestions->0.skills@.len(),
        !speaks_of_failure(suggestions->0.skills@[i].instructions@),
        on_file.skills@[i] matches Some(e) ==> !e.protected,
    ensures
        exists|k: int|
            0 <= k < plan.skills@.len() && {
                let s = suggestions->0.skills@[i];
                let p = #[trigger] plan.skills@[k];
                &&& p.name@ == s.name@
                &&& p.instructions@ == s.instructions@
                &&& s.description matches Some(d) ==> p.description@ == d@
                &&& s.description is None && on_file.skills@[i] is Some ==> p.description@
                    == on_file.skills@[i]->0.description@
                &&& s.description is None && on_file.skills@[i] is None ==> p.description@.len() == 0
                &&& !p.protected
                &&& !p.disabled
                &&& p.source@ == "review"@
            },
{
    let s = suggestions->0.skills@;
    let flags = reviewer::skill_flags(s, on_file.skills@);
    lemma_failure_marks(s[i].instructions@);
    sorting::chosen_is_exact(flags);
    assert(flags[i]);
    let at = sorting::chosen(flags);
    let k = choose|k: int| 0 <= k < at.len() && at[k] == i;
    assert(reviewer::is_proposed_skill(s[at[k]], false, on_file.skills@[at[k]], Some(
        plan.skills@[k],
    )));
}

/// No proposal touches a protected skill, and none speaks of a failure.
pub proof fn proposed_skills_are_open(
    on_file: &ReflectiveReviewer,
    session: &str,
    suggestions: &Option<ReviewSuggestions>,
    plan: ReviewPlan,
    k: int,
)
    requires
        call_ensures(ReflectiveReviewer::review, (on_file, session, suggestions), plan),
        0 <= k < plan.skills@.len(),
    ensures
        suggestions is Some,
        !speaks_of_failure(plan.skills@[k].instructions@),
        exists|i: int|
            0 <= i < suggestions->0.skills@.len() && plan.skills@[k].name@ == (
            #[trigger] suggestions->0.skills@[i]).name@ && (on_file.skills@[i] is None
                || !on_file.skills@[i]->0.protected),
{
    let s = suggestions->0.skills@;
    let flags = reviewer::skill_flags(s, on_file.skills@);
    sorting::chosen_is_exact(flags);
    let at = sorting::chosen(flags);
    let i = at[k];
    assert(flags[i]);
    assert(reviewer::is_proposed_skill(s[at[k]], false, on_file.skills@[at[k]], Some(
        plan.skills@[k],
    )));
    lemma_failure_marks(s[i].instructions@);
}

/// The model that looks a session over is given all that was said in it.
pub proof fn the_whole_session_is_looked_over(session: &Session, now: i64, r: Session, i: int)
    requires
        call_ensures(reviewer::review_session, (session, now), r),
        0 <= i < session.messages@.len(),
    ensures
        r.id@ == "review-"@ + session.id@,
        r.created_at == now,
        r.messages@.len() == 1,
        r.messages@[0].role == Role::User,
        text::has_part(r.messages@[0].content@, session.messages@[i].content@),
{
    let said = session.messages@[i].content@;
    let lines = reviewer::transcript(session.messages@);
    let whole = r.messages@[0].content@;
    let front = crate::domain::reviewer::SELF_REVIEW_PROMPT@ + reviewer::request_text();
    let mid = text::joined(lines, "\n\n"@);
    text::lemma_joined_holds(lines, "\n\n"@, i);
    let lead = session.messages@[i].role.word() + ": "@;
    assert(lines[i] =~= lead + said + Seq::empty());
    text::lemma_part_of_itself(said);
    text::lemma_part_of_part(lines[i], lead, said, Seq::empty(), said);
    text::lemma_part_chain(mid, lines[i], said);
    assert(whole =~= front + mid + Seq::empty());
    text::lemma_part_of_part(whole, front, mid, Seq::empty(), said);
}

/// The document in a reply is what stands in its first fence for JSON; without any fence
/// it is the reply itself; and it always stands in the reply.
pub proof fn documents_stand_in_their_fence(
    reply: &str,
    r: &str,
    front: Seq<char>,
    document: Seq<char>,
    back: Seq<char>,
)
    requires
        call_ensures(reviewer::extract_json, (reply,), r),
    ensures
        !text::has_part(reply@, "```"@) ==> r@ == reply@,
        reply@ == front + "```json"@ + (document + "```"@ + back) && (forall|j: int|
            0 <= j < front.len() ==> !#[trigger] text::occurs_at(reply@, "```json"@, j)) && (
        forall|j: int|
            0 <= j < document.len() ==> !#[trigger] text::occurs_at(
                document + "```"@ + back,
                "```"@,
                j,
            )) ==> r@ == document,
{
    reveal_strlit("```");
    reveal_strlit("```json");
    if !text::has_part(reply@, "```"@) {
        text::lemma_cut(reply@, "```"@);
        text::lemma_cut(reply@, "```json"@);
        if text::cut_at(reply@, "```"@) is Some {
            let sides = text::cut_at(reply@, "```"@)->0;
            text::lemma_part_of_itself("```"@);
            text::lemma_part_of_part(reply@, sides.0, "```"@, sides.1, "```"@);
        }
        if text::cut_at(reply@, "```json"@) is Some {
            let sides = text::cut_at(reply@, "```json"@)->0;
            let long = "```json"@;
            assert(long.subrange(0, 3) =~= "```"@);
            assert(text::occurs_at(long, "```"@, 0));
            text::lemma_part_of_part(reply@, sides.0, long, sides.1, "```"@);
        }
    }
    let rest = document + "```"@ + back;
    if reply@ == front + "```json"@ + rest && (forall|j: int|
        0 <= j < front.len() ==> !#[trigger] text::occurs_at(reply@, "```json"@, j)) && (forall|
        j: int,
    |
        0 <= j < document.len() ==> !#[trigger] text::occurs_at(rest, "```"@, j)) {
        text::lemma_cut_here(reply@, front, "```json"@, rest);
        text::lemma_cut_here(rest, document, "```"@, back);
    }
}

// ---------------------------------------------------------------------------
// What comes due
// ---------------------------------------------------------------------------

/// Whether a list of notices says `message` in one under `title`, or under `title` with a
/// count.
pub open spec fn says(
    notices: Seq<daemon::Notice>,
    title: Seq<char>,
    message: Seq<char>,
) -> bool {
    exists|n: int|
        0 <= n < notices.len() && text::has_prefix((#[trigger] notices[n]).title@, title)
            && text::has_part(notices[n].body@, message)
}

proof fn lemma_batch_says(title: Seq<char>, messages: Seq<Seq<char>>, i: int)
    requires
        0 <= i < messages.len(),
    ensures
        daemon::batch(title, messages).len() == 1,
        text::has_prefix(daemon::batch(title, messages)[0].0, title),
        text::has_part(daemon::batch(title, messages)[0].1, messages[i]),
{
    let b = daemon::batch(title, messages)[0];
    assert(b.0.subrange(0, title.len() as int) =~= title);
    assert(text::occurs_at(b.0, title, 0));
    if messages.len() == 1 {
        assert(b.1.subrange(0, b.1.len() as int) =~= messages[0]);
        assert(text::occurs_at(b.1, messages[i], 0));
    } else {
        let lines = daemon::bulleted(messages);
        text::lemma_joined_holds(lines, "\n"@, i);
        let at = choose|at: int| text::occurs_at(b.1, lines[i], at);
        let lead = "• "@;
        assert(lines[i] == lead + messages[i]);
        assert(lines[i].skip(lead.len() as int) =~= messages[i]);
        let from = at + lead.len();
        assert(b.1.subrange(from, from + messages[i].len()) =~= b.1.subrange(
            at,
            at + lines[i].len(),
        ).skip(lead.len() as int));
        assert(text::occurs_at(b.1, messages[i], from));
    }
}

proof fn lemma_first_says(
    notices: Seq<daemon::Notice>,
    a: Seq<(Seq<char>, Seq<char>)>,
    b: Seq<(Seq<char>, Seq<char>)>,
    title: Seq<char>,
    messages: Seq<Seq<char>>,
    i: int,
)
    requires
        daemon::notices_of(notices) == a + b,
        a == daemon::batch(title, messages) || b == daemon::batch(title, messages),
        0 <= i < messages.len(),
    ensures
        says(notices, title, messages[i]),
{
    lemma_batch_says(title, messages, i);
    let all = daemon::notices_of(notices);
    let n = if a == daemon::batch(title, messages) {
        0
    } else {
        a.len() as int
    };
    assert(all.len() == notices.len() && all.len() == a.len() + b.len());
    assert(all[n] == daemon::batch(title, messages)[0]);
    assert(all[n] == (notices[n].title@, notices[n].body@));
}

/// A reminder that is due is announced with its message, as missed where it came due more
/// than ten minutes ago.
pub proof fn due_reminders_are_said(sweep: &ReminderSweep, now: i64, plan: ReminderPlan, i: int)
    requires
        call_ensures(ReminderSweep::run, (sweep, now), plan),
        0 <= i < sweep.reminders@.len(),
        sweep.reminders@[i].run_at <= now,
    ensures
        now - sweep.reminders@[i].run_at <= 600 ==> says(
            plan.notices@,
            "Komo reminder"@,
            sweep.reminders@[i].message@,
        ),
        now - sweep.reminders@[i].run_at > 600 ==> says(
            plan.notices@,
            "Komo (missed reminder)"@,
            sweep.reminders@[i].message@,
        ),
{
    let list = sweep.reminders@;
    let past = daemon::is_late(list[i].run_at, now);
    daemon::due_reminders_are_announced(list, now, i);
    let said = daemon::due_messages(list, now, past);
    let k = choose|k: int| 0 <= k < said.len() && said[k] == list[i].message@;
    let a = daemon::batch("Komo reminder"@, daemon::due_messages(list, now, false));
    let b = daemon::batch("Komo (missed reminder)"@, daemon::due_messages(list, now, true));
    if past {
        lemma_first_says(plan.notices@, a, b, "Komo (missed reminder)"@, said, k);
    } else {
        lemma_first_says(plan.notices@, a, b, "Komo reminder"@, said, k);
    }
}

/// Whether `step` settles a due reminder that does not recur: fired within ten minutes of
/// its time, missed after that.
pub open spec fn settles_once(r: Reminder, now: i64, step: ReminderStep) -> bool {
    &&& now - r.run_at <= 600 ==> step == ReminderStep::Mark(ReminderStatus::Fired)
    &&& now - r.run_at > 600 ==> step == ReminderStep::Mark(ReminderStatus::Missed)
}

/// A reminder that is due is settled: one that does not recur is fired or missed, and one
/// that recurs moves to a later time or is missed.
pub proof fn due_reminders_are_stored(sweep: &ReminderSweep, now: i64, plan: ReminderPlan, i: int)
    requires
        call_ensures(ReminderSweep::run, (sweep, now), plan),
        0 <= i < sweep.reminders@.len(),
        sweep.reminders@[i].run_at <= now,
    ensures
        exists|k: int|
            0 <= k < plan.updates@.len() && {
                let u = #[trigger] plan.updates@[k];
                &&& u.id@ == sweep.reminders@[i].id@
                &&& sweep.reminders@[i].schedule@.len() == 0 ==> settles_once(
                    sweep.reminders@[i],
                    now,
                    u.step,
                )
                &&& sweep.reminders@[i].schedule@.len() > 0 ==> match u.step {
                    ReminderStep::Reschedule(t) => t > now,
                    ReminderStep::Mark(status) => status == ReminderStatus::Missed,
                }
            },
{
    let list = sweep.reminders@;
    let flags = Seq::new(list.len(), |i: int| list[i].run_at <= now);
    sorting::chosen_is_exact(flags);
    assert(flags[i]);
    let at = daemon::due_reminders(list, now);
    let k = choose|k: int| 0 <= k < at.len() && at[k] == i;
    assert(plan.updates@[k].id@ == list[at[k]].id@);
    assert(daemon::is_step(list[i], now, plan.updates@[k].step));
}

/// What a sweep stores belongs to a reminder that was due; one that is not due yet stays
/// as it is.
pub proof fn only_due_reminders_are_stored(
    sweep: &ReminderSweep,
    now: i64,
    plan: ReminderPlan,
    k: int,
)
    requires
        call_ensures(ReminderSweep::run, (sweep, now), plan),
        0 <= k < plan.updates@.len(),
    ensures
        exists|i: int|
            0 <= i < sweep.reminders@.len() && (#[trigger] sweep.reminders@[i]).run_at <= now
                && sweep.reminders@[i].id@ == plan.updates@[k].id@,
{
    let list = sweep.reminders@;
    let flags = Seq::new(list.len(), |i: int| list[i].run_at <= now);
    sorting::chosen_is_exact(flags);
    let i = daemon::due_reminders(list, now)[k];
    assert(flags[i]);
    assert(list[i].id@ == plan.updates@[k].id@);
}

/// On a machine whose wall clock stays a fixed number of seconds ahead of UTC, a recurring
/// reminder moves to what a search on that offset finds after the sweep's time, and is
/// missed where that search finds nothing.
pub proof fn recurring_reminders_take_the_next_slot(
    sweep: &ReminderSweep,
    now: i64,
    plan: ReminderPlan,
    k: int,
    expr: &str,
    offset: i32,
    found: Result<i64, String>,
)
    requires
        call_ensures(ReminderSweep::run, (sweep, now), plan),
        0 <= k < plan.updates@.len(),
        forall|i: int|
            0 <= i < sweep.reminders@.len() && (#[trigger] sweep.reminders@[i]).id@
                == plan.updates@[k].id@ ==> sweep.reminders@[i].schedule@ == expr@,
        expr@.len() > 0,
        schedule::is_civil(now as int),
        schedule::is_fixed_clock(offset as int),
        call_ensures(next_occurrence_in, (expr, now, offset), found),
    ensures
        found matches Ok(t) ==> plan.updates@[k].step == ReminderStep::Reschedule(t),
        found is Err ==> plan.updates@[k].step == ReminderStep::Mark(ReminderStatus::Missed),
{
    only_due_reminders_are_stored(sweep, now, plan, k);
    let list = sweep.reminders@;
    let flags = Seq::new(list.len(), |i: int| list[i].run_at <= now);
    sorting::chosen_is_exact(flags);
    let i = daemon::due_reminders(list, now)[k];
    assert(flags[i]);
    let it = list[i];
    assert(it.id@ == plan.updates@[k].id@);
    let step = plan.updates@[k].step;
    assert(daemon::is_step(it, now, step));
    let next = choose|next: Option<i64>| #[trigger]
        daemon::is_next_slot(it.schedule@, now, next) && step == daemon::step_of(it, now, next);
    let local = choose|local: Result<i64, String>| #[trigger]
        schedule::is_local_search(it.schedule@, now as int, local) && next == match local {
            Ok(t) => Some(t),
            Err(_) => None,
        };
    assert(schedule::is_local_search(expr@, now as int, local));
}

/// With nothing due, nothing is announced and nothing stored.
pub proof fn quiet_sweeps_do_nothing(sweep: &ReminderSweep, now: i64, plan: ReminderPlan)
    requires
        call_ensures(ReminderSweep::run, (sweep, now), plan),
        forall|i: int|
            0 <= i < sweep.reminders@.len() ==> (#[trigger] sweep.reminders@[i]).run_at > now,
    ensures
        plan.notices@.len() == 0,
        plan.updates@.len() == 0,
{
    let list = sweep.reminders@;
    let flags = Seq::new(list.len(), |i: int| list[i].run_at <= now);
    sorting::chosen_is_exact(flags);
    let at = daemon::due_reminders(list, now);
    if at.len() > 0 {
        assert(flags[at[0]]);
        assert(list[at[0]].run_at > now);
    }
    assert(daemon::due_messages(list, now, false).len() == 0) by {
        sorting::chosen_is_exact(
            Seq::new(at.len(), |k: int| daemon::is_late(list[at[k]].run_at, now) == false),
        );
    }
    assert(daemon::due_messages(list, now, true).len() == 0) by {
        sorting::chosen_is_exact(
            Seq::new(at.len(), |k: int| daemon::is_late(list[at[k]].run_at, now) == true),
        );
    }
    assert(daemon::notices_of(plan.notices@).len() == 0);
}

/// Whether a task is due and nobody was told yet.
pub open spec fn awaits_notice(t: Task, now: i64) -> bool {
    t.due_at is Some && t.due_at->0 <= now && t.due_notified_at is None
}

/// A task that is due is announced once, by its title and with whom it waits on, and as
/// overdue where it came due more than ten minutes ago; it is stored as announced at that
/// time and otherwise as it was.
pub proof fn due_tasks_are_said(sweep: &TaskSweep, now: i64, plan: TaskPlan, i: int)
    requires
        call_ensures(TaskSweep::run, (sweep, now), plan),
        0 <= i < sweep.tasks@.len(),
        awaits_notice(sweep.tasks@[i], now),
    ensures
        sweep.tasks@[i].waiting_on@.len() == 0 && now - sweep.tasks@[i].due_at->0 <= 600 ==> says(
            plan.notices@,
            "Komo task due"@,
            sweep.tasks@[i].title@,
        ),
        sweep.tasks@[i].waiting_on@.len() == 0 && now - sweep.tasks@[i].due_at->0 > 600 ==> says(
            plan.notices@,
            "Komo (overdue task)"@,
            sweep.tasks@[i].title@,
        ),
        sweep.tasks@[i].waiting_on@.len() > 0 && now - sweep.tasks@[i].due_at->0 <= 600 ==> says(
            plan.notices@,
            "Komo task due"@,
            sweep.tasks@[i].title@ + " (waiting on: "@ + sweep.tasks@[i].waiting_on@ + ")"@,
        ),
        sweep.tasks@[i].waiting_on@.len() > 0 && now - sweep.tasks@[i].due_at->0 > 600 ==> says(
            plan.notices@,
            "Komo (overdue task)"@,
            sweep.tasks@[i].title@ + " (waiting on: "@ + sweep.tasks@[i].waiting_on@ + ")"@,
        ),
        plan.updates@.contains(Task { due_notified_at: Some(now), ..sweep.tasks@[i] }),
{
    let list = sweep.tasks@;
    let past = daemon::is_late(list[i].due_at->0, now);
    daemon::due_tasks_are_announced(list, now, i);
    let said = daemon::task_messages(list, now, past);
    let k = choose|k: int| 0 <= k < said.len() && said[k] == daemon::task_body(list[i]);
    let a = daemon::batch("Komo task due"@, daemon::task_messages(list, now, false));
    let b = daemon::batch("Komo (overdue task)"@, daemon::task_messages(list, now, true));
    if past {
        lemma_first_says(plan.notices@, a, b, "Komo (overdue task)"@, said, k);
    } else {
        lemma_first_says(plan.notices@, a, b, "Komo task due"@, said, k);
    }
    let at = daemon::due_tasks(list, now);
    let n = choose|n: int| 0 <= n < at.len() && at[n] == i;
    assert(plan.updates@[n] == daemon::announced(list[i], now));
}

/// What a sweep stores is a due task, announced now and otherwise as it was.
pub proof fn only_due_tasks_are_stored(sweep: &TaskSweep, now: i64, plan: TaskPlan, k: int)
    requires
        call_ensures(TaskSweep::run, (sweep, now), plan),
        0 <= k < plan.updates@.len(),
    ensures
        exists|i: int|
            0 <= i < sweep.tasks@.len() && awaits_notice(#[trigger] sweep.tasks@[i], now)
                && plan.updates@[k] == (Task { due_notified_at: Some(now), ..sweep.tasks@[i] }),
{
    let list = sweep.tasks@;
    let flags = Seq::new(list.len(), |i: int| daemon::is_due(list[i], now));
    sorting::chosen_is_exact(flags);
    let i = daemon::due_tasks(list, now)[k];
    assert(flags[i]);
    assert(plan.updates@[k] == daemon::announced(list[i], now));
}

/// How many of the flags are set.
pub open spec fn tally(flags: Seq<bool>) -> nat
    decreases flags.len(),
{
    if flags.len() == 0 {
        0
    } else {
        tally(flags.drop_last()) + if flags.last() {
            1nat
        } else {
            0
        }
    }
}

proof fn lemma_tally(flags: Seq<bool>)
    ensures
        tally(flags) == sorting::chosen(flags).len(),
    decreases flags.len(),
{
    if flags.len() > 0 {
        lemma_tally(flags.drop_last());
    }
}

/// A reminder counts as fired where its update was stored and either moves it on or marks
/// it fired; missed ones do not count.
pub proof fn fired_reminders_are_counted(plan: &ReminderPlan, saved: &Vec<bool>, r: MaintenanceSummary)
    requires
        call_ensures(ReminderSweep::summary, (plan, saved), r),
        saved@.len() == plan.updates@.len(),
    ensures
        r.reminders_fired == tally(
            Seq::new(
                saved@.len(),
                |k: int|
                    saved@[k] && match plan.updates@[k].step {
                        ReminderStep::Reschedule(_) => true,
                        ReminderStep::Mark(status) => status == ReminderStatus::Fired,
                    },
            ),
        ),
        r.tasks_notified == 0,
        r.memories_promoted == 0,
        r.memories_archived == 0,
{
    let mine = Seq::new(
        saved@.len(),
        |k: int|
            saved@[k] && match plan.updates@[k].step {
                ReminderStep::Reschedule(_) => true,
                ReminderStep::Mark(status) => status == ReminderStatus::Fired,
            },
    );
    lemma_tally(mine);
    assert(mine =~= Seq::new(
        saved@.len(),
        |k: int| saved@[k] && daemon::fires(plan.updates@[k].step),
    ));
}

/// What dreaming stores: a promoted memory becomes active, on its own inference; an
/// archived one keeps its confidence; both are stamped and otherwise as they were. A kept
/// one is not stored.
pub proof fn dreams_change_the_standing_alone(
    m: &Memory,
    verdict: DreamVerdict,
    now: i64,
    r: Option<Memory>,
)
    requires
        call_ensures(daemon::dream, (m, verdict, now), r),
    ensures
        verdict == DreamVerdict::Keep <==> r is None,
        r matches Some(d) ==> {
            &&& d.content == m.content && d.id == m.id && d.kind == m.kind && d.scope == m.scope
            &&& d.pinned == m.pinned && d.importance == m.importance && d.source == m.source
            &&& d.created_at == m.created_at && d.expires_at == m.expires_at
            &&& d.recall_count == m.recall_count && d.updated_at == now
            &&& verdict == DreamVerdict::Promote ==> d.status == MemoryStatus::Active
                && d.confidence == MemoryConfidence::Inferred
            &&& verdict == DreamVerdict::Archive ==> d.status == MemoryStatus::Archived
                && d.confidence == m.confidence
        },
{
}

/// The loop stops exactly where five cycles in a row have failed.
pub proof fn five_failures_in_a_row_stop_the_loop(
    s: Supervisor,
    cycle_ok: bool,
    r: Result<Supervisor, String>,
)
    requires
        call_ensures(Supervisor::supervise, (s, cycle_ok), r),
    ensures
        r is Err <==> {
            let h = s.cycles().push(cycle_ok);
            h.len() >= 5 && forall|k: int| h.len() - 5 <= k < h.len() ==> !#[trigger] h[k]
        },
        r matches Ok(next) ==> next.cycles() == s.cycles().push(cycle_ok),
{
    let h = s.cycles().push(cycle_ok);
    daemon::streak_counts_back(h, 5);
}

/// On a day off a gated sweep does nothing; on a working day it does what the sweep does.
pub proof fn days_off_do_nothing(
    gate: &WorkdayGated,
    inner: MaintenanceSummary,
    r: MaintenanceSummary,
    admitted: bool,
)
    requires
        call_ensures(WorkdayGated::run, (gate, inner), r),
        call_ensures(WorkdayGated::admits, (gate,), admitted),
    ensures
        gate.workday ==> r == inner && admitted,
        !gate.workday ==> !admitted && r.briefings_sent == 0 && r.reminders_fired == 0
            && r.tasks_notified == 0 && r.sessions_reviewed == 0 && r.memories_written == 0
            && r.skills_written == 0 && r.tasks_captured == 0 && r.memories_promoted == 0
            && r.memories_archived == 0,
{
}

/// A batch of messages goes out as one notice under its title: a single message as it is,
/// several with their number in the title, each in the body. Without messages there is no
/// notice.
pub proof fn batches_carry_every_message(title: &str, messages: &Vec<String>, r: Option<Notice>)
    requires
        call_ensures(daemon::notify_batch, (title, messages), r),
    ensures
        r is None <==> messages@.len() == 0,
        messages@.len() == 1 ==> r->0.title@ == title@ && r->0.body@ == messages@[0]@,
        messages@.len() > 1 ==> {
            &&& text::has_prefix(r->0.title@, title@)
            &&& text::has_part(r->0.title@, number::decimal(messages@.len()))
            &&& forall|i: int|
                0 <= i < messages@.len() ==> text::has_part(
                    r->0.body@,
                    "• "@ + (#[trigger] messages@[i])@,
                )
        },
{
    let m = text::views(messages@);
    let out = daemon::batch(title@, m);
    if let Some(n) = r {
        assert(out == seq![(n.title@, n.body@)]);
        assert(out[0] == (n.title@, n.body@));
        if messages@.len() == 1 {
            assert(out[0] == (title@, m[0]));
        } else {
            let count = number::decimal(m.len());
            let t = title@ + " ("@ + count + " items)"@;
            assert(out[0].0 == t);
            assert(t.subrange(0, title@.len() as int) =~= title@);
            text::lemma_part_of_itself(count);
            text::lemma_part_of_part(t, title@ + " ("@, count, " items)"@, count);
            let b = daemon::bulleted(m);
            assert forall|i: int| 0 <= i < messages@.len() implies text::has_part(
                n.body@,
                "• "@ + (#[trigger] messages@[i])@,
            ) by {
                assert(m[i] == messages@[i]@);
                assert(b[i] == "• "@ + messages@[i]@);
                text::lemma_joined_holds(b, "\n"@, i);
            }
        }
    }
}

/// A memory counts as promoted or archived where that was decided of it and it was stored.
pub proof fn dreams_are_counted(
    verdicts: &Vec<DreamVerdict>,
    saved: &Vec<bool>,
    r: MaintenanceSummary,
)
    requires
        call_ensures(DreamSweep::summary, (verdicts, saved), r),
        verdicts@.len() == saved@.len(),
    ensures
        r.memories_promoted == tally(
            Seq::new(saved@.len(), |k: int| saved@[k] && verdicts@[k] == DreamVerdict::Promote),
        ),
        r.memories_archived == tally(
            Seq::new(saved@.len(), |k: int| saved@[k] && verdicts@[k] == DreamVerdict::Archive),
        ),
        r.reminders_fired == 0,
        r.tasks_notified == 0,
{
    let up = Seq::new(saved@.len(), |k: int| saved@[k] && verdicts@[k] == DreamVerdict::Promote);
    let down = Seq::new(saved@.len(), |k: int| saved@[k] && verdicts@[k] == DreamVerdict::Archive);
    lemma_tally(up);
    lemma_tally(down);
    assert(up =~= daemon::given_flags(verdicts@, saved@, DreamVerdict::Promote));
    assert(down =~= daemon::given_flags(verdicts@, saved@, DreamVerdict::Archive));
}

} // verus!
