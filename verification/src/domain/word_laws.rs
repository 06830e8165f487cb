//! The words by which things are stored, and what reading them back gives.
use crate::domain::memory;
use crate::domain::memory::{MemoryConfidence, MemoryKind, MemoryStatus};
use crate::domain::message::Role;
use crate::domain::pairing;
use crate::domain::pairing::PairingStatus;
use crate::domain::reminder;
use crate::domain::reminder::ReminderStatus;
use crate::domain::run;
use crate::domain::run::RunStatus;
use crate::domain::task;
use crate::domain::task::TaskStatus;
use crate::text;
use vstd::prelude::*;

verus! {

/// A kind of memory is stored by its own word and read back as itself.
pub proof fn kinds_are_stored_by_their_words(k: &MemoryKind, w: &'static str, r: MemoryKind)
    requires
        call_ensures(MemoryKind::as_str, (k,), w),
        call_ensures(memory::parse_memory_kind, (w,), r),
    ensures
        r == *k,
        *k == MemoryKind::Profile <==> w@ == "profile"@,
        *k == MemoryKind::Preference <==> w@ == "preference"@,
        *k == MemoryKind::Feedback <==> w@ == "feedback"@,
        *k == MemoryKind::Project <==> w@ == "project"@,
        *k == MemoryKind::Person <==> w@ == "person"@,
        *k == MemoryKind::Fact <==> w@ == "fact"@,
        *k == MemoryKind::Decision <==> w@ == "decision"@,
        *k == MemoryKind::Reference <==> w@ == "reference"@,
{
    reveal_strlit("profile");
    reveal_strlit("preference");
    reveal_strlit("feedback");
    reveal_strlit("project");
    reveal_strlit("person");
    reveal_strlit("fact");
    reveal_strlit("decision");
    reveal_strlit("reference");
    assert("profile"@.len() == 7 && "preference"@.len() == 10 && "feedback"@.len() == 8
        && "project"@.len() == 7 && "person"@.len() == 6 && "fact"@.len() == 4
        && "decision"@.len() == 8 && "reference"@.len() == 9);
    assert("profile"@[3] == 'f' && "project"@[3] == 'j');
    assert("feedback"@[0] == 'f' && "decision"@[0] == 'd');
    text::lemma_trim_none(w@);
    memory::kind_words_parse_back(*k);
}

/// A memory's status and confidence are stored by their own words and read back as
/// themselves.
pub proof fn standings_are_stored_by_their_words(
    s: &MemoryStatus,
    c: &MemoryConfidence,
    w: &'static str,
    v: &'static str,
    r: MemoryStatus,
    q: MemoryConfidence,
)
    requires
        call_ensures(MemoryStatus::as_str, (s,), w),
        call_ensures(memory::parse_memory_status, (w,), r),
        call_ensures(MemoryConfidence::as_str, (c,), v),
        call_ensures(memory::parse_memory_confidence, (v,), q),
    ensures
        r == *s,
        q == *c,
        *s == MemoryStatus::Candidate ==> w@ == "candidate"@,
        *s == MemoryStatus::Active ==> w@ == "active"@,
        *s == MemoryStatus::Archived ==> w@ == "archived"@,
        *s == MemoryStatus::Rejected ==> w@ == "rejected"@,
        *c == MemoryConfidence::Extracted ==> v@ == "extracted"@,
        *c == MemoryConfidence::Inferred ==> v@ == "inferred"@,
        *c == MemoryConfidence::Confirmed ==> v@ == "confirmed"@,
        *c == MemoryConfidence::UserWritten ==> v@ == "user_written"@,
{
    reveal_strlit("candidate");
    reveal_strlit("active");
    reveal_strlit("archived");
    reveal_strlit("rejected");
    reveal_strlit("extracted");
    reveal_strlit("inferred");
    reveal_strlit("confirmed");
    reveal_strlit("user_written");
    text::lemma_trim_none(w@);
    text::lemma_trim_none(v@);
    memory::status_words_parse_back(*s);
    memory::confidence_words_parse_back(*c);
}

/// The states of tasks, reminders, runs, jobs and pairings are stored by their own words
/// and read back as themselves.
pub proof fn states_are_stored_by_their_words(
    t: &TaskStatus,
    m: &ReminderStatus,
    u: &RunStatus,
    p: &PairingStatus,
    tw: &'static str,
    mw: &'static str,
    uw: &'static str,
    pw: &'static str,
    tr: Result<TaskStatus, String>,
    mr: ReminderStatus,
    ur: Result<RunStatus, String>,
    pr: PairingStatus,
)
    requires
        call_ensures(TaskStatus::as_str, (t,), tw),
        call_ensures(task::parse_task_status, (tw,), tr),
        call_ensures(ReminderStatus::as_str, (m,), mw),
        call_ensures(reminder::parse_reminder_status, (mw,), mr),
        call_ensures(RunStatus::as_str, (u,), uw),
        call_ensures(run::parse_run_status, (uw,), ur),
        call_ensures(PairingStatus::as_str, (p,), pw),
        call_ensures(pairing::parse_pairing_status, (pw,), pr),
    ensures
        tr is Ok && tr->Ok_0 == *t,
        mr == *m,
        ur is Ok && ur->Ok_0 == *u,
        pr == *p,
        *t == TaskStatus::Inbox ==> tw@ == "inbox"@,
        *t == TaskStatus::Todo ==> tw@ == "todo"@,
        *t == TaskStatus::Waiting ==> tw@ == "waiting"@,
        *t == TaskStatus::Done ==> tw@ == "done"@,
        *t == TaskStatus::Cancelled ==> tw@ == "cancelled"@,
        *m == ReminderStatus::Pending ==> mw@ == "pending"@,
        *m == ReminderStatus::Fired ==> mw@ == "fired"@,
        *m == ReminderStatus::Missed ==> mw@ == "missed"@,
        *m == ReminderStatus::Cancelled ==> mw@ == "cancelled"@,
        *u == RunStatus::Running ==> uw@ == "running"@,
        *u == RunStatus::Done ==> uw@ == "done"@,
        *u == RunStatus::Failed ==> uw@ == "failed"@,
        *p == PairingStatus::Pending ==> pw@ == "pending"@,
        *p == PairingStatus::Approved ==> pw@ == "approved"@,
{
    task::task_status_words_parse_back(*t);
    reminder::reminder_status_words_parse_back(*m);
    run::run_status_words_parse_back(*u);
    pairing::pairing_status_words_parse_back(*p);
}

/// A message goes by the word of who said it.
pub proof fn roles_have_their_words(a: &Role, w: &'static str)
    requires
        call_ensures(Role::as_str, (a,), w),
    ensures
        *a == Role::System ==> w@ == "system"@,
        *a == Role::User ==> w@ == "user"@,
        *a == Role::Assistant ==> w@ == "assistant"@,
        *a == Role::Tool ==> w@ == "tool"@,
{
}

/// An unknown word for a pairing or a reminder is the one that grants nothing: pending.
pub proof fn unknown_words_grant_nothing(s: &str, p: PairingStatus, m: ReminderStatus)
    requires
        call_ensures(pairing::parse_pairing_status, (s,), p),
        call_ensures(reminder::parse_reminder_status, (s,), m),
    ensures
        s@ != "approved"@ ==> p == PairingStatus::Pending,
        s@ != "fired"@ && s@ != "missed"@ && s@ != "cancelled"@ ==> m == ReminderStatus::Pending,
{
}

} // verus!
