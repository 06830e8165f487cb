//! Reminders, one-shot and recurring.
use crate::system;
use crate::text;
use vstd::prelude::*;

verus! {

#[derive(Debug, Clone, Copy, PartialEq, Eq, Structural)]
pub enum ReminderStatus {
    Pending,
    Fired,
    Missed,
    Cancelled,
}

impl ReminderStatus {
    /// The word that stands for it.
    pub open spec fn word(self) -> Seq<char> {
        match self {
            ReminderStatus::Pending => "pending"@,
            ReminderStatus::Fired => "fired"@,
            ReminderStatus::Missed => "missed"@,
            ReminderStatus::Cancelled => "cancelled"@,
        }
    }

    pub fn as_str(&self) -> (r: &'static str)
        ensures
            r@ == self.word(),
    {
        match self {
            ReminderStatus::Pending => "pending",
            ReminderStatus::Fired => "fired",
            ReminderStatus::Missed => "missed",
            ReminderStatus::Cancelled => "cancelled",
        }
    }
}

/// The status that a word names; an unknown word means pending.
pub open spec fn reminder_status_of(word: Seq<char>) -> ReminderStatus {
    if word == "fired"@ {
        ReminderStatus::Fired
    } else if word == "missed"@ {
        ReminderStatus::Missed
    } else if word == "cancelled"@ {
        ReminderStatus::Cancelled
    } else {
        ReminderStatus::Pending
    }
}

/// The status that a word names; an unknown word means pending.
pub fn parse_reminder_status(s: &str) -> (r: ReminderStatus)
    ensures
        r == reminder_status_of(s@),
{
    if text::same(s, "fired") {
        ReminderStatus::Fired
    } else if text::same(s, "missed") {
        ReminderStatus::Missed
    } else if text::same(s, "cancelled") {
        ReminderStatus::Cancelled
    } else {
        ReminderStatus::Pending
    }
}

/// The word for a status parses back to the status.
pub proof fn reminder_status_words_parse_back(s: ReminderStatus)
    ensures
        reminder_status_of(s.word()) == s,
{
    reveal_strlit("pending");
    reveal_strlit("fired");
    reveal_strlit("missed");
    reveal_strlit("cancelled");
    assert("pending"@.len() == 7 && "fired"@.len() == 5 && "missed"@.len() == 6 && "cancelled"@.len()
        == 9);
}

#[derive(Debug)]
pub struct Reminder {
    pub id: String,
    pub message: String,
    pub run_at: i64,
    pub status: ReminderStatus,
    /// Cron expression (local timezone). Empty = one-shot reminder.
    pub schedule: String,
    pub created_at: i64,
}

impl Reminder {
    /// Whether `self` is a fresh pending reminder with some new id.
    pub open spec fn is_fresh(self, message: Seq<char>, run_at: i64, schedule: Seq<char>) -> bool {
        &&& exists|u: Seq<char>| #[trigger]
            system::is_hyphenated(u) && system::is_issued(u) && self.id@ == "rem-"@ + u
        &&& system::clock_reads(self.created_at as int)
        &&& self.message@ == message
        &&& self.run_at == run_at
        &&& self.status == ReminderStatus::Pending
        &&& self.schedule@ == schedule
    }

    /// A one-shot reminder.
    pub fn new(message: String, run_at: i64) -> (r: Self)
        ensures
            r.is_fresh(message@, run_at, Seq::empty()),
    {
        Reminder::recurring(message, run_at, String::new())
    }

    /// A reminder that repeats on a schedule.
    pub fn recurring(message: String, run_at: i64, schedule: String) -> (r: Self)
        ensures
            r.is_fresh(message@, run_at, schedule@),
    {
        let unique = system::issue_id();
        let mut id = "rem-".to_owned();
        id.push_str(&unique);
        assert(system::is_hyphenated(unique@));
        Reminder {
            id,
            message,
            run_at,
            status: ReminderStatus::Pending,
            schedule,
            created_at: system::now(),
        }
    }

    pub fn is_recurring(&self) -> (r: bool)
        ensures
            r == (self.schedule@.len() > 0),
    {
        !self.schedule.as_str().is_empty()
    }
}

} // verus!
