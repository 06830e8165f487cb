//! Durable cross-session tasks: inbox items, to-dos and commitments.
use crate::number;
use crate::system;
use crate::text;
use vstd::prelude::*;

verus! {

#[derive(Debug, Clone, Copy, PartialEq, Eq, Structural)]
pub enum TaskStatus {
    /// Captured but not yet triaged.
    Inbox,
    Todo,
    /// Blocked on someone or something external.
    Waiting,
    Done,
    Cancelled,
}

impl TaskStatus {
    /// The word that stands for it.
    pub open spec fn word(self) -> Seq<char> {
        match self {
            TaskStatus::Inbox => "inbox"@,
            TaskStatus::Todo => "todo"@,
            TaskStatus::Waiting => "waiting"@,
            TaskStatus::Done => "done"@,
            TaskStatus::Cancelled => "cancelled"@,
        }
    }

    pub fn as_str(&self) -> (r: &'static str)
        ensures
            r@ == self.word(),
    {
        match self {
            TaskStatus::Inbox => "inbox",
            TaskStatus::Todo => "todo",
            TaskStatus::Waiting => "waiting",
            TaskStatus::Done => "done",
            TaskStatus::Cancelled => "cancelled",
        }
    }

    /// Open = still actionable.
    pub open spec fn open_spec(self) -> bool {
        self == TaskStatus::Inbox || self == TaskStatus::Todo || self == TaskStatus::Waiting
    }

    /// Open = still actionable (shows up in lists and the due sweep).
    pub fn is_open(&self) -> (r: bool)
        ensures
            r == self.open_spec(),
    {
        match self {
            TaskStatus::Inbox | TaskStatus::Todo | TaskStatus::Waiting => true,
            TaskStatus::Done | TaskStatus::Cancelled => false,
        }
    }
}

/// The status that a word names.
pub open spec fn task_status_of(word: Seq<char>) -> Option<TaskStatus> {
    if word == "inbox"@ {
        Some(TaskStatus::Inbox)
    } else if word == "todo"@ {
        Some(TaskStatus::Todo)
    } else if word == "waiting"@ {
        Some(TaskStatus::Waiting)
    } else if word == "done"@ {
        Some(TaskStatus::Done)
    } else if word == "cancelled"@ {
        Some(TaskStatus::Cancelled)
    } else {
        None
    }
}

/// The status that a word names, or what is wrong with the word.
pub fn parse_task_status(s: &str) -> (r: Result<TaskStatus, String>)
    ensures
        match r {
            Ok(status) => task_status_of(s@) == Some(status),
            Err(m) => task_status_of(s@) is None && m@ == "unknown task status `"@ + s@
                + "` (expected inbox/todo/waiting/done/cancelled)"@,
        },
{
    if text::same(s, "inbox") {
        Ok(TaskStatus::Inbox)
    } else if text::same(s, "todo") {
        Ok(TaskStatus::Todo)
    } else if text::same(s, "waiting") {
        Ok(TaskStatus::Waiting)
    } else if text::same(s, "done") {
        Ok(TaskStatus::Done)
    } else if text::same(s, "cancelled") {
        Ok(TaskStatus::Cancelled)
    } else {
        let mut m = "unknown task status `".to_owned();
        m.push_str(s);
        m.push_str("` (expected inbox/todo/waiting/done/cancelled)");
        Err(m)
    }
}

/// The word for a status parses back to the status.
pub proof fn task_status_words_parse_back(s: TaskStatus)
    ensures
        task_status_of(s.word()) == Some(s),
{
    reveal_strlit("inbox");
    reveal_strlit("todo");
    reveal_strlit("waiting");
    reveal_strlit("done");
    reveal_strlit("cancelled");
    assert("inbox"@.len() == 5 && "todo"@.len() == 4 && "waiting"@.len() == 7 && "done"@.len() == 4
        && "cancelled"@.len() == 9);
    assert("todo"@[0] == 't' && "done"@[0] == 'd');
}

#[derive(Debug)]
pub struct Task {
    pub id: String,
    pub title: String,
    /// Free-form details. Empty = none.
    pub note: String,
    pub status: TaskStatus,
    /// Who this is waiting on or promised to. Empty = nobody.
    pub waiting_on: String,
    pub due_at: Option<i64>,
    /// Session id it came from. Empty = captured outside any session.
    pub source: String,
    /// Dedup key for automated extraction; empty for manual captures.
    pub source_message_id: String,
    /// Optional grouping label. Empty = the default board.
    pub board: String,
    /// When the due notification went out (at-most-once delivery guard).
    pub due_notified_at: Option<i64>,
    pub created_at: i64,
    pub completed_at: Option<i64>,
}

impl Clone for Task {
    fn clone(&self) -> (r: Self)
        ensures
            r == *self,
    {
        Task {
            id: self.id.clone(),
            title: self.title.clone(),
            note: self.note.clone(),
            status: self.status,
            waiting_on: self.waiting_on.clone(),
            due_at: self.due_at,
            source: self.source.clone(),
            source_message_id: self.source_message_id.clone(),
            board: self.board.clone(),
            due_notified_at: self.due_notified_at,
            created_at: self.created_at,
            completed_at: self.completed_at,
        }
    }
}

impl Task {
    /// Whether `self` is a fresh inbox task made at `now` with the clock at
    /// `nanos`.
    pub open spec fn is_fresh(self, title: Seq<char>, now: i64, nanos: int) -> bool {
        &&& self.id@ == "task-"@ + number::signed(nanos)
        &&& self.title@ == title
        &&& self.note@.len() == 0
        &&& self.status == TaskStatus::Inbox
        &&& self.waiting_on@.len() == 0
        &&& self.due_at is None
        &&& self.source@.len() == 0
        &&& self.source_message_id@.len() == 0
        &&& self.board@.len() == 0
        &&& self.due_notified_at is None
        &&& self.created_at == now
        &&& self.completed_at is None
    }

    /// A new inbox task at the given time.
    pub fn at(title: String, now: i64, nanos: i128) -> (r: Self)
        ensures
            r.is_fresh(title@, now, nanos as int),
    {
        let mut id = "task-".to_owned();
        id.push_str(&number::write_wide(nanos));
        Task {
            id,
            title,
            note: String::new(),
            status: TaskStatus::Inbox,
            waiting_on: String::new(),
            due_at: None,
            source: String::new(),
            source_message_id: String::new(),
            board: String::new(),
            due_notified_at: None,
            created_at: now,
            completed_at: None,
        }
    }

    /// A new inbox task.
    pub fn new(title: String) -> (r: Self)
        ensures
            exists|now: i64, nanos: int| #[trigger]
                r.is_fresh(title@, now, nanos) && system::clock_reads(now as int)
                    && system::clock_ticks(nanos),
    {
        let nanos: i128 = system::now_nanos();
        let now: i64 = system::now();
        let r = Task::at(title, now, nanos);
        assert(r.is_fresh(title@, now, nanos as int));
        r
    }
}

} // verus!
