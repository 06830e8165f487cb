//! The daily briefing: what it is composed from, and how it goes out.
use crate::agent::daemon::{Notice, BRIEFING_MEMORY_WINDOW_SECS, BRIEFING_SECTION_CAP};
use crate::agent::schedule;
use crate::agent::schedule::local_time;
use crate::domain::memory::Memory;
use crate::domain::message::{Message, Role, Session};
use crate::domain::task::Task;
use crate::number;
use crate::sorting;
use crate::text;
use vstd::prelude::*;

verus! {

/// What precedes the digest in the prompt.
pub const BRIEFING_HEAD: &'static str =
    "Compose a short, friendly daily briefing for the user from the items below. Lead with anything overdue or due today, then commitments waiting on others, then a brief note of what's newly learned. Be concise and warm; never invent anything not listed, and if nothing is urgent, say so plainly. Reply with the briefing text only — no preamble.\n\n";

/// What follows the prompt where it is handed to an agent with tools.
pub const AGENT_TAIL: &'static str =
    "\n\nYou have read-only tools. Before composing, check `skill` (action=list) for briefing-related skills (calendar, weather, mail, …); load any that apply with action=view and follow them to fetch external data. If a source is unreachable or a tool call is denied, skip that section silently — never block the briefing on it. Reply with ONLY the final briefing text.";

/// Lines, each with its line end.
pub open spec fn stacked(lines: Seq<Seq<char>>) -> Seq<char>
    decreases lines.len(),
{
    if lines.len() == 0 {
        Seq::empty()
    } else {
        stacked(lines.drop_last()) + lines.last() + "\n"@
    }
}

/// A section of at most `BRIEFING_SECTION_CAP` lines; the rest is counted, not hidden.
pub open spec fn capped(lines: Seq<Seq<char>>) -> Seq<char> {
    if lines.len() > BRIEFING_SECTION_CAP {
        stacked(lines.take(BRIEFING_SECTION_CAP as int)) + "- (+"@ + number::decimal(
            (lines.len() - BRIEFING_SECTION_CAP) as nat,
        ) + " more)\n"@
    } else {
        stacked(lines)
    }
}

fn render_lines(lines: &Vec<String>) -> (r: String)
    ensures
        r@ == capped(text::views(lines@)),
{
    let ghost all = text::views(lines@);
    let limit: usize = if lines.len() > BRIEFING_SECTION_CAP {
        BRIEFING_SECTION_CAP
    } else {
        lines.len()
    };
    let mut out = String::new();
    let mut i: usize = 0;
    assert(out@ =~= stacked(all.take(0)));
    while i < limit
        invariant
            i <= limit <= lines.len(),
            all == text::views(lines@),
            out@ == stacked(all.take(i as int)),
        decreases limit - i,
    {
        out.push_str(&lines[i]);
        out.push_str("\n");
        i = i + 1;
        assert(all.take(i as int).drop_last() =~= all.take(i - 1));
    }
    if lines.len() > BRIEFING_SECTION_CAP {
        out.push_str("- (+");
        out.push_str(&number::write_size(lines.len() - BRIEFING_SECTION_CAP));
        out.push_str(" more)\n");
    } else {
        assert(all.take(i as int) =~= all);
    }
    out
}

/// By what tasks are ordered: when they are due, those that never are last, then age.
pub open spec fn task_key(t: Task) -> sorting::Key {
    (
        match t.due_at {
            Some(d) => d,
            None => i64::MAX,
        },
        t.created_at,
    )
}

/// A task's line, where `due` is how its due time reads.
pub open spec fn task_line(t: Task, due: Seq<char>, now: i64) -> Seq<char> {
    let head = "- ["@ + t.status.word() + "] "@ + t.title@;
    let dated = match t.due_at {
        Some(d) => head + " ("@ + if d < now {
            "OVERDUE"@
        } else {
            "due"@
        } + " "@ + due + ")"@,
        None => head,
    };
    if t.waiting_on@.len() == 0 {
        dated
    } else {
        dated + " (waiting on: "@ + t.waiting_on@ + ")"@
    }
}

fn line_of(t: &Task, due: &str, now: i64) -> (r: String)
    ensures
        r@ == task_line(*t, due@, now),
{
    let mut line = "- [".to_owned();
    line.push_str(t.status.as_str());
    line.push_str("] ");
    line.push_str(&t.title);
    if let Some(d) = t.due_at {
        line.push_str(" (");
        if d < now {
            line.push_str("OVERDUE");
        } else {
            line.push_str("due");
        }
        line.push_str(" ");
        line.push_str(due);
        line.push_str(")");
    }
    if !t.waiting_on.as_str().is_empty() {
        line.push_str(" (waiting on: ");
        line.push_str(&t.waiting_on);
        line.push_str(")");
    }
    line
}

/// The lines of the open tasks, most urgent first.
pub open spec fn task_lines(tasks: Seq<Task>, dues: Seq<Seq<char>>, now: i64) -> Seq<Seq<char>> {
    let order = sorting::ranking(Seq::new(tasks.len(), |i: int| task_key(tasks[i])));
    Seq::new(tasks.len(), |k: int| task_line(tasks[order[k]], dues[order[k]], now))
}

fn lines_of_tasks(tasks: &Vec<Task>, dues: &Vec<String>, now: i64) -> (r: Vec<String>)
    requires
        tasks@.len() == dues@.len(),
    ensures
        text::views(r@) == task_lines(tasks@, text::views(dues@), now),
{
    let ghost want = Seq::new(tasks@.len(), |i: int| task_key(tasks@[i]));
    let mut keys: Vec<sorting::Key> = Vec::new();
    let mut i: usize = 0;
    while i < tasks.len()
        invariant
            i <= tasks.len(),
            want == Seq::new(tasks@.len(), |i: int| task_key(tasks@[i])),
            keys@ =~= want.take(i as int),
        decreases tasks.len() - i,
    {
        let t = &tasks[i];
        let due: i64 = match t.due_at {
            Some(d) => d,
            None => i64::MAX,
        };
        keys.push((due, t.created_at));
        i = i + 1;
    }
    assert(keys@ =~= want);
    let order = sorting::rank(&keys);
    let ghost all = task_lines(tasks@, text::views(dues@), now);
    let mut out: Vec<String> = Vec::new();
    let mut j: usize = 0;
    assert(text::views(out@) =~= all.take(0));
    while j < order.len()
        invariant
            j <= order.len(),
            order@.len() == tasks@.len() == dues@.len(),
            want == Seq::new(tasks@.len(), |i: int| task_key(tasks@[i])),
            forall|k: int| 0 <= k < order@.len() ==> #[trigger] order@[k] < tasks@.len(),
            forall|k: int|
                0 <= k < order@.len() ==> order@[k] == #[trigger] sorting::ranking(want)[k],
            all == task_lines(tasks@, text::views(dues@), now),
            text::views(out@) == all.take(j as int),
        decreases order.len() - j,
    {
        broadcast use text::lemma_views_push;

        assert(order@[j as int] == sorting::ranking(want)[j as int]);
        let at: usize = order[j];
        let line = line_of(&tasks[at], &dues[at], now);
        let ghost before = text::views(out@);
        out.push(line);
        assert(text::views(out@) == before.push(line@));
        j = j + 1;
        assert(text::views(out@) =~= all.take(j as int));
    }
    assert(all.take(j as int) =~= all);
    out
}

/// The memories learned within the window.
pub open spec fn recent(memories: Seq<Memory>, now: i64) -> Seq<int> {
    sorting::chosen(
        Seq::new(
            memories.len(),
            |i: int| now - memories[i].created_at <= BRIEFING_MEMORY_WINDOW_SECS,
        ),
    )
}

/// The lines of the recent memories.
pub open spec fn memory_lines(memories: Seq<Memory>, now: i64) -> Seq<Seq<char>> {
    let at = recent(memories, now);
    Seq::new(
        at.len(),
        |k: int| "- ["@ + memories[at[k]].kind.word() + "] "@ + memories[at[k]].content@,
    )
}

fn lines_of_memories(memories: &Vec<Memory>, now: i64) -> (r: Vec<String>)
    ensures
        text::views(r@) == memory_lines(memories@, now),
{
    let ghost want = Seq::new(
        memories@.len(),
        |i: int| now - memories@[i].created_at <= BRIEFING_MEMORY_WINDOW_SECS,
    );
    let mut flags: Vec<bool> = Vec::new();
    let mut i: usize = 0;
    while i < memories.len()
        invariant
            i <= memories.len(),
            want == Seq::new(
                memories@.len(),
                |i: int| now - memories@[i].created_at <= BRIEFING_MEMORY_WINDOW_SECS,
            ),
            flags@ =~= want.take(i as int),
        decreases memories.len() - i,
    {
        flags.push(
            now as i128 - memories[i].created_at as i128 <= BRIEFING_MEMORY_WINDOW_SECS as i128,
        );
        i = i + 1;
    }
    assert(flags@ =~= want);
    let at = sorting::positions(&flags);
    let ghost all = memory_lines(memories@, now);
    let mut out: Vec<String> = Vec::new();
    let mut j: usize = 0;
    assert(text::views(out@) =~= all.take(0));
    while j < at.len()
        invariant
            j <= at.len(),
            at@.len() == recent(memories@, now).len(),
            forall|k: int| 0 <= k < at@.len() ==> #[trigger] at@[k] < memories@.len(),
            forall|k: int|
                0 <= k < at@.len() ==> at@[k] == #[trigger] recent(memories@, now)[k],
            all == memory_lines(memories@, now),
            text::views(out@) == all.take(j as int),
        decreases at.len() - j,
    {
        broadcast use text::lemma_views_push;

        assert(at@[j as int] == recent(memories@, now)[j as int]);
        let m = &memories[at[j]];
        let mut line = "- [".to_owned();
        line.push_str(m.kind.as_str());
        line.push_str("] ");
        line.push_str(&m.content);
        let ghost before = text::views(out@);
        out.push(line);
        assert(text::views(out@) == before.push(line@));
        j = j + 1;
        assert(text::views(out@) =~= all.take(j as int));
    }
    assert(all.take(j as int) =~= all);
    out
}

/// The digest of open tasks and recent memories.
pub open spec fn digest(
    tasks: Seq<Task>,
    dues: Seq<Seq<char>>,
    memories: Seq<Memory>,
    now: i64,
) -> Seq<char> {
    let first = if tasks.len() == 0 {
        Seq::empty()
    } else {
        Seq::empty() + "Open tasks ("@ + number::decimal(tasks.len()) + "):\n"@ + capped(
            task_lines(tasks, dues, now),
        )
    };
    if recent(memories, now).len() == 0 {
        first
    } else {
        first + "\nRecently learned ("@ + number::decimal(recent(memories, now).len()) + "):\n"@
            + capped(memory_lines(memories, now))
    }
}

/// The briefing prompt, where `dues` is how each task's due time reads; none where
/// nothing is worth a ping.
pub open spec fn prompt_of(
    tasks: Seq<Task>,
    dues: Seq<Seq<char>>,
    memories: Seq<Memory>,
    now: i64,
) -> Option<Seq<char>> {
    if tasks.len() == 0 && recent(memories, now).len() == 0 {
        None
    } else {
        Some(BRIEFING_HEAD@ + text::trim_end(digest(tasks, dues, memories, now)))
    }
}

/// The briefing prompt, where `dues` is how each task's due time reads.
pub fn compose_prompt(
    tasks: &Vec<Task>,
    dues: &Vec<String>,
    memories: &Vec<Memory>,
    now: i64,
) -> (r: Option<String>)
    requires
        tasks@.len() == dues@.len(),
    ensures
        text::opt_text(r) == prompt_of(tasks@, text::views(dues@), memories@, now),
{
    let learned = lines_of_memories(memories, now);
    assert(learned@.len() == text::views(learned@).len());
    if tasks.len() == 0 && learned.len() == 0 {
        return None;
    }
    let mut out = String::new();
    if tasks.len() > 0 {
        let lines = lines_of_tasks(tasks, dues, now);
        out.push_str("Open tasks (");
        out.push_str(&number::write_size(tasks.len()));
        out.push_str("):\n");
        out.push_str(&render_lines(&lines));
    } else {
        assert(out@ =~= Seq::empty());
    }
    if learned.len() > 0 {
        out.push_str("\nRecently learned (");
        out.push_str(&number::write_size(learned.len()));
        out.push_str("):\n");
        out.push_str(&render_lines(&learned));
    }
    assert(out@ =~= digest(tasks@, text::views(dues@), memories@, now));
    let mut prompt = BRIEFING_HEAD.to_owned();
    prompt.push_str(text::trim_right(&out));
    Some(prompt)
}

/// Whether `dues` is how the due times of tasks read on some machine's wall clock; empty
/// for a task without one.
pub open spec fn are_dues(tasks: Seq<Task>, dues: Seq<Seq<char>>) -> bool {
    &&& dues.len() == tasks.len()
    &&& forall|i: int|
        0 <= i < dues.len() ==> match tasks[i].due_at {
            Some(d) => schedule::is_local_time(d, #[trigger] dues[i]),
            None => dues[i].len() == 0,
        }
}

/// How the due times of tasks read on the machine's own wall clock.
fn due_texts(tasks: &Vec<Task>) -> (r: Vec<String>)
    ensures
        are_dues(tasks@, text::views(r@)),
{
    let mut out: Vec<String> = Vec::new();
    let mut i: usize = 0;
    while i < tasks.len()
        invariant
            i <= tasks.len(),
            are_dues(tasks@.take(i as int), text::views(out@)),
        decreases tasks.len() - i,
    {
        let due = match tasks[i].due_at {
            Some(d) => local_time(d),
            None => String::new(),
        };
        let ghost before = text::views(out@);
        text::append_line(&mut out, due);
        assert forall|k: int| 0 <= k < i + 1 implies match tasks@.take(i + 1)[k].due_at {
            Some(d) => schedule::is_local_time(d, #[trigger] text::views(out@)[k]),
            None => text::views(out@)[k].len() == 0,
        } by {
            if k < i {
                assert(text::views(out@)[k] == before[k]);
                assert(tasks@.take(i + 1)[k] == tasks@.take(i as int)[k]);
            }
        }
        i = i + 1;
    }
    assert(tasks@.take(i as int) =~= tasks@);
    out
}

/// Whether `r` is the briefing prompt for some reading of the due times.
pub open spec fn is_prompt(
    tasks: Seq<Task>,
    memories: Seq<Memory>,
    now: i64,
    r: Option<Seq<char>>,
) -> bool {
    exists|dues: Seq<Seq<char>>|
        are_dues(tasks, dues) && r == #[trigger] prompt_of(tasks, dues, memories, now)
}

/// The briefing prompt, due times on the machine's own wall clock; none where there is
/// nothing worth a proactive ping.
pub fn briefing_prompt(tasks: &Vec<Task>, memories: &Vec<Memory>, now: i64) -> (r: Option<String>)
    ensures
        is_prompt(tasks@, memories@, now, text::opt_text(r)),
        r is None <==> tasks@.len() == 0 && recent(memories@, now).len() == 0,
{
    let dues = due_texts(tasks);
    let r = compose_prompt(tasks, &dues, memories, now);
    assert(text::opt_text(r) == prompt_of(tasks@, text::views(dues@), memories@, now));
    r
}

/// The prompt for an agent with read-only tools: how to enrich the briefing, and how to
/// degrade.
pub fn agentic_briefing_prompt(digest_prompt: &str) -> (r: String)
    ensures
        r@ == digest_prompt@ + AGENT_TAIL@,
{
    let mut out = digest_prompt.to_owned();
    out.push_str(AGENT_TAIL);
    out
}

/// What a briefing does next.
#[derive(Debug)]
pub enum BriefingStep {
    /// Nothing is on the plate: stay silent.
    Silent,
    /// Run an agent turn on the first text; compose plainly from the second if it fails.
    AskAgent(String, String),
    /// Let the model compose from this prompt, without tools.
    Compose(String),
}

/// The daily briefing sweep.
#[derive(Debug)]
pub struct BriefingSweep {
    pub tasks: Vec<Task>,
    pub memories: Vec<Memory>,
    /// Whether an agent with tools is at hand.
    pub runtime: bool,
}

impl BriefingSweep {
    /// How this briefing starts at `now`: an agent turn where there is an agent.
    pub fn run(&self, now: i64) -> (r: BriefingStep)
        ensures
            match r {
                BriefingStep::Silent => self.tasks@.len() == 0 && recent(
                    self.memories@,
                    now,
                ).len() == 0,
                BriefingStep::AskAgent(asked, plain) => {
                    &&& self.runtime
                    &&& is_prompt(self.tasks@, self.memories@, now, Some(plain@))
                    &&& asked@ == plain@ + AGENT_TAIL@
                },
                BriefingStep::Compose(plain) => !self.runtime && is_prompt(
                    self.tasks@,
                    self.memories@,
                    now,
                    Some(plain@),
                ),
            },
            self.tasks@.len() == 0 && recent(self.memories@, now).len() == 0 ==> r is Silent,
    {
        match briefing_prompt(&self.tasks, &self.memories, now) {
            None => BriefingStep::Silent,
            Some(plain) => {
                if self.runtime {
                    BriefingStep::AskAgent(agentic_briefing_prompt(&plain), plain)
                } else {
                    BriefingStep::Compose(plain)
                }
            },
        }
    }

    /// The session in which the model composes a briefing without tools.
    pub fn compose_plain(prompt: String, now: i64) -> (r: Session)
        ensures
            r.id@ == "briefing"@,
            r.messages@ == seq![Message { role: Role::User, content: prompt }],
            r.created_at == now,
    {
        let mut messages: Vec<Message> = Vec::new();
        messages.push(Message::user(prompt));
        assert(messages@ =~= seq![Message { role: Role::User, content: prompt }]);
        Session { id: "briefing".to_owned(), messages, created_at: now }
    }

    /// What to do once the agent turn of an `AskAgent` step ended: deliver its text, or
    /// compose plainly, so that a broken skill never costs the user the briefing.
    pub fn after_agent(plain: String, reply: Result<String, String>) -> (r: Result<
        String,
        BriefingStep,
    >)
        ensures
            match reply {
                Ok(t) => r matches Ok(x) && x@ == t@,
                Err(_) => r matches Err(BriefingStep::Compose(p)) && p@ == plain@,
            },
    {
        match reply {
            Ok(t) => Ok(t),
            Err(_) => Err(BriefingStep::Compose(plain)),
        }
    }

    /// The notice for a composed text; none for one that says nothing.
    pub fn delivery(composed: &str) -> (r: Option<Notice>)
        ensures
            match r {
                None => text::trimmed(composed@).len() == 0,
                Some(n) => text::trimmed(composed@).len() > 0 && n.title@
                    == "Komo daily briefing"@ && n.body@ == text::trimmed(composed@),
            },
    {
        let body = text::trim(composed);
        if body.is_empty() {
            None
        } else {
            Some(Notice { title: "Komo daily briefing".to_owned(), body: body.to_owned() })
        }
    }
}

/// The session of a day's briefing: one transcript per day.
pub fn briefing_session(date: &str) -> (r: String)
    ensures
        r@ == "briefing:"@ + date@,
{
    let mut out = "briefing:".to_owned();
    out.push_str(date);
    out
}

/// A section never hides how much it cut: it shows all its lines or says how many more
/// there are.
pub proof fn sections_disclose_what_they_cut(lines: Seq<Seq<char>>)
    ensures
        lines.len() <= BRIEFING_SECTION_CAP ==> capped(lines) == stacked(lines),
        lines.len() > BRIEFING_SECTION_CAP ==> capped(lines) == stacked(
            lines.take(BRIEFING_SECTION_CAP as int),
        ) + ("- (+"@ + number::decimal((lines.len() - BRIEFING_SECTION_CAP) as nat)
            + " more)\n"@),
{
    assert(lines.len() > BRIEFING_SECTION_CAP ==> capped(lines) =~= stacked(
        lines.take(BRIEFING_SECTION_CAP as int),
    ) + ("- (+"@ + number::decimal((lines.len() - BRIEFING_SECTION_CAP) as nat) + " more)\n"@));
}

} // verus!
