//! Governance over the memory library: listing, searching, triage and the quality
//! report, across all scopes.
use crate::casing;
use crate::domain::memory;
use crate::domain::memory::{parse_memory_status, Memory, MemoryConfidence, MemoryStatus};
use crate::number;
use crate::sorting;
use crate::text;
use vstd::prelude::*;

verus! {

/// After how many seconds without use an active memory counts as long unused: 90 days.
pub const STALE_SECS: i64 = 7_776_000;

/// How many lines a bucket of the report shows.
pub const BUCKET_CAP: usize = 10;

/// A memory's line.
pub open spec fn line_text(m: Memory) -> Seq<char> {
    let head = m.id@ + "  ["@ + m.status.word() + "/"@ + m.kind.word() + "/"@ + m.scope@.word();
    let pinned = if m.pinned {
        head + " 📌"@
    } else {
        head
    };
    let body = pinned + "]  "@ + m.content@;
    let used = if m.recall_count > 0 {
        body + "  (recalls="@ + number::signed(m.recall_count as int) + " queries="@
            + number::decimal(m.recall_queries as nat) + ")"@
    } else {
        body
    };
    if m.source@.len() > 0 {
        used + "  (from "@ + m.source@ + ")"@
    } else {
        used
    }
}

/// A memory's line.
pub fn line(m: &Memory) -> (r: String)
    ensures
        r@ == line_text(*m),
{
    let mut s = m.id.clone();
    s.push_str("  [");
    s.push_str(m.status.as_str());
    s.push_str("/");
    s.push_str(m.kind.as_str());
    s.push_str("/");
    s.push_str(m.scope.type_str());
    if m.pinned {
        s.push_str(" 📌");
    }
    s.push_str("]  ");
    s.push_str(&m.content);
    if m.recall_count > 0 {
        s.push_str("  (recalls=");
        s.push_str(&number::write_signed(m.recall_count));
        s.push_str(" queries=");
        s.push_str(&number::write_unsigned(m.recall_queries as u64));
        s.push_str(")");
    }
    if !m.source.as_str().is_empty() {
        s.push_str("  (from ");
        s.push_str(&m.source);
        s.push_str(")");
    }
    s
}

/// The lines of the memories at some positions, each after `indent`.
pub open spec fn lines_at(list: Seq<Memory>, at: Seq<int>, indent: Seq<char>) -> Seq<Seq<char>> {
    Seq::new(at.len(), |k: int| indent + line_text(list[at[k]]))
}

fn lines_for(list: &Vec<Memory>, at: &Vec<usize>, indent: &str, Ghost(where_): Ghost<Seq<int>>) -> (r:
    Vec<String>)
    requires
        at@.len() == where_.len(),
        forall|k: int| 0 <= k < at@.len() ==> at@[k] == #[trigger] where_[k],
        forall|k: int| 0 <= k < at@.len() ==> #[trigger] at@[k] < list@.len(),
    ensures
        text::views(r@) == lines_at(list@, where_, indent@),
{
    let ghost all = lines_at(list@, where_, indent@);
    let mut out: Vec<String> = Vec::new();
    let mut j: usize = 0;
    assert(text::views(out@) =~= all.take(0));
    while j < at.len()
        invariant
            j <= at.len(),
            at@.len() == where_.len(),
            forall|k: int| 0 <= k < at@.len() ==> at@[k] == #[trigger] where_[k],
            forall|k: int| 0 <= k < at@.len() ==> #[trigger] at@[k] < list@.len(),
            all == lines_at(list@, where_, indent@),
            text::views(out@) == all.take(j as int),
        decreases at.len() - j,
    {
        assert(at@[j as int] == where_[j as int]);
        let mut s = indent.to_owned();
        s.push_str(&line(&list[at[j]]));
        text::append_line(&mut out, s);
        j = j + 1;
        assert(text::views(out@) =~= all.take(j as int));
    }
    assert(all.take(j as int) =~= all);
    out
}

/// Where a status stands in a listing: in the order of its word.
pub open spec fn status_rank(s: MemoryStatus) -> i64 {
    match s {
        MemoryStatus::Active => 0,
        MemoryStatus::Archived => 1,
        MemoryStatus::Candidate => 2,
        MemoryStatus::Rejected => 3,
    }
}

fn rank_of(s: MemoryStatus) -> (r: i64)
    ensures
        r == status_rank(s),
{
    match s {
        MemoryStatus::Active => 0,
        MemoryStatus::Archived => 1,
        MemoryStatus::Candidate => 2,
        MemoryStatus::Rejected => 3,
    }
}

/// Listings group by status in the order of the statuses' words.
pub proof fn status_ranks_follow_the_words(a: MemoryStatus, b: MemoryStatus)
    ensures
        status_rank(a) < status_rank(b) <==> text::before(a.word(), b.word()),
{
    reveal_strlit("active");
    reveal_strlit("archived");
    reveal_strlit("candidate");
    reveal_strlit("rejected");
    text::dictionary_order_is_total(a.word(), b.word());
    text::dictionary_order_is_total(a.word(), a.word());
    let ac = "active"@;
    let ar = "archived"@;
    assert(ac.skip(1)[0] == 'c' && ar.skip(1)[0] == 'r');
    assert(text::before(ac.skip(1), ar.skip(1)));
    assert(text::before(ac, ar));
    assert(text::before(ac, "candidate"@) && text::before(ac, "rejected"@));
    assert(text::before(ar, "candidate"@) && text::before(ar, "rejected"@));
    assert(text::before("candidate"@, "rejected"@));
    text::dictionary_order_is_total(b.word(), a.word());
}

/// The memories that a listing shows.
pub open spec fn shown_flags(list: Seq<Memory>, status: Option<Seq<char>>) -> Seq<bool> {
    Seq::new(
        list.len(),
        |i: int| status is None || list[i].status == memory::status_of(
            text::trimmed(status->Some_0),
        ),
    )
}

/// By what a listing is ordered: status, then the latest change first.
pub open spec fn listing_keys(list: Seq<Memory>) -> Seq<sorting::Key> {
    Seq::new(
        list.len(),
        |i: int| (status_rank(list[i].status), sorting::descending(list[i].updated_at)),
    )
}

/// The listing of memories, of one status where one is given.
pub open spec fn listing(list: Seq<Memory>, status: Option<Seq<char>>) -> Seq<Seq<char>> {
    let at = sorting::selection(shown_flags(list, status), listing_keys(list));
    if at.len() == 0 {
        seq!["(no memories)"@]
    } else {
        lines_at(list, at, Seq::empty())
    }
}

/// The listing of memories, of one status where one is given.
pub fn list(memories: &Vec<Memory>, status: Option<&str>) -> (r: Vec<String>)
    ensures
        text::views(r@) == listing(memories@, text::opt_view(status)),
{
    let wanted: Option<MemoryStatus> = match status {
        Some(s) => Some(parse_memory_status(s)),
        None => None,
    };
    let ghost flagged = shown_flags(memories@, text::opt_view(status));
    let ghost keyed = listing_keys(memories@);
    let mut flags: Vec<bool> = Vec::new();
    let mut keys: Vec<sorting::Key> = Vec::new();
    let mut i: usize = 0;
    while i < memories.len()
        invariant
            i <= memories.len(),
            flagged == shown_flags(memories@, text::opt_view(status)),
            keyed == listing_keys(memories@),
            match wanted {
                Some(w) => status is Some && w == memory::status_of(
                    text::trimmed(status->Some_0@),
                ),
                None => status is None,
            },
            flags@ =~= flagged.take(i as int),
            keys@ =~= keyed.take(i as int),
        decreases memories.len() - i,
    {
        let m = &memories[i];
        let flag = match wanted {
            Some(w) => m.status == w,
            None => true,
        };
        flags.push(flag);
        keys.push((rank_of(m.status), sorting::reversed(m.updated_at)));
        i = i + 1;
    }
    assert(flags@ =~= flagged);
    assert(keys@ =~= keyed);
    let at = sorting::select(&flags, &keys);
    if at.len() == 0 {
        let mut out: Vec<String> = Vec::new();
        text::append_line(&mut out, "(no memories)".to_owned());
        assert(text::views(out@) =~= seq!["(no memories)"@]);
        return out;
    }
    proof {
        reveal_strlit("");
        assert(""@ =~= Seq::empty());
    }
    lines_for(memories, &at, "", Ghost(sorting::selection(flagged, keyed)))
}

/// The memories whose folded content holds the folded query.
pub open spec fn hit_flags(list: Seq<Memory>, needle: Seq<char>) -> Seq<bool> {
    Seq::new(list.len(), |i: int| text::has_part(casing::lowercase(list[i].content@), needle))
}

/// What a search shows.
pub open spec fn findings(list: Seq<Memory>, flags: Seq<bool>) -> Seq<Seq<char>> {
    let at = sorting::chosen(flags);
    if at.len() == 0 {
        seq!["(no matches)"@]
    } else {
        lines_at(list, at, Seq::empty())
    }
}

/// What a search shows, where `flags` says which memories match.
pub fn show_hits(memories: &Vec<Memory>, flags: &Vec<bool>) -> (r: Vec<String>)
    requires
        flags@.len() == memories@.len(),
    ensures
        text::views(r@) == findings(memories@, flags@),
{
    let at = sorting::positions(flags);
    if at.len() == 0 {
        let mut out: Vec<String> = Vec::new();
        text::append_line(&mut out, "(no matches)".to_owned());
        assert(text::views(out@) =~= seq!["(no matches)"@]);
        return out;
    }
    proof {
        reveal_strlit("");
        assert(""@ =~= Seq::empty());
    }
    lines_for(memories, &at, "", Ghost(sorting::chosen(flags@)))
}

/// What a search shows: the memories that hold the query, whatever the case.
pub fn search(memories: &Vec<Memory>, query: &str) -> (r: Vec<String>)
    ensures
        text::views(r@) == findings(
            memories@,
            hit_flags(memories@, casing::lowercase(query@)),
        ),
{
    let needle = query.to_lowercase();
    let ghost wanted = hit_flags(memories@, needle@);
    let mut flags: Vec<bool> = Vec::new();
    let mut i: usize = 0;
    while i < memories.len()
        invariant
            i <= memories.len(),
            wanted == hit_flags(memories@, needle@),
            flags@ =~= wanted.take(i as int),
        decreases memories.len() - i,
    {
        let content = memories[i].content.as_str().to_lowercase();
        flags.push(text::contains(&content, &needle));
        i = i + 1;
    }
    assert(flags@ =~= wanted);
    show_hits(memories, &flags)
}

/// What is said of a batch of transitions, where `done` names what was done: one line
/// for each that worked or failed.
pub fn transition_line(done: &str, id: &str, outcome: Result<(), &str>) -> (r: String)
    ensures
        r@ == match outcome {
            Ok(_) => done@ + " "@ + id@ + "."@,
            Err(error) => "✗ "@ + id@ + ": "@ + error@,
        },
{
    match outcome {
        Ok(_) => {
            let mut out = done.to_owned();
            out.push_str(" ");
            out.push_str(id);
            out.push_str(".");
            out
        },
        Err(error) => {
            let mut out = "✗ ".to_owned();
            out.push_str(id);
            out.push_str(": ");
            out.push_str(error);
            out
        },
    }
}

/// How a batch ended: it fails once any of its transitions failed, after all were tried.
pub fn batch_outcome(failed: usize, total: usize) -> (r: Result<(), String>)
    ensures
        match r {
            Ok(_) => failed == 0,
            Err(e) => failed > 0 && e@ == number::decimal(failed as nat) + " of "@
                + number::decimal(total as nat) + " failed"@,
        },
{
    if failed == 0 {
        return Ok(());
    }
    let mut out = number::write_size(failed);
    out.push_str(" of ");
    out.push_str(&number::write_size(total));
    out.push_str(" failed");
    Err(out)
}

// ---- Triage ----

#[derive(Debug, Clone, Copy, PartialEq, Eq, Structural)]
pub enum TriageChoice {
    Promote,
    Reject,
    Skip,
    Quit,
    Invalid,
}

/// What a folded line chooses. The end of input quits, and a bare line end skips: the
/// idle keystroke never changes anything.
pub open spec fn choice_of(input: Option<Seq<char>>) -> TriageChoice {
    match input {
        None => TriageChoice::Quit,
        Some(s) => if s == "q"@ {
            TriageChoice::Quit
        } else if s == "p"@ {
            TriageChoice::Promote
        } else if s == "r"@ {
            TriageChoice::Reject
        } else if s == "s"@ || s.len() == 0 {
            TriageChoice::Skip
        } else {
            TriageChoice::Invalid
        },
    }
}

/// What a folded line chooses.
pub fn triage_choice(input: Option<&str>) -> (r: TriageChoice)
    ensures
        r == choice_of(text::opt_view(input)),
{
    match input {
        None => TriageChoice::Quit,
        Some(s) => if text::same(s, "q") {
            TriageChoice::Quit
        } else if text::same(s, "p") {
            TriageChoice::Promote
        } else if text::same(s, "r") {
            TriageChoice::Reject
        } else if text::same(s, "s") || s.is_empty() {
            TriageChoice::Skip
        } else {
            TriageChoice::Invalid
        },
    }
}

/// A line from the terminal as [`triage_choice`] reads it.
pub fn fold_choice(line: &str) -> (r: String)
    ensures
        r@ == casing::lowercase(text::trimmed(line@)),
{
    text::trim(line).to_lowercase()
}

/// The candidates, oldest first: those get looked at before they are archived unused.
pub open spec fn triage_order(list: Seq<Memory>) -> Seq<int> {
    sorting::selection(
        Seq::new(list.len(), |i: int| list[i].status == MemoryStatus::Candidate),
        Seq::new(list.len(), |i: int| (list[i].created_at, 0i64)),
    )
}

/// The positions of the candidates, oldest first.
pub fn triage(memories: &Vec<Memory>) -> (r: Vec<usize>)
    ensures
        r@.len() == triage_order(memories@).len(),
        forall|k: int| 0 <= k < r@.len() ==> r@[k] == #[trigger] triage_order(memories@)[k],
        forall|k: int| 0 <= k < r@.len() ==> #[trigger] r@[k] < memories@.len(),
{
    let ghost flagged = Seq::new(
        memories@.len(),
        |i: int| memories@[i].status == MemoryStatus::Candidate,
    );
    let ghost keyed = Seq::new(memories@.len(), |i: int| (memories@[i].created_at, 0i64));
    let mut flags: Vec<bool> = Vec::new();
    let mut keys: Vec<sorting::Key> = Vec::new();
    let mut i: usize = 0;
    while i < memories.len()
        invariant
            i <= memories.len(),
            flagged == Seq::new(
                memories@.len(),
                |i: int| memories@[i].status == MemoryStatus::Candidate,
            ),
            keyed == Seq::new(memories@.len(), |i: int| (memories@[i].created_at, 0i64)),
            flags@ =~= flagged.take(i as int),
            keys@ =~= keyed.take(i as int),
        decreases memories.len() - i,
    {
        flags.push(memories[i].status == MemoryStatus::Candidate);
        keys.push((memories[i].created_at, 0));
        i = i + 1;
    }
    assert(flags@ =~= flagged);
    assert(keys@ =~= keyed);
    sorting::select(&flags, &keys)
}

/// What is said before the triage of some candidates.
pub fn triage_banner(total: usize) -> (r: String)
    ensures
        r@ == if total == 0 {
            "(no candidates to triage)"@
        } else {
            number::decimal(total as nat)
                + " candidate(s) to triage — p=promote  r=reject  s=skip  q=quit\n"@
        },
{
    if total == 0 {
        return "(no candidates to triage)".to_owned();
    }
    let mut out = number::write_size(total);
    out.push_str(" candidate(s) to triage — p=promote  r=reject  s=skip  q=quit\n");
    out
}

/// How a triage stands.
#[derive(Debug, Clone, Copy, PartialEq, Eq, Structural)]
pub struct Tally {
    pub promoted: usize,
    pub rejected: usize,
    pub skipped: usize,
    pub failed: usize,
}

/// What a triage does about a choice.
#[derive(Debug, Clone, Copy, PartialEq, Eq, Structural)]
pub enum TriageStep {
    /// Ask for this transition, then count it.
    Transition(TriageChoice),
    /// Go to the next candidate.
    Next,
    /// Ask again.
    Again,
    Stop,
}

impl Tally {
    pub fn new() -> (r: Self)
        ensures
            r == (Tally { promoted: 0, rejected: 0, skipped: 0, failed: 0 }),
    {
        Tally { promoted: 0, rejected: 0, skipped: 0, failed: 0 }
    }

    /// What to do about a choice; a skipped candidate is counted at once.
    pub fn choose_step(&mut self, choice: TriageChoice) -> (r: TriageStep)
        requires
            choice == TriageChoice::Skip ==> old(self).skipped < usize::MAX,
        ensures
            *final(self) == if choice == TriageChoice::Skip {
                Tally { skipped: (old(self).skipped + 1) as usize, ..*old(self) }
            } else {
                *old(self)
            },
            r == match choice {
                TriageChoice::Promote => TriageStep::Transition(choice),
                TriageChoice::Reject => TriageStep::Transition(choice),
                TriageChoice::Skip => TriageStep::Next,
                TriageChoice::Quit => TriageStep::Stop,
                TriageChoice::Invalid => TriageStep::Again,
            },
    {
        match choice {
            TriageChoice::Promote => TriageStep::Transition(choice),
            TriageChoice::Reject => TriageStep::Transition(choice),
            TriageChoice::Skip => {
                self.skipped = self.skipped + 1;
                TriageStep::Next
            },
            TriageChoice::Quit => TriageStep::Stop,
            TriageChoice::Invalid => TriageStep::Again,
        }
    }

    /// Counts a transition that was tried.
    pub fn count(&mut self, promote: bool, worked: bool)
        requires
            !worked ==> old(self).failed < usize::MAX,
            worked && promote ==> old(self).promoted < usize::MAX,
            worked && !promote ==> old(self).rejected < usize::MAX,
        ensures
            *final(self) == if !worked {
                Tally { failed: (old(self).failed + 1) as usize, ..*old(self) }
            } else if promote {
                Tally { promoted: (old(self).promoted + 1) as usize, ..*old(self) }
            } else {
                Tally { rejected: (old(self).rejected + 1) as usize, ..*old(self) }
            },
    {
        if !worked {
            self.failed = self.failed + 1;
        } else if promote {
            self.promoted = self.promoted + 1;
        } else {
            self.rejected = self.rejected + 1;
        }
    }

    /// What is said at the end of a triage.
    pub fn summary(&self) -> (r: String)
        ensures
            r@ == "\npromoted "@ + number::decimal(self.promoted as nat) + ", rejected "@
                + number::decimal(self.rejected as nat) + ", skipped "@ + number::decimal(
                self.skipped as nat,
            ),
    {
        let mut out = "\npromoted ".to_owned();
        out.push_str(&number::write_size(self.promoted));
        out.push_str(", rejected ");
        out.push_str(&number::write_size(self.rejected));
        out.push_str(", skipped ");
        out.push_str(&number::write_size(self.skipped));
        out
    }

    /// How a triage ends: in an error where a transition failed.
    pub fn outcome(&self) -> (r: Result<(), String>)
        ensures
            match r {
                Ok(_) => self.failed == 0,
                Err(m) => self.failed > 0 && m@ == number::decimal(self.failed as nat)
                    + " transition(s) failed"@,
            },
    {
        if self.failed > 0 {
            let mut out = number::write_size(self.failed);
            out.push_str(" transition(s) failed");
            return Err(out);
        }
        Ok(())
    }
}

/// Only an explicit letter changes a memory: anything else skips, asks again or stops.
pub proof fn idle_keys_change_nothing(input: Option<Seq<char>>)
    requires
        input != Some("p"@),
        input != Some("r"@),
    ensures
        choice_of(input) != TriageChoice::Promote,
        choice_of(input) != TriageChoice::Reject,
{
}

// ---- Report ----

/// A bucket of the report: its size and a sample of its lines; nothing for an empty one.
pub open spec fn bucket(label: Seq<char>, list: Seq<Memory>, at: Seq<int>) -> Seq<Seq<char>> {
    if at.len() == 0 {
        Seq::empty()
    } else {
        let head = seq!["\n"@ + label + ": "@ + number::decimal(at.len())];
        if at.len() > BUCKET_CAP {
            head + lines_at(list, at.take(BUCKET_CAP as int), "  "@) + seq![
                "  … and "@ + number::decimal((at.len() - BUCKET_CAP) as nat) + " more"@,
            ]
        } else {
            head + lines_at(list, at, "  "@)
        }
    }
}

/// A bucket of the report.
fn report_bucket(label: &str, memories: &Vec<Memory>, at: &Vec<usize>, Ghost(where_): Ghost<
    Seq<int>,
>) -> (r: Vec<String>)
    requires
        at@.len() == where_.len(),
        forall|k: int| 0 <= k < at@.len() ==> at@[k] == #[trigger] where_[k],
        forall|k: int| 0 <= k < at@.len() ==> #[trigger] at@[k] < memories@.len(),
    ensures
        text::views(r@) == bucket(label@, memories@, where_),
{
    let mut out: Vec<String> = Vec::new();
    assert(text::views(out@) =~= Seq::empty());
    if at.len() == 0 {
        return out;
    }
    let mut head = "\n".to_owned();
    head.push_str(label);
    head.push_str(": ");
    head.push_str(&number::write_size(at.len()));
    text::append_line(&mut out, head);
    assert(text::views(out@) =~= seq![head@]);
    if at.len() > BUCKET_CAP {
        let mut sample: Vec<usize> = Vec::new();
        let mut i: usize = 0;
        while i < BUCKET_CAP
            invariant
                i <= BUCKET_CAP < at.len(),
                sample@ =~= at@.take(i as int),
            decreases BUCKET_CAP - i,
        {
            sample.push(at[i]);
            i = i + 1;
        }
        let shown = lines_for(memories, &sample, "  ", Ghost(where_.take(BUCKET_CAP as int)));
        text::append_lines(&mut out, shown);
        let mut more = "  … and ".to_owned();
        more.push_str(&number::write_size(at.len() - BUCKET_CAP));
        more.push_str(" more");
        text::append_line(&mut out, more);
        assert(text::views(out@) =~= bucket(label@, memories@, where_));
    } else {
        let shown = lines_for(memories, at, "  ", Ghost(where_));
        text::append_lines(&mut out, shown);
    }
    out
}

/// The piles that need an operator's eye.
#[derive(Debug, Clone, Copy, PartialEq, Eq, Structural)]
pub enum Pile {
    Candidates,
    Pinned,
    LowConfidence,
    LongUnused,
    Expired,
}

/// Whether a memory lies in a pile at `now`.
pub open spec fn lies_in(m: Memory, pile: Pile, now: i64) -> bool {
    match pile {
        Pile::Candidates => m.status == MemoryStatus::Candidate,
        Pile::Pinned => m.pinned,
        Pile::LowConfidence => m.status == MemoryStatus::Active && (m.confidence
            == MemoryConfidence::Extracted || m.confidence == MemoryConfidence::Inferred),
        Pile::LongUnused => m.status == MemoryStatus::Active && (m.last_used_at is None || now
            - m.last_used_at->Some_0 > STALE_SECS),
        Pile::Expired => m.expired(now),
    }
}

/// By what a pile is ordered: the longest unused first in that pile, else as listed.
pub open spec fn pile_key(m: Memory, pile: Pile) -> sorting::Key {
    if pile == Pile::LongUnused {
        (
            match m.last_used_at {
                Some(t) => t,
                None => 0,
            },
            0i64,
        )
    } else {
        (0i64, 0i64)
    }
}

/// The positions of the memories of a pile, in its order.
pub open spec fn pile_of(list: Seq<Memory>, pile: Pile, now: i64) -> Seq<int> {
    sorting::selection(
        Seq::new(list.len(), |i: int| lies_in(list[i], pile, now)),
        Seq::new(list.len(), |i: int| pile_key(list[i], pile)),
    )
}

/// The positions of the memories of a pile, in its order.
pub fn pile_positions(memories: &Vec<Memory>, pile: Pile, now: i64) -> (r: Vec<usize>)
    ensures
        r@.len() == pile_of(memories@, pile, now).len(),
        forall|k: int| 0 <= k < r@.len() ==> r@[k] == #[trigger] pile_of(memories@, pile, now)[k],
        forall|k: int| 0 <= k < r@.len() ==> #[trigger] r@[k] < memories@.len(),
{
    let ghost flagged = Seq::new(memories@.len(), |i: int| lies_in(memories@[i], pile, now));
    let ghost keyed = Seq::new(memories@.len(), |i: int| pile_key(memories@[i], pile));
    let mut flags: Vec<bool> = Vec::new();
    let mut keys: Vec<sorting::Key> = Vec::new();
    let mut i: usize = 0;
    while i < memories.len()
        invariant
            i <= memories.len(),
            flagged == Seq::new(memories@.len(), |i: int| lies_in(memories@[i], pile, now)),
            keyed == Seq::new(memories@.len(), |i: int| pile_key(memories@[i], pile)),
            flags@ =~= flagged.take(i as int),
            keys@ =~= keyed.take(i as int),
        decreases memories.len() - i,
    {
        let m = &memories[i];
        let flag = match pile {
            Pile::Candidates => m.status == MemoryStatus::Candidate,
            Pile::Pinned => m.pinned,
            Pile::LowConfidence => m.status == MemoryStatus::Active && (m.confidence
                == MemoryConfidence::Extracted || m.confidence == MemoryConfidence::Inferred),
            Pile::LongUnused => m.status == MemoryStatus::Active && match m.last_used_at {
                Some(t) => now as i128 - t as i128 > STALE_SECS as i128,
                None => true,
            },
            Pile::Expired => m.is_expired(now),
        };
        let key: sorting::Key = if pile == Pile::LongUnused {
            match m.last_used_at {
                Some(t) => (t, 0),
                None => (0, 0),
            }
        } else {
            (0, 0)
        };
        flags.push(flag);
        keys.push(key);
        i = i + 1;
    }
    assert(flags@ =~= flagged);
    assert(keys@ =~= keyed);
    sorting::select(&flags, &keys)
}

/// The count of a status, in the report.
pub open spec fn status_count(list: Seq<Memory>, s: MemoryStatus) -> Seq<Seq<char>> {
    let n = sorting::chosen(Seq::new(list.len(), |i: int| list[i].status == s)).len();
    if n > 0 {
        seq!["  "@ + text::padded(s.word(), 10) + " "@ + number::decimal(n)]
    } else {
        Seq::empty()
    }
}

fn count_status(memories: &Vec<Memory>, s: MemoryStatus) -> (r: Vec<String>)
    ensures
        text::views(r@) == status_count(memories@, s),
{
    let ghost wanted = Seq::new(memories@.len(), |i: int| memories@[i].status == s);
    let mut flags: Vec<bool> = Vec::new();
    let mut i: usize = 0;
    while i < memories.len()
        invariant
            i <= memories.len(),
            wanted == Seq::new(memories@.len(), |i: int| memories@[i].status == s),
            flags@ =~= wanted.take(i as int),
        decreases memories.len() - i,
    {
        flags.push(memories[i].status == s);
        i = i + 1;
    }
    assert(flags@ =~= wanted);
    let at = sorting::positions(&flags);
    let mut out: Vec<String> = Vec::new();
    assert(text::views(out@) =~= Seq::empty());
    if at.len() > 0 {
        let mut row = "  ".to_owned();
        row.push_str(&text::pad(s.as_str(), 10));
        row.push_str(" ");
        row.push_str(&number::write_size(at.len()));
        text::append_line(&mut out, row);
        assert(text::views(out@) =~= seq![row@]);
    }
    out
}

/// The count of a confidence, in the report.
pub open spec fn confidence_count(list: Seq<Memory>, c: MemoryConfidence) -> Seq<Seq<char>> {
    let n = sorting::chosen(Seq::new(list.len(), |i: int| list[i].confidence == c)).len();
    if n > 0 {
        seq!["  "@ + text::padded(c.word(), 12) + " "@ + number::decimal(n)]
    } else {
        Seq::empty()
    }
}

fn count_confidence(memories: &Vec<Memory>, c: MemoryConfidence) -> (r: Vec<String>)
    ensures
        text::views(r@) == confidence_count(memories@, c),
{
    let ghost wanted = Seq::new(memories@.len(), |i: int| memories@[i].confidence == c);
    let mut flags: Vec<bool> = Vec::new();
    let mut i: usize = 0;
    while i < memories.len()
        invariant
            i <= memories.len(),
            wanted == Seq::new(memories@.len(), |i: int| memories@[i].confidence == c),
            flags@ =~= wanted.take(i as int),
        decreases memories.len() - i,
    {
        flags.push(memories[i].confidence == c);
        i = i + 1;
    }
    assert(flags@ =~= wanted);
    let at = sorting::positions(&flags);
    let mut out: Vec<String> = Vec::new();
    assert(text::views(out@) =~= Seq::empty());
    if at.len() > 0 {
        let mut row = "  ".to_owned();
        row.push_str(&text::pad(c.as_str(), 12));
        row.push_str(" ");
        row.push_str(&number::write_size(at.len()));
        text::append_line(&mut out, row);
        assert(text::views(out@) =~= seq![row@]);
    }
    out
}

/// The label of a pile.
pub open spec fn pile_label(pile: Pile) -> Seq<char> {
    match pile {
        Pile::Candidates => "candidates awaiting triage (→ promote/reject)"@,
        Pile::Pinned => "pinned into L1 profile"@,
        Pile::LowConfidence => "low-confidence active (extracted/inferred)"@,
        Pile::LongUnused => "active, long unused (90d+ → consider archive)"@,
        Pile::Expired => "expired (past expires_at)"@,
    }
}

/// A pile as a bucket of the report.
pub open spec fn pile_lines(list: Seq<Memory>, pile: Pile, now: i64) -> Seq<Seq<char>> {
    bucket(pile_label(pile), list, pile_of(list, pile, now))
}

fn report_pile(memories: &Vec<Memory>, pile: Pile, now: i64) -> (r: Vec<String>)
    ensures
        text::views(r@) == pile_lines(memories@, pile, now),
{
    let label = match pile {
        Pile::Candidates => "candidates awaiting triage (→ promote/reject)",
        Pile::Pinned => "pinned into L1 profile",
        Pile::LowConfidence => "low-confidence active (extracted/inferred)",
        Pile::LongUnused => "active, long unused (90d+ → consider archive)",
        Pile::Expired => "expired (past expires_at)",
    };
    let at = pile_positions(memories, pile, now);
    report_bucket(label, memories, &at, Ghost(pile_of(memories@, pile, now)))
}

/// The quality report on the memory library at `now`.
pub open spec fn report_lines(list: Seq<Memory>, now: i64) -> Seq<Seq<char>> {
    if list.len() == 0 {
        seq!["(no memories)"@]
    } else {
        seq!["total: "@ + number::decimal(list.len())].push("\nby status:"@) + status_count(
            list,
            MemoryStatus::Candidate,
        ) + status_count(list, MemoryStatus::Active) + status_count(list, MemoryStatus::Archived)
            + status_count(list, MemoryStatus::Rejected) + seq!["\nby confidence:"@]
            + confidence_count(list, MemoryConfidence::UserWritten) + confidence_count(
            list,
            MemoryConfidence::Confirmed,
        ) + confidence_count(list, MemoryConfidence::Inferred) + confidence_count(
            list,
            MemoryConfidence::Extracted,
        ) + pile_lines(list, Pile::Candidates, now) + pile_lines(list, Pile::Pinned, now)
            + pile_lines(list, Pile::LowConfidence, now) + pile_lines(list, Pile::LongUnused, now)
            + pile_lines(list, Pile::Expired, now)
    }
}

/// The quality report on the memory library at `now`.
pub fn report(memories: &Vec<Memory>, now: i64) -> (r: Vec<String>)
    ensures
        text::views(r@) == report_lines(memories@, now),
{
    let mut out: Vec<String> = Vec::new();
    assert(text::views(out@) =~= Seq::empty());
    if memories.len() == 0 {
        text::append_line(&mut out, "(no memories)".to_owned());
        assert(text::views(out@) =~= seq!["(no memories)"@]);
        return out;
    }
    let mut total = "total: ".to_owned();
    total.push_str(&number::write_size(memories.len()));
    text::append_line(&mut out, total);
    assert(text::views(out@) =~= seq![total@]);
    text::append_line(&mut out, "\nby status:".to_owned());
    text::append_lines(&mut out, count_status(memories, MemoryStatus::Candidate));
    text::append_lines(&mut out, count_status(memories, MemoryStatus::Active));
    text::append_lines(&mut out, count_status(memories, MemoryStatus::Archived));
    text::append_lines(&mut out, count_status(memories, MemoryStatus::Rejected));
    let ghost before = text::views(out@);
    text::append_line(&mut out, "\nby confidence:".to_owned());
    assert(text::views(out@) =~= before + seq!["\nby confidence:"@]);
    text::append_lines(&mut out, count_confidence(memories, MemoryConfidence::UserWritten));
    text::append_lines(&mut out, count_confidence(memories, MemoryConfidence::Confirmed));
    text::append_lines(&mut out, count_confidence(memories, MemoryConfidence::Inferred));
    text::append_lines(&mut out, count_confidence(memories, MemoryConfidence::Extracted));
    text::append_lines(&mut out, report_pile(memories, Pile::Candidates, now));
    text::append_lines(&mut out, report_pile(memories, Pile::Pinned, now));
    text::append_lines(&mut out, report_pile(memories, Pile::LowConfidence, now));
    text::append_lines(&mut out, report_pile(memories, Pile::LongUnused, now));
    text::append_lines(&mut out, report_pile(memories, Pile::Expired, now));
    out
}

/// What is said of a pinned memory.
pub fn pin_note(id: &str) -> (r: String)
    ensures
        r@ == "Pinned "@ + id@ + " into the L1 profile."@,
{
    let mut out = "Pinned ".to_owned();
    out.push_str(id);
    out.push_str(" into the L1 profile.");
    out
}

} // verus!
