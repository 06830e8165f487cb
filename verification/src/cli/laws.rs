//! What holds of the commands, in terms of what goes in and comes out.
use crate::casing;
use crate::cli::approver;
use crate::cli::approver::{Answer, CliApprover, DenyApprover};
use crate::cli::args;
use crate::cli::args::PruneBy;
use crate::cli::logs;
use crate::cli::logs::Tail;
use crate::cli::memory;
use crate::cli::memory::{Pile, Tally, TriageChoice, TriageStep};
use crate::cli::service;
use crate::cli::service::ServiceStep;
use crate::cli::skill;
use crate::cli::skill::{Found, ReadableSkill};
use crate::agent::schedule;
use crate::domain::approval::{ApprovalRequest, Risk};
use crate::domain::memory::{Memory, MemoryConfidence, MemoryStatus};
use crate::domain::skill::Skill;
use crate::sorting;
use crate::text;
use vstd::prelude::*;

verus! {

// ---------------------------------------------------------------------------
// Consent at the terminal
// ---------------------------------------------------------------------------

/// At the terminal a safe action runs, and so does one whose kind was allowed for the
/// session; any other runs only where the answer says so in one of the four words. Only
/// the words for the session are remembered, and only for the request's kind.
pub proof fn the_terminal_asks(
    a: &mut CliApprover,
    request: &ApprovalRequest,
    answer: Option<&str>,
    r: bool,
)
    requires
        call_ensures(CliApprover::approve, (a, request, answer), r),
    ensures
        ({
            let known = request.scope_key is Some && old(a).allowed().contains(
                request.scope_key->0@,
            );
            let said = if answer is Some {
                casing::lowercase(text::trimmed(answer->0@))
            } else {
                ""@
            };
            let yes = answer is Some && (said == "y"@ || said == "yes"@);
            let session = answer is Some && (said == "s"@ || said == "session"@);
            &&& r <==> request.risk == Risk::Safe || known || yes || session
            &&& forall|key: Seq<char>| #[trigger]
                final(a).allowed().contains(key) <==> old(a).allowed().contains(key) || (session
                    && request.risk != Risk::Safe && request.scope_key is Some
                    && request.scope_key->0@ == key)
        }),
{
    reveal_strlit("y");
    reveal_strlit("yes");
    reveal_strlit("s");
    reveal_strlit("session");
    assert("y"@[0] == 'y' && "yes"@[0] == 'y' && "s"@[0] == 's' && "session"@[0] == 's');
}

/// A prompt is needed exactly where nothing allows the request yet.
pub proof fn prompts_are_for_the_unsettled(a: &CliApprover, request: &ApprovalRequest, r: bool)
    requires
        call_ensures(CliApprover::needs_prompt, (a, request), r),
    ensures
        r <==> request.risk != Risk::Safe && !(request.scope_key is Some && a.allowed().contains(
            request.scope_key->0@,
        )),
{
}

/// With nobody to ask, nothing runs.
pub proof fn nobody_means_no(a: &DenyApprover, request: &ApprovalRequest, r: bool)
    requires
        call_ensures(DenyApprover::approve, (a, request), r),
    ensures
        !r,
{
}

/// The prompt says what is asked, and of a dangerous action why.
pub proof fn the_prompt_says_what_is_asked(request: &ApprovalRequest, r: String)
    requires
        call_ensures(approver::prompt, (request,), r),
    ensures
        text::has_part(r@, request.summary@),
        request.risk == Risk::Dangerous ==> text::has_part(r@, "DANGEROUS"@),
        request.risk == Risk::Dangerous && request.detail is Some ==> text::has_part(
            r@,
            request.detail->0@,
        ),
{
    let ask = request.summary@;
    text::lemma_part_of_itself(ask);
    if request.risk == Risk::Dangerous {
        let x = "\n🛑 DANGEROUS — request to "@;
        let end = "\n   Approve? [y]es once / [s]ession / [N]o "@;
        let mid = match request.detail {
            Some(d) => "\n   ("@ + d@ + ")"@,
            None => Seq::empty(),
        };
        assert(r@ =~= x + ask + (mid + end));
        text::lemma_part_of_part(r@, x, ask, mid + end, ask);
        reveal_strlit("\n🛑 DANGEROUS — request to ");
        reveal_strlit("DANGEROUS");
        assert(x.subrange(3, 12) =~= "DANGEROUS"@);
        assert(text::occurs_at(x, "DANGEROUS"@, 3));
        assert(r@ =~= Seq::<char>::empty() + x + (ask + mid + end));
        text::lemma_part_of_part(r@, Seq::empty(), x, ask + mid + end, "DANGEROUS"@);
        if let Some(d) = request.detail {
            assert(r@ =~= (x + ask + "\n   ("@) + d@ + (")"@ + end));
            text::lemma_part_of_itself(d@);
            text::lemma_part_of_part(r@, x + ask + "\n   ("@, d@, ")"@ + end, d@);
        }
    } else {
        let x = "\n⚠  Approve request to "@;
        let end = "? [y]es once / [s]ession / [N]o "@;
        text::lemma_part_of_part(r@, x, ask, end, ask);
    }
}

// ---------------------------------------------------------------------------
// Dates and pruning
// ---------------------------------------------------------------------------

/// A date starts at midnight of the machine's own wall clock: where that clock stays a
/// fixed number of seconds ahead of UTC, so many seconds before midnight UTC.
pub proof fn dates_start_at_the_machine_s_midnight(
    s: &str,
    offset: int,
    r: Result<i64, String>,
)
    requires
        call_ensures(args::parse_local_date, (s,), r),
        args::date_fault(text::trimmed(s@)) is None,
    ensures
        schedule::is_fixed_clock(offset) && r is Ok ==> r->Ok_0 == args::date_midnight(
            text::trimmed(s@),
        ) - offset,
        r matches Ok(t) ==> args::midnight_says(
            text::trimmed(s@),
            Some(args::date_midnight(text::trimmed(s@)) - t),
        ),
        r is Err ==> args::midnight_says(text::trimmed(s@), None),
{
}

/// Pruning takes exactly one of a date and a number to keep, and takes it as given.
pub proof fn pruning_goes_one_way(
    before: Option<String>,
    keep: Option<usize>,
    r: Result<PruneBy, String>,
)
    requires
        call_ensures(args::prune_by, (before, keep), r),
    ensures
        r is Ok <==> (before is Some) != (keep is Some),
        r matches Ok(by) ==> match by {
            PruneBy::Before(d) => before is Some && d@ == before->0@,
            PruneBy::Keep(n) => keep == Some(n),
        },
{
}

// ---------------------------------------------------------------------------
// Memories
// ---------------------------------------------------------------------------

/// Triage goes through every candidate once, the oldest first.
pub proof fn triage_goes_through_every_candidate(memories: &Vec<Memory>, r: Vec<usize>)
    requires
        call_ensures(memory::triage, (memories,), r),
    ensures
        forall|k: int|
            0 <= k < r@.len() ==> (#[trigger] r@[k]) < memories@.len()
                && memories@[r@[k] as int].status == MemoryStatus::Candidate,
        forall|i: int|
            0 <= i < memories@.len() && (#[trigger] memories@[i]).status
                == MemoryStatus::Candidate ==> exists|k: int|
                0 <= k < r@.len() && #[trigger] r@[k] == i,
        forall|j: int, k: int|
            0 <= j < k < r@.len() ==> memories@[(#[trigger] r@[j]) as int].created_at <= memories@[(
            #[trigger] r@[k]) as int].created_at && r@[j] != r@[k],
{
    let flags = Seq::new(
        memories@.len(),
        |i: int| memories@[i].status == MemoryStatus::Candidate,
    );
    let keys = Seq::new(memories@.len(), |i: int| (memories@[i].created_at, 0i64));
    sorting::selection_is_exact(flags, keys);
    let at = memory::triage_order(memories@);
    assert(at == sorting::selection(flags, keys));
    assert forall|k: int| 0 <= k < r@.len() implies (#[trigger] r@[k]) < memories@.len()
        && memories@[r@[k] as int].status == MemoryStatus::Candidate by {
        assert(r@[k] == at[k]);
        assert(at.contains(at[k]));
        assert(flags[at[k]]);
    }
    assert forall|i: int|
        0 <= i < memories@.len() && (#[trigger] memories@[i]).status
            == MemoryStatus::Candidate implies exists|k: int|
        0 <= k < r@.len() && #[trigger] r@[k] == i by {
        assert(flags[i]);
        assert(at.contains(i));
        let k = choose|k: int| 0 <= k < at.len() && at[k] == i;
        assert(r@[k] == i);
    }
    assert forall|j: int, k: int| 0 <= j < k < r@.len() implies memories@[(
    #[trigger] r@[j]) as int].created_at <= memories@[(#[trigger] r@[k]) as int].created_at
        && r@[j] != r@[k] by {
        assert(r@[j] == at[j] && r@[k] == at[k]);
        assert(sorting::key_less(keys[at[j]], keys[at[k]]) || keys[at[j]] == keys[at[k]] && at[j]
            < at[k]);
    }
}

/// A key press changes a memory only where it is one of the two letters for it.
pub proof fn letters_choose(input: Option<&str>, r: TriageChoice)
    requires
        call_ensures(memory::triage_choice, (input,), r),
    ensures
        r == TriageChoice::Promote <==> input is Some && input->0@ == "p"@,
        r == TriageChoice::Reject <==> input is Some && input->0@ == "r"@,
        input is None ==> r == TriageChoice::Quit,
        input is Some && input->0@.len() == 0 ==> r == TriageChoice::Skip,
        input is Some && input->0@ == "q"@ ==> r == TriageChoice::Quit,
        input is Some && input->0@ == "s"@ ==> r == TriageChoice::Skip,
{
    reveal_strlit("p");
    reveal_strlit("r");
    reveal_strlit("s");
    reveal_strlit("q");
    assert("p"@[0] == 'p' && "r"@[0] == 'r' && "s"@[0] == 's' && "q"@[0] == 'q');
    assert("p"@.len() == 1 && "r"@.len() == 1 && "s"@.len() == 1 && "q"@.len() == 1);
}

/// Every transition that was tried is counted once, as what it was; a skipped candidate is
/// counted as skipped, and nothing else is.
pub proof fn triage_counts_each_once(
    t: &mut Tally,
    u: &mut Tally,
    choice: TriageChoice,
    step: TriageStep,
    promote: bool,
    worked: bool,
)
    requires
        call_ensures(Tally::choose_step, (t, choice), step),
        choice == TriageChoice::Skip ==> old(t).skipped < usize::MAX,
        call_ensures(Tally::count, (u, promote, worked), ()),
        old(u).failed < usize::MAX,
        old(u).promoted < usize::MAX,
        old(u).rejected < usize::MAX,
    ensures
        final(t).promoted == old(t).promoted,
        final(t).rejected == old(t).rejected,
        final(t).failed == old(t).failed,
        choice == TriageChoice::Skip ==> final(t).skipped == old(t).skipped + 1,
        choice != TriageChoice::Skip ==> final(t).skipped == old(t).skipped,
        step is Transition <==> choice == TriageChoice::Promote || choice == TriageChoice::Reject,
        step is Stop <==> choice == TriageChoice::Quit,
        final(u).skipped == old(u).skipped,
        final(u).promoted + final(u).rejected + final(u).failed == old(u).promoted
            + old(u).rejected + old(u).failed + 1,
        final(u).failed > old(u).failed <==> !worked,
        final(u).promoted > old(u).promoted <==> worked && promote,
{
}

/// A pile of the report holds exactly the memories it is named for, each once.
pub proof fn piles_hold_what_they_say(memories: &Vec<Memory>, pile: Pile, now: i64, r: Vec<usize>)
    requires
        call_ensures(memory::pile_positions, (memories, pile, now), r),
    ensures
        forall|i: int|
            0 <= i < memories@.len() ==> ((exists|k: int| 0 <= k < r@.len() && #[trigger] r@[k] == i)
                <==> belongs(#[trigger] memories@[i], pile, now)),
{
    let flags = Seq::new(memories@.len(), |i: int| memory::lies_in(memories@[i], pile, now));
    let keys = Seq::new(memories@.len(), |i: int| memory::pile_key(memories@[i], pile));
    sorting::selection_is_exact(flags, keys);
    let at = memory::pile_of(memories@, pile, now);
    assert(at == sorting::selection(flags, keys));
    assert forall|i: int| 0 <= i < memories@.len() implies ((exists|k: int|
        0 <= k < r@.len() && #[trigger] r@[k] == i) <==> belongs(
        #[trigger] memories@[i],
        pile,
        now,
    )) by {
        assert(flags[i] == belongs(memories@[i], pile, now));
        if flags[i] {
            assert(at.contains(i));
            let k = choose|k: int| 0 <= k < at.len() && at[k] == i;
            assert(r@[k] == at[k]);
        }
        if exists|k: int| 0 <= k < r@.len() && #[trigger] r@[k] == i {
            let k = choose|k: int| 0 <= k < r@.len() && #[trigger] r@[k] == i;
            assert(r@[k] == at[k]);
            assert(at.contains(i));
        }
    }
}

/// What each pile is for, by what a memory holds.
pub open spec fn belongs(m: Memory, pile: Pile, now: i64) -> bool {
    match pile {
        Pile::Candidates => m.status == MemoryStatus::Candidate,
        Pile::Pinned => m.pinned,
        Pile::LowConfidence => m.status == MemoryStatus::Active && m.confidence
            != MemoryConfidence::Confirmed && m.confidence != MemoryConfidence::UserWritten,
        Pile::LongUnused => m.status == MemoryStatus::Active && (m.last_used_at is Some ==> now
            > m.last_used_at->0 + 7_776_000),
        Pile::Expired => m.expires_at is Some && m.expires_at->0 <= now,
    }
}

proof fn lemma_line_holds(m: Memory)
    ensures
        text::has_part(memory::line_text(m), m.content@),
        text::has_prefix(memory::line_text(m), m.id@),
{
    let line = memory::line_text(m);
    let head = m.id@ + "  ["@ + m.status.word() + "/"@ + m.kind.word() + "/"@ + m.scope@.word();
    let lead = (if m.pinned {
        head + " 📌"@
    } else {
        head
    }) + "]  "@;
    let back = line.skip((lead.len() + m.content@.len()) as int);
    assert(line =~= lead + m.content@ + back);
    text::lemma_part_of_itself(m.content@);
    text::lemma_part_of_part(line, lead, m.content@, back, m.content@);
    assert(line.subrange(0, m.id@.len() as int) =~= m.id@);
}

/// A search shows a line for each memory that holds the query, whatever the case, and for
/// no other; and says so where there is none.
pub proof fn searches_find_every_match(memories: &Vec<Memory>, query: &str, r: Vec<String>, i: int)
    requires
        call_ensures(memory::search, (memories, query), r),
        0 <= i < memories@.len(),
        text::has_part(
            casing::lowercase(memories@[i].content@),
            casing::lowercase(query@),
        ),
    ensures
        exists|k: int|
            0 <= k < r@.len() && text::has_part((#[trigger] r@[k])@, memories@[i].content@)
                && text::has_prefix(r@[k]@, memories@[i].id@),
{
    let flags = memory::hit_flags(memories@, casing::lowercase(query@));
    sorting::chosen_is_exact(flags);
    assert(flags[i]);
    let at = sorting::chosen(flags);
    assert(at.contains(i));
    let k = choose|k: int| 0 <= k < at.len() && at[k] == i;
    let lines = memory::lines_at(memories@, at, Seq::empty());
    assert(text::views(r@) == lines);
    assert(text::views(r@)[k] == r@[k]@);
    lemma_line_holds(memories@[i]);
    assert(lines[k] =~= memory::line_text(memories@[i]));
}

/// A search without a match shows no memory.
pub proof fn searches_find_nothing_else(memories: &Vec<Memory>, query: &str, r: Vec<String>)
    requires
        call_ensures(memory::search, (memories, query), r),
        forall|i: int|
            0 <= i < memories@.len() ==> !text::has_part(
                casing::lowercase((#[trigger] memories@[i]).content@),
                casing::lowercase(query@),
            ),
    ensures
        r@.len() == 1,
        r@[0]@ == "(no matches)"@,
{
    let flags = memory::hit_flags(memories@, casing::lowercase(query@));
    sorting::chosen_is_exact(flags);
    let at = sorting::chosen(flags);
    if at.len() > 0 {
        assert(flags[at[0]]);
        assert(!text::has_part(
            casing::lowercase(memories@[at[0]].content@),
            casing::lowercase(query@),
        ));
    }
    assert(text::views(r@).len() == r@.len());
    assert(text::views(r@)[0] == r@[0]@);
}

// ---------------------------------------------------------------------------
// Skills
// ---------------------------------------------------------------------------

/// A skill is read from the managed store where it holds one of the name, then from the
/// shared one, then from the candidates; it is not found only where none holds it.
pub proof fn managed_skills_are_read_first(
    active: Option<(Skill, String)>,
    shared: Option<(Skill, String)>,
    candidate: Option<(Skill, String)>,
    history: Vec<String>,
    r: Option<ReadableSkill>,
)
    requires
        call_ensures(skill::find_readable_skill, (active, shared, candidate, history), r),
    ensures
        r is None <==> active is None && shared is None && candidate is None,
        active is Some ==> r->0.status == Found::Active && r->0.skill == active->Some_0.0,
        active is None && shared is Some ==> r->0.status == Found::Shared && r->0.skill
            == shared->Some_0.0 && r->0.history@.len() == 0,
        active is None && shared is None && candidate is Some ==> r->0.status == Found::Candidate
            && r->0.skill == candidate->Some_0.0,
{
}

// ---------------------------------------------------------------------------
// The service
// ---------------------------------------------------------------------------

/// Starting never disturbs a gateway that runs, stopping never touches one that does not,
/// and a restart ends with one started; without the supervisor all are refused.
pub proof fn services_change_as_asked(
    supported: bool,
    loaded: bool,
    start: Result<ServiceStep, String>,
    stop: Result<ServiceStep, String>,
    again: Result<ServiceStep, String>,
)
    requires
        call_ensures(service::start, (supported, loaded), start),
        call_ensures(service::stop, (supported, loaded), stop),
        call_ensures(service::restart, (supported, loaded), again),
    ensures
        start is Ok <==> supported,
        stop is Ok <==> supported,
        again is Ok <==> supported,
        start matches Ok(s) ==> (s == ServiceStep::AlreadyRunning <==> loaded) && (s
            == ServiceStep::Bootstrap <==> !loaded),
        stop matches Ok(s) ==> (s == ServiceStep::Bootout <==> loaded) && (s
            == ServiceStep::NotRunning <==> !loaded),
        again matches Ok(s) ==> (s == ServiceStep::BootoutThenBootstrap <==> loaded) && (s
            == ServiceStep::Bootstrap <==> !loaded),
{
}

/// A restart does not go on while the old gateway is still there.
pub proof fn restarts_wait_for_the_old_gateway(
    step: ServiceStep,
    unloaded: bool,
    r: Result<(), String>,
)
    requires
        call_ensures(service::after_bootout, (step, unloaded), r),
    ensures
        r is Err <==> step == ServiceStep::BootoutThenBootstrap && !unloaded,
{
}

// ---------------------------------------------------------------------------
// Logs
// ---------------------------------------------------------------------------

/// Reading on never goes past what was read: it continues where it stopped, and starts
/// over where the log is now shorter.
pub proof fn reading_goes_on(pos: u64, len: u64, r: (u64, bool))
    requires
        call_ensures(logs::follow, (pos, len), r),
    ensures
        len >= pos ==> r.0 == pos && (r.1 <==> len > pos),
        len < pos ==> r.0 == 0 && (r.1 <==> len > 0),
        r.0 <= len,
{
}

/// The tail of a log is its last lines, in their order: as many as it may hold, or all.
pub proof fn tails_are_the_last_lines(t: Tail, r: Vec<String>)
    requires
        call_ensures(Tail::into_lines, (t,), r),
    ensures
        r@.len() <= t.cap(),
        r@.len() == t.cap() || r@.len() == t.seen().len(),
        forall|k: int|
            0 <= k < r@.len() ==> (#[trigger] r@[k])@ == t.seen()[t.seen().len() - r@.len() + k],
{
    assert(text::views(r@).len() == r@.len());
    assert forall|k: int| 0 <= k < r@.len() implies (#[trigger] r@[k])@ == t.seen()[t.seen().len()
        - r@.len() + k] by {
        assert(text::views(r@)[k] == r@[k]@);
    }
}

} // verus!
