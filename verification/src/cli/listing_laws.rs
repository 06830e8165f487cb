//! What holds of what the commands show, in terms of what goes in and comes out.
use crate::agent::schedule;
use crate::casing;
use crate::cli::inspect;
use crate::cli::inspect::SessionInfo;
use crate::cli::policy as trial;
use crate::domain::approval::{ActionRef, ApprovalRequest, Risk};
use crate::domain::policy;
use crate::domain::policy::{Category, Decision, Policy, Rule, Verdict};
use crate::domain::reminder::Reminder;
use crate::domain::run::Run;
use crate::sorting;
use crate::text;
use vstd::prelude::*;

verus! {

// ---------------------------------------------------------------------------
// Listings
// ---------------------------------------------------------------------------

proof fn lemma_reminder_line(r: Reminder, at: Seq<char>)
    ensures
        text::has_prefix(inspect::reminder_line(r, at), r.id@),
        text::has_suffix(inspect::reminder_line(r, at), r.message@),
        text::has_part(inspect::reminder_line(r, at), at),
        r.schedule@.len() > 0 ==> text::has_part(inspect::reminder_line(r, at), r.schedule@),
{
    let line = inspect::reminder_line(r, at);
    assert(line.subrange(0, r.id@.len() as int) =~= r.id@);
    assert(line.subrange(line.len() - r.message@.len(), line.len() as int) =~= r.message@);
    let back = "  "@ + r.message@;
    text::lemma_part_of_itself(at);
    if r.schedule@.len() > 0 {
        let front = r.id@ + "  ["@ + r.schedule@ + "]  next "@;
        assert(line =~= front + at + back);
        text::lemma_part_of_part(line, front, at, back, at);
        let after = "]  next "@ + at + back;
        assert(line =~= (r.id@ + "  ["@) + r.schedule@ + after);
        text::lemma_part_of_itself(r.schedule@);
        text::lemma_part_of_part(line, r.id@ + "  ["@, r.schedule@, after, r.schedule@);
    } else {
        let front = r.id@ + "  [one-shot]  due "@;
        assert(line =~= front + at + back);
        text::lemma_part_of_part(line, front, at, back, at);
    }
}

/// Whether a line is of a reminder: its id first, its message last, and between them when
/// it is due on a clock that stays `offset` seconds ahead of UTC, where the machine's does.
pub open spec fn shows_reminder(line: Seq<char>, r: Reminder, offset: int) -> bool {
    &&& text::has_prefix(line, r.id@)
    &&& text::has_suffix(line, r.message@)
    &&& r.schedule@.len() > 0 ==> text::has_part(line, r.schedule@)
    &&& schedule::is_fixed_clock(offset) && schedule::is_instant(r.run_at as int)
        ==> text::has_part(line, schedule::stamp_text(r.run_at as int, offset))
}

/// Every pending reminder is listed, the next one first.
pub proof fn reminders_are_listed(list: &Vec<Reminder>, r: Vec<String>, i: int, offset: int)
    requires
        call_ensures(inspect::cron_list, (list,), r),
        0 <= i < list@.len(),
    ensures
        r@.len() == list@.len(),
        exists|k: int| 0 <= k < r@.len() && shows_reminder((#[trigger] r@[k])@, list@[i], offset),
        (forall|j: int| 0 <= j < list@.len() && j != i ==> list@[i].run_at < (
        #[trigger] list@[j]).run_at) ==> shows_reminder(r@[0]@, list@[i], offset),
{
    let keys = Seq::new(list@.len(), |i: int| (list@[i].run_at, 0i64));
    sorting::ranking_is_stable(keys);
    sorting::ranking_reaches(keys, i);
    let order = inspect::reminder_order(list@);
    assert(order == sorting::ranking(keys));
    let k = choose|k: int| 0 <= k < order.len() && order[k] == i;
    assert(inspect::is_reminder_line(list@[order[k]], r@[k]@));
    let at = choose|at: Seq<char>|
        schedule::is_local_stamp(list@[i].run_at, at) && r@[k]@ == #[trigger] inspect::reminder_line(
            list@[i],
            at,
        );
    lemma_reminder_line(list@[i], at);
    assert(shows_reminder(r@[k]@, list@[i], offset));
    if forall|j: int|
        0 <= j < list@.len() && j != i ==> list@[i].run_at < (#[trigger] list@[j]).run_at {
        if k > 0 {
            let j = order[0];
            assert(sorting::key_less(keys[order[0]], keys[order[k]]) || keys[order[0]]
                == keys[order[k]] && order[0] < order[k]);
            assert(list@[i].run_at < list@[j].run_at);
        }
    }
}

/// Every run is listed in its place, by its id, and with what it was asked.
pub proof fn runs_are_listed(runs: &Vec<Run>, r: Vec<String>, i: int, offset: int)
    requires
        call_ensures(inspect::run_list, (runs,), r),
        0 <= i < runs@.len(),
    ensures
        r@.len() == runs@.len(),
        text::has_prefix(r@[i]@, runs@[i].id@),
        runs@[i].recoverable ==> text::has_part(r@[i]@, "⟲"@),
        schedule::is_fixed_clock(offset) && schedule::is_instant(runs@[i].started_at as int)
            ==> text::has_part(
            r@[i]@,
            schedule::stamp_text(runs@[i].started_at as int, offset),
        ),
{
    let run = runs@[i];
    assert(inspect::is_run_line(run, r@[i]@));
    let at = choose|at: Seq<char>|
        schedule::is_local_stamp(run.started_at, at) && r@[i]@ == #[trigger] inspect::run_line(
            run,
            at,
        );
    let line = r@[i]@;
    assert(line.subrange(0, run.id@.len() as int) =~= run.id@);
    let head = run.id@ + "  ["@ + run.status.word() + "]"@;
    let marked = if run.recoverable {
        head + " ⟲"@
    } else {
        head
    };
    let back = line.skip((marked + "  "@ + at).len() as int);
    assert(line =~= (marked + "  "@) + at + back);
    text::lemma_part_of_itself(at);
    text::lemma_part_of_part(line, marked + "  "@, at, back, at);
    if run.recoverable {
        reveal_strlit(" ⟲");
        reveal_strlit("⟲");
        let m = "⟲"@;
        assert(" ⟲"@ =~= seq![' '] + m);
        assert(line =~= (head + seq![' ']) + m + line.skip((head + " ⟲"@).len() as int));
        text::lemma_part_of_itself(m);
        text::lemma_part_of_part(
            line,
            head + seq![' '],
            m,
            line.skip((head + " ⟲"@).len() as int),
            m,
        );
    }
}

/// Every session is listed in its place, by its id, with when it was created.
pub proof fn sessions_are_listed(list: &Vec<SessionInfo>, r: Vec<String>, i: int, offset: int)
    requires
        call_ensures(inspect::session_list, (list,), r),
        0 <= i < list@.len(),
    ensures
        r@.len() == list@.len(),
        text::has_prefix(r@[i]@, list@[i].id@),
        schedule::is_fixed_clock(offset) && schedule::is_instant(list@[i].created_at as int)
            ==> text::has_part(
            r@[i]@,
            schedule::stamp_text(list@[i].created_at as int, offset),
        ),
{
    let s = list@[i];
    assert(inspect::is_session_line(s, r@[i]@));
    let at = choose|at: Seq<char>|
        schedule::is_local_stamp(s.created_at, at) && r@[i]@ == #[trigger] inspect::session_line(
            s,
            at,
        );
    let line = r@[i]@;
    assert(line.subrange(0, s.id@.len() as int) =~= s.id@);
    let front = s.id@ + "  created "@;
    let back = line.skip((front + at).len() as int);
    assert(line =~= front + at + back);
    text::lemma_part_of_itself(at);
    text::lemma_part_of_part(line, front, at, back, at);
}

// ---------------------------------------------------------------------------
// Trying a policy
// ---------------------------------------------------------------------------

/// The word for a verdict in a trial.
pub open spec fn said_verdict(v: Verdict) -> Seq<char> {
    match v {
        Verdict::Allow => "ALLOW"@,
        Verdict::Ask => "ASK"@,
        Verdict::Deny => "DENY"@,
    }
}

/// Whether a line is labelled as the verdict and, after a label of nine characters, gives
/// a word and a dash.
pub open spec fn gives_verdict(line: Seq<char>, word: Seq<char>) -> bool {
    &&& text::has_prefix(line, "verdict"@)
    &&& line.len() >= 9
    &&& text::has_prefix(line.skip(9), word + " — "@)
}

proof fn lemma_decided(word: Seq<char>, meaning: Seq<char>)
    ensures
        gives_verdict(trial::decided(word, meaning), word),
{
    reveal_strlit("verdict");
    reveal_strlit(":");
    let c = "verdict"@ + ":"@;
    assert(c.len() == 8);
    assert(text::padded(c.push(' '), 9) == c.push(' '));
    assert(trial::column("verdict"@) =~= c.push(' '));
    let line = trial::decided(word, meaning);
    let p = word + " — "@;
    assert(line.subrange(0, 7) =~= "verdict"@);
    assert(line.skip(9) =~= p + meaning);
    assert(line.skip(9).subrange(0, p.len() as int) =~= p);
}

/// An explanation begins with the verdict, and cites a rule exactly where one decided
/// against or for the action.
pub proof fn explanations_begin_with_the_verdict(
    rules: &[Rule],
    d: &Decision,
    risk: Risk,
    r: Vec<String>,
)
    requires
        call_ensures(trial::explain, (rules, d, risk), r),
    ensures
        r@.len() > 0,
        gives_verdict(r@[0]@, said_verdict(d.verdict)),
        d.rule matches Some(i) ==> d.verdict != Verdict::Ask ==> r@.len() > 1 && text::has_part(
            r@[1]@,
            "#"@ + crate::number::decimal(i as nat) + " "@,
        ),
{
    let lines = trial::explained(rules@, *d, risk);
    assert(text::views(r@) == lines);
    assert(r@.len() == lines.len());
    assert(text::views(r@)[0] == r@[0]@);
    lemma_decided("DENY"@, "hard-blocked, no prompt"@);
    lemma_decided("ALLOW"@, "auto-allowed inside a session turn (no prompt)"@);
    lemma_decided("ALLOW"@, "read-only action, no deny rule matches (deny-only evaluation)"@);
    lemma_decided("ALLOW"@, "default_normal = allow (no rule matched)"@);
    lemma_decided(
        "ASK"@,
        "escalates to interactive approval (/approve in chat, y/N at the CLI)"@,
    );
    lemma_decided("DENY"@, "default_normal = deny (no rule matched)"@);
    if let Some(i) = d.rule {
        if d.verdict != Verdict::Ask {
            assert(text::views(r@)[1] == r@[1]@);
            let line = r@[1]@;
            assert(line == trial::cited(rules@, i as int));
            let front = trial::column("matched"@);
            let number = "#"@ + crate::number::decimal(i as nat) + " "@;
            let back = text::joined(trial::rule_parts(rules@[i as int]), "  "@);
            assert(line =~= front + number + back);
            text::lemma_part_of_itself(number);
            text::lemma_part_of_part(line, front, number, back, number);
        }
    }
}

proof fn lemma_explained(rules: Seq<Rule>, d: Decision, risk: Risk)
    ensures
        trial::explained(rules, d, risk).len() > 0,
        gives_verdict(trial::explained(rules, d, risk)[0], said_verdict(d.verdict)),
{
    lemma_decided("DENY"@, "hard-blocked, no prompt"@);
    lemma_decided("ALLOW"@, "auto-allowed inside a session turn (no prompt)"@);
    lemma_decided("ALLOW"@, "read-only action, no deny rule matches (deny-only evaluation)"@);
    lemma_decided("ALLOW"@, "default_normal = allow (no rule matched)"@);
    lemma_decided(
        "ASK"@,
        "escalates to interactive approval (/approve in chat, y/N at the CLI)"@,
    );
    lemma_decided("DENY"@, "default_normal = deny (no rule matched)"@);
}

/// Whether a request is what trying a category and a target stands for: a command is
/// normal or dangerous as told, a file is safe to read and normal to write, and a fetch is
/// safe.
pub open spec fn is_tried(
    request: ApprovalRequest,
    cat: Category,
    target: Seq<char>,
    dangerous: bool,
    write: bool,
) -> bool {
    match cat {
        Category::Shell => request.action matches Some(ActionRef::Shell { command }) && command@
            == target && request.risk == if dangerous {
            Risk::Dangerous
        } else {
            Risk::Normal
        },
        Category::File => request.action matches Some(ActionRef::File { path, write: w }) && path@
            == target && w == write && request.risk == if write {
            Risk::Normal
        } else {
            Risk::Safe
        },
        Category::Network => request.action matches Some(ActionRef::Network { url }) && url@
            == target && request.risk == Risk::Safe,
        Category::HomeAssistant => false,
    }
}

/// What trying an action says is what the policy decides of it.
pub proof fn trials_say_what_would_be_decided(
    p: &Policy,
    category: &str,
    cat: Category,
    target: &str,
    channel: Option<&str>,
    dangerous: bool,
    write: bool,
    r: Result<Vec<String>, String>,
    request: &ApprovalRequest,
    d: Decision,
)
    requires
        call_ensures(trial::check, (p, category, target, channel, dangerous, write), r),
        Category::named(casing::lowercase(text::trimmed(category@))) == Some(cat),
        is_tried(*request, cat, target@, dangerous, write),
        call_ensures(Policy::decide, (p, request, channel), d),
    ensures
        r is Ok,
        r->Ok_0@.len() > 1,
        gives_verdict(r->Ok_0@[1]@, said_verdict(d.verdict)),
{
    let lines = text::views(r->Ok_0@);
    let (action, risk, e) = choose|action: ActionRef, risk: Risk, e: Decision|
        {
            &&& #[trigger] trial::is_trial(cat, target@, dangerous, write, action, risk)
            &&& #[trigger] e.is_outcome(
                policy::outcome(
                    p.rule_list(),
                    p.normal_verdict(),
                    Some(policy::aim_of(action)),
                    risk,
                    text::opt_view(channel),
                ),
            )
            &&& lines == seq![trial::trial_line(category@, target@, risk, text::opt_view(channel))]
                + trial::explained(p.rule_list(), e, risk)
        };
    assert(policy::aim_of(action) == policy::aim_of(request.action->0));
    assert(e.verdict == d.verdict);
    lemma_explained(p.rule_list(), e, risk);
    assert(lines.len() == r->Ok_0@.len());
    assert(lines[1] == r->Ok_0@[1]@);
}

} // verus!
