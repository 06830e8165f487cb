//! What holds of the texts that the model is given, in terms of what goes in and comes out.
use crate::agent::briefing;
use crate::agent::briefing::{BriefingStep, BriefingSweep};
use crate::agent::daemon::Notice;
use crate::agent::system_prompt;
use crate::agent::system_prompt::{Fingerprint, Sources, SystemPromptBuilder};
use crate::domain::memory::Memory;
use crate::domain::task::Task;
use crate::sorting;
use crate::text;
use vstd::prelude::*;

verus! {

// ---------------------------------------------------------------------------
// The system prompt
// ---------------------------------------------------------------------------

proof fn lemma_telling_keeps(parts: Seq<Seq<char>>, i: int) -> (k: int)
    requires
        0 <= i < parts.len(),
        text::trimmed(parts[i]).len() > 0,
    ensures
        0 <= k < system_prompt::telling(parts).len(),
        system_prompt::telling(parts)[k] == parts[i],
    decreases parts.len(),
{
    let short = parts.drop_last();
    let init = system_prompt::telling(short);
    let now = system_prompt::telling(parts);
    if i == parts.len() - 1 {
        now.len() - 1
    } else {
        assert(short[i] == parts[i]);
        let k = lemma_telling_keeps(short, i);
        assert(now[k] == init[k]);
        k
    }
}

proof fn lemma_spaced_holds(parts: Seq<Seq<char>>, i: int)
    requires
        0 <= i < parts.len(),
        text::trimmed(parts[i]).len() > 0,
    ensures
        text::has_part(system_prompt::spaced(parts), parts[i]),
{
    let k = lemma_telling_keeps(parts, i);
    text::lemma_joined_holds(system_prompt::telling(parts), "\n\n"@, k);
}

/// The stable part of the prompt holds the persona, the operator's where it says
/// something, the guidance of each tool that is loaded, and the note on the skills.
pub proof fn the_prompt_speaks_of_what_is_there(
    b: &SystemPromptBuilder,
    soul: &Option<String>,
    r: String,
)
    requires
        call_ensures(SystemPromptBuilder::stable, (b, soul), r),
    ensures
        *soul matches Some(s) ==> text::trimmed(s@).len() > 0 && text::trimmed(
            text::trimmed(s@),
        ).len() > 0 ==> text::has_part(r@, text::trimmed(s@)),
        *soul is None || text::trimmed(soul->0@).len() == 0 ==> text::has_part(
            r@,
            system_prompt::IDENTITY@,
        ),
        text::views(b.tool_names@).contains("time"@) ==> text::has_part(
            r@,
            system_prompt::TIME_GUIDANCE@,
        ),
        text::views(b.tool_names@).contains("reminder"@) ==> text::has_part(
            r@,
            system_prompt::REMINDER_GUIDANCE@,
        ),
        text::views(b.tool_names@).contains("session"@) || text::views(b.tool_names@).contains(
            "memory"@,
        ) || text::views(b.tool_names@).contains("skill"@) ==> text::has_part(
            r@,
            system_prompt::STATE_GUIDANCE@,
        ),
        b.note matches Some(n) ==> text::trimmed(n@).len() > 0 ==> text::has_part(r@, n@),
{
    reveal_strlit(
        "You are Shion, a concise and helpful personal agent. When a request needs live information or an action, call one of your tools instead of guessing.",
    );
    reveal_strlit(
        "Use the `time` tool when you need the exact current date and time; never invent a timestamp.",
    );
    reveal_strlit(
        "Questions about your own state — your sessions, conversation history, memories, or skills — refer to Shion's database, not the operating system: answer them with the `session`, `memory`, or `skill` tools, never with shell commands like `tmux ls` or `who`.",
    );
    reveal_strlit(
        "You CAN schedule reminders: call the `reminder` tool (action=create) with a message and a delay. Reminders are delivered as desktop notifications by the `shion gateway` background process — you do NOT count down yourself, and you must never pretend to track time in the conversation. If the user asks for a reminder, create it with the tool and relay the tool's confirmation. For recurring reminders (\"every day at 9am\"), pass a 5-field cron expression via the `cron` parameter (e.g. \"0 9 * * *\"); times are the user's local timezone. One-shot reminders use `after` or `at` as before.",
    );
    text::lemma_visible_start(system_prompt::IDENTITY@);
    text::lemma_visible_start(system_prompt::TIME_GUIDANCE@);
    text::lemma_visible_start(system_prompt::STATE_GUIDANCE@);
    text::lemma_visible_start(system_prompt::REMINDER_GUIDANCE@);
    let parts = b.stable_parts(*soul);
    let time = b.loads("time"@);
    let state = b.loads("session"@) || b.loads("memory"@) || b.loads("skill"@);
    let reminder = b.loads("reminder"@);
    let n1 = 1 + if time {
        1int
    } else {
        0
    };
    let n2 = n1 + if state {
        1int
    } else {
        0
    };
    let n3 = n2 + if reminder {
        1int
    } else {
        0
    };
    assert(parts[0] == SystemPromptBuilder::persona(*soul));
    if text::trimmed(parts[0]).len() > 0 {
        lemma_spaced_holds(parts, 0);
    }
    if time {
        assert(parts[1] == system_prompt::TIME_GUIDANCE@);
        lemma_spaced_holds(parts, 1);
    }
    if state {
        assert(parts[n1] == system_prompt::STATE_GUIDANCE@);
        lemma_spaced_holds(parts, n1);
    }
    if reminder {
        assert(parts[n2] == system_prompt::REMINDER_GUIDANCE@);
        lemma_spaced_holds(parts, n2);
    }
    if let Some(n) = b.note {
        assert(parts[n3] == n@);
        if text::trimmed(n@).len() > 0 {
            lemma_spaced_holds(parts, n3);
        }
    }
}

/// Without tools and skills the stable part is the persona alone.
pub proof fn a_bare_prompt_is_the_persona(b: &SystemPromptBuilder, soul: &Option<String>, r: String)
    requires
        call_ensures(SystemPromptBuilder::stable, (b, soul), r),
        b.tool_names@.len() == 0,
        b.note is None,
    ensures
        *soul is None || text::trimmed(soul->0@).len() == 0 ==> r@ == system_prompt::IDENTITY@,
{
    reveal_strlit(
        "You are Shion, a concise and helpful personal agent. When a request needs live information or an action, call one of your tools instead of guessing.",
    );
    text::lemma_visible_start(system_prompt::IDENTITY@);
    system_prompt::guidance_follows_the_tools(*b, *soul);
    if *soul is None || text::trimmed(soul->0@).len() == 0 {
        let parts = seq![system_prompt::IDENTITY@];
        assert(b.stable_parts(*soul) =~= parts);
        assert(parts.drop_last() =~= Seq::empty());
        assert(system_prompt::telling(parts.drop_last()) =~= Seq::empty());
        assert(system_prompt::telling(parts) =~= parts);
        assert(text::joined(parts, "\n\n"@) =~= parts[0]);
    }
}

/// Whether a file was read and says something.
pub open spec fn has_content(file: Option<String>) -> bool {
    file is Some && text::trimmed(file->0@).len() > 0
}

proof fn lemma_context(names: Seq<Seq<char>>, files: Seq<Option<String>>, i: int, n: int)
    requires
        0 <= i <= n <= files.len(),
        forall|k: int| i <= k < n ==> !has_content(#[trigger] files[k]),
    ensures
        system_prompt::context_from(names, files, i) == system_prompt::context_from(
            names,
            files,
            n,
        ),
    decreases n - i,
{
    if i < n {
        assert(!has_content(files[i]));
        lemma_context(names, files, i + 1, n);
    }
}

/// The first project instruction file that says something is given under its name: whole
/// where it has at most twenty thousand characters, and by its beginning where it has more.
pub proof fn the_first_file_that_speaks_is_given(
    b: &SystemPromptBuilder,
    files: &Vec<Option<String>>,
    r: String,
    n: int,
)
    requires
        call_ensures(SystemPromptBuilder::context, (b, files), r),
        files@.len() == b.names@.len(),
        b.root is Some,
        0 <= n < files@.len(),
        has_content(files@[n]),
        forall|k: int| 0 <= k < n ==> !has_content(#[trigger] files@[k]),
    ensures
        text::has_part(r@, b.names@[n]@),
        text::trimmed(files@[n]->0@).len() <= 20_000 ==> text::has_suffix(
            r@,
            text::trimmed(files@[n]->0@),
        ),
        text::trimmed(files@[n]->0@).len() > 20_000 ==> text::has_part(
            r@,
            text::trimmed(files@[n]->0@).take(20_000),
        ) && text::has_suffix(r@, "\n\n[... truncated]"@),
{
    let names = text::views(b.names@);
    lemma_context(names, files@, 0, n);
    let body = text::trimmed(files@[n]->0@);
    let lead = "The following are project instructions from `"@;
    let then = "` in the working directory:\n\n"@;
    let given = system_prompt::headed(body, 20_000);
    assert(r@ =~= lead + names[n] + (then + given));
    text::lemma_part_of_itself(names[n]);
    text::lemma_part_of_part(r@, lead, names[n], then + given, names[n]);
    if body.len() <= 20_000 {
        assert(r@.subrange(r@.len() - body.len(), r@.len() as int) =~= body);
    } else {
        let mark = "\n\n[... truncated]"@;
        let cut = body.take(20_000);
        assert(r@ =~= (lead + names[n] + then) + cut + mark);
        text::lemma_part_of_itself(cut);
        text::lemma_part_of_part(r@, lead + names[n] + then, cut, mark, cut);
        assert(r@.subrange(r@.len() - mark.len(), r@.len() as int) =~= mark);
    }
}

/// Without a workspace, and where no file says anything, no instructions are given.
pub proof fn silent_files_give_nothing(
    b: &SystemPromptBuilder,
    files: &Vec<Option<String>>,
    r: String,
)
    requires
        call_ensures(SystemPromptBuilder::context, (b, files), r),
        b.root is None || forall|k: int|
            0 <= k < files@.len() ==> !has_content(#[trigger] files@[k]),
    ensures
        r@.len() == 0,
{
    if b.root is Some {
        lemma_context(text::views(b.names@), files@, 0, files@.len() as int);
    }
}

/// The changing part of the prompt names the day, the model and its provider.
pub proof fn the_prompt_names_day_and_model(b: &SystemPromptBuilder, today: &str, r: String)
    requires
        call_ensures(SystemPromptBuilder::volatile_on, (b, today), r),
    ensures
        text::has_part(r@, today@),
        text::has_part(r@, b.model@),
        text::has_suffix(r@, b.provider@),
{
    let x = "Today's date is "@;
    let y = ".\nModel: "@;
    let z = "\nProvider: "@;
    assert(r@ =~= x + today@ + (y + b.model@ + z + b.provider@));
    text::lemma_part_of_itself(today@);
    text::lemma_part_of_part(r@, x, today@, y + b.model@ + z + b.provider@, today@);
    assert(r@ =~= (x + today@ + y) + b.model@ + (z + b.provider@));
    text::lemma_part_of_itself(b.model@);
    text::lemma_part_of_part(r@, x + today@ + y, b.model@, z + b.provider@, b.model@);
    assert(r@.subrange(r@.len() - b.provider@.len(), r@.len() as int) =~= b.provider@);
}

/// Where no file changed since a build, the next does not read them, and begins as the
/// build before it did; where one changed they are read.
pub proof fn unchanged_files_are_not_read(
    b: &mut SystemPromptBuilder,
    fingerprint: Fingerprint,
    sources: &Sources,
    today: &str,
    first: String,
    after: &SystemPromptBuilder,
    same: &Fingerprint,
    other: &Fingerprint,
    r: bool,
    s: bool,
)
    requires
        call_ensures(SystemPromptBuilder::build_on, (b, fingerprint, sources, today), first),
        *after == *final(b),
        same@ == fingerprint@,
        other@ != fingerprint@,
        call_ensures(SystemPromptBuilder::needs_sources, (after, same), r),
        call_ensures(SystemPromptBuilder::needs_sources, (after, other), s),
    ensures
        !r,
        s,
{
}

/// Where the lines of the pinned memories fit their budget, each of them is given, with
/// what it says.
pub proof fn pinned_memories_are_given(pinned: &Vec<Memory>, r: Option<String>, i: int)
    requires
        call_ensures(system_prompt::render_pinned_memory_block, (pinned,), r),
        0 <= i < pinned@.len(),
        system_prompt::bytes_of(system_prompt::memory_lines(pinned@, false)) <= 800,
    ensures
        r is Some,
        text::has_part(r->0@, text::trimmed(pinned@[i].content@)),
{
    let lines = system_prompt::memory_lines(pinned@, false);
    system_prompt::fitting_lines_are_kept(lines, 800);
    lemma_block_holds(
        r->0@,
        system_prompt::PINNED_OPEN@,
        system_prompt::PINNED_HEADER@,
        system_prompt::PINNED_CLOSE@,
        lines,
        i,
    );
    let m = pinned@[i];
    let said = text::trimmed(m.content@);
    let lead = "- ["@ + m.kind.word() + "/"@ + m.confidence.word() + "/"@ + m.scope@.word()
        + "] "@;
    assert(lines[i] =~= lead + said + Seq::empty());
    text::lemma_part_of_itself(said);
    text::lemma_part_of_part(lines[i], lead, said, Seq::empty(), said);
    text::lemma_part_chain(r->0@, lines[i], said);
}

proof fn lemma_block_holds(
    s: Seq<char>,
    open: Seq<char>,
    header: Seq<char>,
    close: Seq<char>,
    lines: Seq<Seq<char>>,
    i: int,
)
    requires
        0 <= i < lines.len(),
        s == open + "\n"@ + header + "\n\n"@ + text::joined(lines, "\n"@) + "\n"@ + close,
    ensures
        text::has_part(s, lines[i]),
{
    let mid = text::joined(lines, "\n"@);
    text::lemma_joined_holds(lines, "\n"@, i);
    let front = open + "\n"@ + header + "\n\n"@;
    let back = "\n"@ + close;
    assert(s =~= front + mid + back);
    text::lemma_part_of_part(s, front, mid, back, lines[i]);
}

/// Where the lines of the recalled memories fit their budget, each of them is given, with
/// what it says and where it came from.
pub proof fn recalled_memories_are_given(hits: &Vec<Memory>, r: Option<String>, i: int)
    requires
        call_ensures(system_prompt::render_recalled_memory_block, (hits,), r),
        0 <= i < hits@.len(),
        system_prompt::bytes_of(system_prompt::memory_lines(hits@, true)) <= 2000,
    ensures
        r is Some,
        text::has_part(r->0@, text::trimmed(hits@[i].content@)),
        hits@[i].source@.len() > 0 ==> text::has_part(r->0@, hits@[i].source@),
{
    let lines = system_prompt::memory_lines(hits@, true);
    system_prompt::fitting_lines_are_kept(lines, 2000);
    lemma_block_holds(
        r->0@,
        system_prompt::RECALL_OPEN@,
        system_prompt::RECALL_HEADER@,
        system_prompt::RECALL_CLOSE@,
        lines,
        i,
    );
    let m = hits@[i];
    let said = text::trimmed(m.content@);
    let head = "- ["@ + m.kind.word() + "/"@ + m.confidence.word() + "/"@ + m.scope@.word();
    let lead = if m.source@.len() == 0 {
        head
    } else {
        head + "/source:"@ + m.source@
    };
    assert(lines[i] =~= (lead + "] "@) + said + Seq::empty());
    text::lemma_part_of_itself(said);
    text::lemma_part_of_part(lines[i], lead + "] "@, said, Seq::empty(), said);
    text::lemma_part_chain(r->0@, lines[i], said);
    if m.source@.len() > 0 {
        assert(lines[i] =~= (head + "/source:"@) + m.source@ + ("] "@ + said));
        text::lemma_part_of_itself(m.source@);
        text::lemma_part_of_part(
            lines[i],
            head + "/source:"@,
            m.source@,
            "] "@ + said,
            m.source@,
        );
        text::lemma_part_chain(r->0@, lines[i], m.source@);
    }
}

// ---------------------------------------------------------------------------
// The briefing
// ---------------------------------------------------------------------------

/// Whether anything is worth a briefing: a task, or a memory of the last seven days.
pub open spec fn worth_telling(tasks: Seq<Task>, memories: Seq<Memory>, now: i64) -> bool {
    tasks.len() > 0 || exists|i: int|
        0 <= i < memories.len() && now - (#[trigger] memories[i]).created_at <= 604_800
}

proof fn lemma_recent(memories: Seq<Memory>, now: i64)
    ensures
        briefing::recent(memories, now).len() > 0 <==> exists|i: int|
            0 <= i < memories.len() && now - (#[trigger] memories[i]).created_at <= 604_800,
{
    let flags = Seq::new(memories.len(), |i: int| now - memories[i].created_at <= 604_800);
    assert(flags =~= Seq::new(
        memories.len(),
        |i: int| now - memories[i].created_at <= crate::agent::daemon::BRIEFING_MEMORY_WINDOW_SECS,
    ));
    sorting::chosen_is_exact(flags);
    if exists|i: int|
        0 <= i < memories.len() && now - (#[trigger] memories[i]).created_at <= 604_800 {
        let i = choose|i: int|
            0 <= i < memories.len() && now - (#[trigger] memories[i]).created_at <= 604_800;
        assert(flags[i]);
        assert(sorting::chosen(flags).contains(i));
    }
    if briefing::recent(memories, now).len() > 0 {
        let i = sorting::chosen(flags)[0];
        assert(flags[i]);
        assert(now - memories[i].created_at <= 604_800);
    }
}

/// A briefing is silent exactly where there is neither a task nor a memory of the last
/// seven days; otherwise it asks an agent where there is one, and composes where not.
pub proof fn briefings_are_silent_when_nothing_is_new(
    sweep: &BriefingSweep,
    now: i64,
    r: BriefingStep,
)
    requires
        call_ensures(BriefingSweep::run, (sweep, now), r),
    ensures
        r is Silent <==> !worth_telling(sweep.tasks@, sweep.memories@, now),
        worth_telling(sweep.tasks@, sweep.memories@, now) ==> (r is AskAgent <==> sweep.runtime)
            && (r is Compose <==> !sweep.runtime),
        r matches BriefingStep::AskAgent(asked, plain) ==> text::has_prefix(asked@, plain@),
{
    lemma_recent(sweep.memories@, now);
    if let BriefingStep::AskAgent(asked, plain) = r {
        assert(asked@.subrange(0, plain@.len() as int) =~= plain@);
    }
}

proof fn lemma_stacked_holds(lines: Seq<Seq<char>>, i: int)
    requires
        0 <= i < lines.len(),
    ensures
        text::has_part(briefing::stacked(lines), lines[i]),
    decreases lines.len(),
{
    let init = briefing::stacked(lines.drop_last());
    let whole = briefing::stacked(lines);
    if i == lines.len() - 1 {
        text::lemma_part_of_itself(lines[i]);
        text::lemma_part_of_part(whole, init, lines[i], "\n"@, lines[i]);
    } else {
        lemma_stacked_holds(lines.drop_last(), i);
        assert(lines.drop_last()[i] == lines[i]);
        assert(whole =~= Seq::<char>::empty() + init + (lines.last() + "\n"@));
        text::lemma_part_of_part(whole, Seq::empty(), init, lines.last() + "\n"@, lines[i]);
    }
}

/// Whether a task's line in a briefing tells its title, whom it waits on, and that it is
/// overdue exactly where its time has passed.
pub open spec fn tells_task(line: Seq<char>, t: Task, now: i64) -> bool {
    &&& text::has_part(line, t.title@)
    &&& t.waiting_on@.len() > 0 ==> text::has_part(line, t.waiting_on@)
    &&& t.due_at matches Some(d) ==> d < now ==> text::has_part(line, " (OVERDUE "@)
    &&& t.due_at matches Some(d) ==> d >= now ==> text::has_part(line, " (due "@)
}

proof fn lemma_task_line(t: Task, due: Seq<char>, now: i64)
    ensures
        tells_task(briefing::task_line(t, due, now), t, now),
{
    let line = briefing::task_line(t, due, now);
    let lead = "- ["@ + t.status.word() + "] "@;
    let wait = if t.waiting_on@.len() == 0 {
        Seq::empty()
    } else {
        " (waiting on: "@ + t.waiting_on@ + ")"@
    };
    let dated = match t.due_at {
        Some(d) => " ("@ + (if d < now {
            "OVERDUE"@
        } else {
            "due"@
        }) + " "@ + due + ")"@,
        None => Seq::empty(),
    };
    assert(line =~= lead + t.title@ + (dated + wait));
    text::lemma_part_of_itself(t.title@);
    text::lemma_part_of_part(line, lead, t.title@, dated + wait, t.title@);
    if t.waiting_on@.len() > 0 {
        assert(line =~= (lead + t.title@ + dated + " (waiting on: "@) + t.waiting_on@ + ")"@);
        text::lemma_part_of_itself(t.waiting_on@);
        text::lemma_part_of_part(
            line,
            lead + t.title@ + dated + " (waiting on: "@,
            t.waiting_on@,
            ")"@,
            t.waiting_on@,
        );
    }
    if let Some(d) = t.due_at {
        reveal_strlit(" (OVERDUE ");
        reveal_strlit(" (due ");
        reveal_strlit(" (");
        reveal_strlit("OVERDUE");
        reveal_strlit("due");
        reveal_strlit(" ");
        let word = if d < now {
            " (OVERDUE "@
        } else {
            " (due "@
        };
        assert(" ("@ + "OVERDUE"@ + " "@ =~= " (OVERDUE "@);
        assert(" ("@ + "due"@ + " "@ =~= " (due "@);
        assert(dated =~= word + (due + ")"@));
        assert(line =~= (lead + t.title@) + word + (due + ")"@ + wait));
        text::lemma_part_of_itself(word);
        text::lemma_part_of_part(line, lead + t.title@, word, due + ")"@ + wait, word);
    }
}

/// With at most ten tasks, each of them is told in the digest of a briefing.
pub proof fn every_task_is_in_the_digest(
    tasks: Seq<Task>,
    dues: Seq<Seq<char>>,
    memories: Seq<Memory>,
    now: i64,
    i: int,
)
    requires
        0 <= i < tasks.len() <= 10,
        tasks.len() == dues.len(),
    ensures
        text::has_part(
            briefing::digest(tasks, dues, memories, now),
            briefing::task_line(tasks[i], dues[i], now),
        ),
        tells_task(briefing::task_line(tasks[i], dues[i], now), tasks[i], now),
{
    lemma_task_line(tasks[i], dues[i], now);
    let keys = Seq::new(tasks.len(), |i: int| briefing::task_key(tasks[i]));
    sorting::ranking_is_stable(keys);
    sorting::ranking_reaches(keys, i);
    let order = sorting::ranking(keys);
    let k = choose|k: int| 0 <= k < order.len() && order[k] == i;
    let lines = briefing::task_lines(tasks, dues, now);
    let line = briefing::task_line(tasks[i], dues[i], now);
    assert(lines[k] == line);
    lemma_stacked_holds(lines, k);
    let whole = briefing::digest(tasks, dues, memories, now);
    let lead = Seq::<char>::empty() + "Open tasks ("@ + crate::number::decimal(tasks.len())
        + "):\n"@;
    let learned = briefing::recent(memories, now).len();
    let rest = if learned == 0 {
        Seq::empty()
    } else {
        "\nRecently learned ("@ + crate::number::decimal(learned) + "):\n"@ + briefing::capped(
            briefing::memory_lines(memories, now),
        )
    };
    assert(whole =~= lead + briefing::stacked(lines) + rest);
    text::lemma_part_of_part(whole, lead, briefing::stacked(lines), rest, line);
}

/// With at most ten tasks, a briefing names each whose title ends in a visible character,
/// and says of one that is past its time that it is overdue.
pub proof fn briefings_name_every_task(
    tasks: &Vec<Task>,
    dues: &Vec<String>,
    memories: &Vec<Memory>,
    now: i64,
    r: Option<String>,
    i: int,
)
    requires
        call_ensures(briefing::compose_prompt, (tasks, dues, memories, now), r),
        tasks@.len() == dues@.len(),
        0 <= i < tasks@.len() <= 10,
        tasks@[i].title@.len() > 0,
        !text::is_white(tasks@[i].title@.last()),
    ensures
        r is Some,
        text::has_part(r->0@, tasks@[i].title@),
        text::has_prefix(r->0@, briefing::BRIEFING_HEAD@),
{
    let d = text::views(dues@);
    every_task_is_in_the_digest(tasks@, d, memories@, now, i);
    let whole = briefing::digest(tasks@, d, memories@, now);
    let title = tasks@[i].title@;
    text::lemma_part_chain(whole, briefing::task_line(tasks@[i], d[i], now), title);
    text::lemma_part_survives_trim(whole, title);
    let head = briefing::BRIEFING_HEAD@;
    let tail = text::trim_end(whole);
    assert(r->0@ =~= head + tail + Seq::empty());
    text::lemma_part_of_part(r->0@, head, tail, Seq::empty(), title);
    assert(r->0@.subrange(0, head.len() as int) =~= head);
}

/// A composed briefing goes out trimmed, and not at all where it says nothing.
pub proof fn empty_briefings_do_not_go_out(composed: &str, r: Option<Notice>)
    requires
        call_ensures(BriefingSweep::delivery, (composed,), r),
    ensures
        r is None <==> text::trimmed(composed@).len() == 0,
        r matches Some(n) ==> n.body@ == text::trimmed(composed@) && n.title@
            == "Komo daily briefing"@,
{
}

/// A failed agent turn never costs the briefing: it is composed plainly instead.
pub proof fn failed_turns_fall_back(
    plain: String,
    reply: Result<String, String>,
    r: Result<String, BriefingStep>,
)
    requires
        call_ensures(BriefingSweep::after_agent, (plain, reply), r),
    ensures
        reply matches Ok(t) ==> r is Ok && r->Ok_0@ == t@,
        reply is Err ==> r is Err && r->Err_0 is Compose && r->Err_0->Compose_0@ == plain@,
{
}

} // verus!
