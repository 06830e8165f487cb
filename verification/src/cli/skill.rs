//! Governance over the skill store.
use crate::agent::schedule;
use crate::agent::schedule::local_stamp;
use crate::domain::skill::Skill;
use crate::number;
use crate::text;
use vstd::prelude::*;
use vstd::string::*;

verus! {

/// When a change of the store takes effect.
pub const RELOAD_HINT: &'static str =
    "Takes effect on the agent's next `skill` list (no restart needed).";

/// A text on one line of at most `max` characters.
pub open spec fn on_one_line(s: Seq<char>, max: nat) -> Seq<char> {
    let flat = text::respaced(s, " "@);
    if flat.len() <= max {
        flat
    } else {
        text::head(flat, if max == 0 {
            0
        } else {
            max - 1
        }) + "…"@
    }
}

/// A text on one line of at most `max` characters.
pub fn oneline(value: &str, max: usize) -> (r: String)
    ensures
        r@ == on_one_line(value@, max as nat),
{
    let words = text::split_words(value);
    let flat = text::join(&words, " ");
    let len: usize = flat.as_str().unicode_len();
    if len <= max {
        return flat;
    }
    let keep: usize = if max == 0 {
        0
    } else {
        max - 1
    };
    let mut out = text::take(&flat, keep).to_owned();
    out.push_str("…");
    out
}

/// A text on one line never takes more than the characters allowed.
pub proof fn one_line_is_bounded(s: Seq<char>, max: nat)
    requires
        max > 0,
    ensures
        on_one_line(s, max).len() <= max,
{
    reveal_strlit("…");
    assert("…"@.len() == 1);
}

/// A skill's line.
pub open spec fn skill_line(s: Skill, prefix: Seq<char>) -> Seq<char> {
    let named = prefix + s.name@;
    let locked = if s.protected {
        named + " 🔒"@
    } else {
        named
    };
    let off = if s.disabled {
        locked + " [disabled]"@
    } else {
        locked
    };
    off + "  "@ + on_one_line(s.description@, 80)
}

fn line_of(s: &Skill) -> (r: String)
    ensures
        r@ == skill_line(*s, "  "@),
{
    let mut out = text::prefixed("  ", &s.name);
    if s.protected {
        out.push_str(" 🔒");
    }
    if s.disabled {
        out.push_str(" [disabled]");
    }
    out.push_str("  ");
    out.push_str(&oneline(&s.description, 80));
    out
}

/// The lines of skills under a heading; nothing where there are none.
pub open spec fn section(heading: Seq<char>, skills: Seq<Skill>) -> Seq<Seq<char>> {
    if skills.len() == 0 {
        Seq::empty()
    } else {
        seq![heading] + skills.map_values(|s: Skill| skill_line(s, "  "@))
    }
}

fn show_section(heading: String, skills: &Vec<Skill>) -> (r: Vec<String>)
    ensures
        text::views(r@) == section(heading@, skills@),
{
    if skills.len() == 0 {
        let out: Vec<String> = Vec::new();
        assert(text::views(out@) =~= Seq::empty());
        return out;
    }
    let ghost first = seq![heading@];
    let ghost all = skills@.map_values(|s: Skill| skill_line(s, "  "@));
    let mut out = text::only(heading);
    let mut i: usize = 0;
    assert(text::views(out@) =~= first + all.take(0));
    while i < skills.len()
        invariant
            i <= skills.len(),
            all == skills@.map_values(|s: Skill| skill_line(s, "  "@)),
            text::views(out@) == first + all.take(i as int),
        decreases skills.len() - i,
    {
        text::append_line(&mut out, line_of(&skills[i]));
        i = i + 1;
        assert(text::views(out@) =~= first + all.take(i as int));
    }
    assert(all.take(i as int) =~= all);
    out
}

/// A candidate's line.
pub open spec fn candidate_line(s: Skill) -> Seq<char> {
    "  "@ + s.name@ + "  ["@ + s.source@ + "]  "@ + on_one_line(s.description@, 80)
}

/// The lines of candidates under their heading; nothing where there are none.
pub open spec fn candidate_section(skills: Seq<Skill>) -> Seq<Seq<char>> {
    if skills.len() == 0 {
        Seq::empty()
    } else {
        seq!["candidates (`komo skills promote|reject <name>`):"@] + skills.map_values(
            |s: Skill| candidate_line(s),
        )
    }
}

fn show_candidates(skills: &Vec<Skill>) -> (r: Vec<String>)
    ensures
        text::views(r@) == candidate_section(skills@),
{
    if skills.len() == 0 {
        let out: Vec<String> = Vec::new();
        assert(text::views(out@) =~= Seq::empty());
        return out;
    }
    let ghost first = seq!["candidates (`komo skills promote|reject <name>`):"@];
    let ghost all = skills@.map_values(|s: Skill| candidate_line(s));
    let mut out = text::only("candidates (`komo skills promote|reject <name>`):".to_owned());
    let mut i: usize = 0;
    assert(text::views(out@) =~= first + all.take(0));
    while i < skills.len()
        invariant
            i <= skills.len(),
            all == skills@.map_values(|s: Skill| candidate_line(s)),
            text::views(out@) == first + all.take(i as int),
        decreases skills.len() - i,
    {
        let s = &skills[i];
        let mut line = text::between("  ", &s.name, "  [");
        line.push_str(&s.source);
        line.push_str("]  ");
        line.push_str(&oneline(&s.description, 80));
        text::append_line(&mut out, line);
        i = i + 1;
        assert(text::views(out@) =~= first + all.take(i as int));
    }
    assert(all.take(i as int) =~= all);
    out
}

/// Whether a skill of that name is among some.
pub open spec fn names_one(skills: Seq<Skill>, name: Seq<char>) -> bool {
    exists|i: int| 0 <= i < skills.len() && (#[trigger] skills[i]).name@ == name
}

fn has_name(skills: &Vec<Skill>, name: &str) -> (r: bool)
    ensures
        r == names_one(skills@, name@),
{
    let mut i: usize = 0;
    while i < skills.len()
        invariant
            i <= skills.len(),
            forall|k: int| 0 <= k < i ==> (#[trigger] skills@[k]).name@ != name@,
        decreases skills.len() - i,
    {
        if text::same(&skills[i].name, name) {
            return true;
        }
        i = i + 1;
    }
    false
}

/// The shared skills that no managed one shadows.
pub open spec fn unshadowed(shared: Seq<Skill>, managed: Seq<Skill>) -> Seq<Skill>
    decreases shared.len(),
{
    if shared.len() == 0 {
        Seq::empty()
    } else if names_one(managed, shared.last().name@) {
        unshadowed(shared.drop_last(), managed)
    } else {
        unshadowed(shared.drop_last(), managed).push(shared.last())
    }
}

fn drop_shadowed(shared: &Vec<Skill>, managed: &Vec<Skill>) -> (r: Vec<Skill>)
    ensures
        r@ == unshadowed(shared@, managed@),
{
    let mut out: Vec<Skill> = Vec::new();
    let mut i: usize = 0;
    while i < shared.len()
        invariant
            i <= shared.len(),
            out@ == unshadowed(shared@.take(i as int), managed@),
        decreases shared.len() - i,
    {
        assert(shared@.take(i + 1).drop_last() =~= shared@.take(i as int));
        if !has_name(managed, &shared[i].name) {
            out.push(shared[i].clone());
        }
        i = i + 1;
    }
    assert(shared@.take(i as int) =~= shared@);
    out
}

/// The skills: the managed ones, the shared ones they do not shadow, and the candidates.
pub open spec fn listing(
    managed: Seq<Skill>,
    root: Seq<char>,
    shared: Seq<Skill>,
    shared_root: Seq<char>,
    candidates: Seq<Skill>,
) -> Seq<Seq<char>> {
    let others = unshadowed(shared, managed);
    if managed.len() == 0 && candidates.len() == 0 && others.len() == 0 {
        seq!["No skills in "@ + root + " or ~/.agents/skills."@]
    } else {
        section("managed ("@ + root + "):"@, managed) + section(
            "shared ("@ + shared_root + "; read-only):"@,
            others,
        ) + candidate_section(candidates)
    }
}

/// The skills: the managed ones, the shared ones they do not shadow, and the candidates.
pub fn list(
    managed: &Vec<Skill>,
    root: &str,
    shared: &Vec<Skill>,
    shared_root: &str,
    candidates: &Vec<Skill>,
) -> (r: Vec<String>)
    ensures
        text::views(r@) == listing(managed@, root@, shared@, shared_root@, candidates@),
{
    let others = drop_shadowed(shared, managed);
    if managed.len() == 0 && candidates.len() == 0 && others.len() == 0 {
        return text::only(text::between("No skills in ", root, " or ~/.agents/skills."));
    }
    let mut out = show_section(text::between("managed (", root, "):"), managed);
    let shown = show_section(text::between("shared (", shared_root, "; read-only):"), &others);
    text::append_lines(&mut out, shown);
    text::append_lines(&mut out, show_candidates(candidates));
    out
}

/// Where a skill was found.
#[derive(Debug, Clone, Copy, PartialEq, Eq, Structural)]
pub enum Found {
    Active,
    Shared,
    Candidate,
}

/// Where the skill of a name is read from: the managed store first, then the shared one,
/// then the candidates.
pub open spec fn found_in(active: bool, shared: bool, candidate: bool) -> Option<Found> {
    if active {
        Some(Found::Active)
    } else if shared {
        Some(Found::Shared)
    } else if candidate {
        Some(Found::Candidate)
    } else {
        None
    }
}

/// A skill as it can be read, with where it was found.
#[derive(Debug)]
pub struct ReadableSkill {
    pub skill: Skill,
    pub status: Found,
    pub path: String,
    pub history: Vec<String>,
}

impl Found {
    /// How it reads.
    pub open spec fn word(self) -> Seq<char> {
        match self {
            Found::Active => "active"@,
            Found::Shared => "shared (read-only)"@,
            Found::Candidate => "candidate"@,
        }
    }

    pub fn as_str(&self) -> (r: &'static str)
        ensures
            r@ == self.word(),
    {
        match self {
            Found::Active => "active",
            Found::Shared => "shared (read-only)",
            Found::Candidate => "candidate",
        }
    }
}

/// The skill that is read under a name, given what each store holds under it: `active`
/// and `candidate` with their paths from the managed store, `shared` with its path.
pub fn find_readable_skill(
    active: Option<(Skill, String)>,
    shared: Option<(Skill, String)>,
    candidate: Option<(Skill, String)>,
    history: Vec<String>,
) -> (r: Option<ReadableSkill>)
    ensures
        match found_in(active is Some, shared is Some, candidate is Some) {
            None => r is None,
            Some(place) => {
                &&& r is Some
                &&& r->Some_0.status == place
                &&& place == Found::Active ==> r->Some_0.skill == active->Some_0.0
                    && r->Some_0.path == active->Some_0.1 && r->Some_0.history == history
                &&& place == Found::Shared ==> r->Some_0.skill == shared->Some_0.0
                    && r->Some_0.path == shared->Some_0.1 && r->Some_0.history@.len() == 0
                &&& place == Found::Candidate ==> r->Some_0.skill == candidate->Some_0.0
                    && r->Some_0.path == candidate->Some_0.1 && r->Some_0.history == history
            },
        },
{
    if let Some((skill, path)) = active {
        return Some(ReadableSkill { skill, status: Found::Active, path, history });
    }
    if let Some((skill, path)) = shared {
        return Some(ReadableSkill { skill, status: Found::Shared, path, history: Vec::new() });
    }
    if let Some((skill, path)) = candidate {
        return Some(ReadableSkill { skill, status: Found::Candidate, path, history });
    }
    None
}

/// A managed skill wins over a shared one of its name, and a shared one over a candidate.
pub proof fn managed_skills_come_first(shared: bool, candidate: bool)
    ensures
        found_in(true, shared, candidate) == Some(Found::Active),
        found_in(false, true, candidate) == Some(Found::Shared),
        found_in(false, false, true) == Some(Found::Candidate),
{
}

/// What is said of a skill that is nowhere.
pub fn no_such_skill(name: &str, root: &str) -> (r: String)
    ensures
        r@ == "no skill named `"@ + name@ + "` in "@ + root@ + " or ~/.agents/skills"@,
{
    let mut out = text::between("no skill named `", name, "` in ");
    out.push_str(root);
    out.push_str(" or ~/.agents/skills");
    out
}

/// A skill in full.
pub open spec fn card(name: Seq<char>, found: ReadableSkill) -> Seq<Seq<char>> {
    let s = found.skill;
    let stated = if s.protected {
        "status     "@ + found.status.word() + " 🔒 protected"@
    } else {
        "status     "@ + found.status.word()
    };
    let state = if s.disabled {
        stated + " [disabled]"@
    } else {
        stated
    };
    seq![
        "skill      "@ + s.name@,
        state,
        "source     "@ + s.source@,
        "path       "@ + found.path@,
    ] + text::one_if(s.description@.len() > 0, "describes  "@ + s.description@) + text::one_if(
        found.history@.len() > 0,
        "history    "@ + number::decimal(found.history@.len()) + " prior version(s): "@
            + text::joined(text::views(found.history@), ", "@),
    ) + seq![
        "audit      `komo skills audit "@ + name + "` shows which turns loaded it"@,
        "\n"@ + s.instructions@,
    ]
}

/// A skill in full: status, provenance, path, prior versions and instructions.
pub fn inspect(name: &str, found: &ReadableSkill) -> (r: Vec<String>)
    ensures
        text::views(r@) == card(name@, *found),
{
    let s = &found.skill;
    let mut out = text::only(text::prefixed("skill      ", &s.name));
    let mut state = text::prefixed("status     ", found.status.as_str());
    if s.protected {
        state.push_str(" 🔒 protected");
    }
    if s.disabled {
        state.push_str(" [disabled]");
    }
    text::append_line(&mut out, state);
    text::append_line(&mut out, text::prefixed("source     ", &s.source));
    text::append_line(&mut out, text::prefixed("path       ", &found.path));
    let ghost head = text::views(out@);
    assert(head =~= seq![
        "skill      "@ + s.name@,
        state@,
        "source     "@ + s.source@,
        "path       "@ + found.path@,
    ]);
    text::append_if(
        &mut out,
        !s.description.as_str().is_empty(),
        text::prefixed("describes  ", &s.description),
    );
    let mut history = text::between(
        "history    ",
        &number::write_size(found.history.len()),
        " prior version(s): ",
    );
    history.push_str(&text::join(&found.history, ", "));
    text::append_if(&mut out, found.history.len() > 0, history);
    text::append_line(
        &mut out,
        text::between("audit      `komo skills audit ", name, "` shows which turns loaded it"),
    );
    text::append_line(&mut out, text::prefixed("\n", &s.instructions));
    assert(text::views(out@) =~= card(name@, *found));
    out
}

/// A turn that loaded a skill.
#[derive(Debug)]
pub struct SkillInvocation {
    pub run_id: String,
    pub seq: i64,
    pub ok: bool,
    pub started_at: i64,
}

/// The line of a turn that loaded a skill, where `at` is how its time reads.
pub open spec fn invocation_line(i: SkillInvocation, at: Seq<char>) -> Seq<char> {
    at + "  "@ + if i.ok {
        "ok "@
    } else {
        "ERR"@
    } + "  step #"@ + number::signed(i.seq as int) + "  "@ + i.run_id@
}

/// Whether `line` is the line of such a turn for some reading of its time.
pub open spec fn is_invocation_line(i: SkillInvocation, line: Seq<char>) -> bool {
    exists|at: Seq<char>|
        schedule::is_local_stamp(i.started_at, at) && line == #[trigger] invocation_line(i, at)
}

/// The line of a turn that loaded a skill, where `at` is how its time reads.
pub fn line_of_invocation(i: &SkillInvocation, at: &str) -> (r: String)
    ensures
        r@ == invocation_line(*i, at@),
{
    let mut out = at.to_owned();
    out.push_str("  ");
    if i.ok {
        out.push_str("ok ");
    } else {
        out.push_str("ERR");
    }
    out.push_str("  step #");
    out.push_str(&number::write_signed(i.seq));
    out.push_str("  ");
    out.push_str(&i.run_id);
    out
}

/// Which turns loaded a skill, times on the machine's own wall clock.
pub fn audit(name: &str, list: &Vec<SkillInvocation>) -> (r: Vec<String>)
    ensures
        list@.len() == 0 ==> text::views(r@) == seq![
            "No recorded loads of `"@ + name@ + "` in the run ledger."@,
        ],
        list@.len() > 0 ==> {
            &&& r@.len() == list@.len() + 1
            &&& r@.last()@ == "\n(`komo run inspect <id>` shows the full turn.)"@
            &&& forall|k: int|
                0 <= k < list@.len() ==> is_invocation_line(list@[k], (#[trigger] r@[k])@)
        },
{
    if list.len() == 0 {
        return text::only(
            text::between("No recorded loads of `", name, "` in the run ledger."),
        );
    }
    let mut out: Vec<String> = Vec::new();
    let mut j: usize = 0;
    while j < list.len()
        invariant
            j <= list.len(),
            out@.len() == j,
            forall|k: int| 0 <= k < j ==> is_invocation_line(list@[k], (#[trigger] out@[k])@),
        decreases list.len() - j,
    {
        let at = local_stamp(list[j].started_at);
        let line = line_of_invocation(&list[j], &at);
        text::append_line(&mut out, line);
        assert(out@[j as int]@ == invocation_line(list@[j as int], at@));
        j = j + 1;
    }
    text::append_line(&mut out, "\n(`komo run inspect <id>` shows the full turn.)".to_owned());
    out
}

/// What is said of an installed skill.
pub open spec fn install_lines(
    name: Seq<char>,
    files: nat,
    path: Seq<char>,
    description: Seq<char>,
) -> Seq<Seq<char>> {
    seq![
        "Installed `"@ + name + "` ("@ + if files == 1 {
            "1 file"@
        } else {
            number::decimal(files) + " files"@
        } + ") → "@ + path,
    ] + text::one_if(description.len() > 0, "  "@ + description) + seq![
        "Active now; the agent picks it up on its next `skill` list (no restart needed)."@,
    ]
}

/// What is said of an installed skill.
pub fn install(name: &str, files: usize, path: &str, description: &str) -> (r: Vec<String>)
    ensures
        text::views(r@) == install_lines(name@, files as nat, path@, description@),
{
    let mut head = text::between("Installed `", name, "` (");
    if files == 1 {
        head.push_str("1 file");
    } else {
        let counted = text::prefixed(&number::write_size(files), " files");
        head.push_str(&counted);
    }
    head.push_str(") → ");
    head.push_str(path);
    let mut out = text::only(head);
    text::append_if(&mut out, !description.is_empty(), text::prefixed("  ", description));
    text::append_line(
        &mut out,
        "Active now; the agent picks it up on its next `skill` list (no restart needed).".to_owned(),
    );
    assert(text::views(out@) =~= install_lines(name@, files as nat, path@, description@));
    out
}

/// What is said of a promoted candidate.
pub fn promote(name: &str) -> (r: String)
    ensures
        r@ == "Promoted `"@ + name@ + "` to active. "@ + RELOAD_HINT@,
{
    let mut out = text::between("Promoted `", name, "` to active. ");
    out.push_str(RELOAD_HINT);
    out
}

/// What is said of a rejected candidate.
pub fn reject(name: &str) -> (r: String)
    ensures
        r@ == "Rejected candidate `"@ + name@ + "` (deleted)."@,
{
    text::between("Rejected candidate `", name, "` (deleted).")
}

/// What is said of a skill whose protection changed.
pub fn protect(skill: &Skill) -> (r: String)
    ensures
        r@ == if skill.protected {
            "Protected `"@ + skill.name@
                + "` — reviews will no longer propose changes to it."@
        } else {
            "Unprotected `"@ + skill.name@ + "`."@
        },
{
    if skill.protected {
        text::between(
            "Protected `",
            &skill.name,
            "` — reviews will no longer propose changes to it.",
        )
    } else {
        text::between("Unprotected `", &skill.name, "`.")
    }
}

/// What is said of a skill that was enabled or disabled.
pub fn set_enabled(skill: &Skill) -> (r: String)
    ensures
        r@ == if skill.disabled {
            "Disabled `"@ + skill.name@ + "` — kept on disk, hidden from the agent. "@
                + RELOAD_HINT@
        } else {
            "Enabled `"@ + skill.name@ + "`. "@ + RELOAD_HINT@
        },
{
    if skill.disabled {
        let mut out = text::between(
            "Disabled `",
            &skill.name,
            "` — kept on disk, hidden from the agent. ",
        );
        out.push_str(RELOAD_HINT);
        out
    } else {
        let mut out = text::between("Enabled `", &skill.name, "`. ");
        out.push_str(RELOAD_HINT);
        out
    }
}

} // verus!
