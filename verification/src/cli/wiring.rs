//! The parts of the agent, from the resolved configuration.
use crate::agent::runtime::AgentRuntime;
use crate::config::report;
use crate::config::snapshot;
use crate::config::snapshot::ConfigSnapshot;
use crate::path;
use crate::text;
use vstd::prelude::*;

verus! {

/// How many skills the note in the prompt lists.
pub const SKILL_CATALOG_CAP: usize = 30;

/// What precedes the list of skills in the prompt.
pub const SKILLS_HEAD: &'static str =
    "You have skills (instruction playbooks) available. To use one, call the `skill` tool with action=view and the skill name to load its instructions, then follow them. Available skills:\n";

/// The tools of the agent.
#[derive(Debug, Clone, Copy, PartialEq, Eq, Structural)]
pub enum ToolKind {
    Time,
    File,
    Shell,
    WebFetch,
    WebSearch,
    Session,
    Reminder,
    Task,
    Todo,
    AskUser,
    HomeAssistant,
    Memory,
    Delegate,
    Skill,
}

/// The tools of the agent, in the order in which the model sees them: the Home Assistant
/// tool only where it is configured.
pub open spec fn toolset(home_assistant: bool) -> Seq<ToolKind> {
    seq![
        ToolKind::Time,
        ToolKind::File,
        ToolKind::Shell,
        ToolKind::WebFetch,
        ToolKind::WebSearch,
        ToolKind::Session,
        ToolKind::Reminder,
        ToolKind::Task,
        ToolKind::Todo,
        ToolKind::AskUser,
    ] + if home_assistant {
        seq![ToolKind::HomeAssistant]
    } else {
        Seq::empty()
    } + seq![ToolKind::Memory, ToolKind::Delegate, ToolKind::Skill]
}

/// The tools of the agent.
pub fn tools(home_assistant: bool) -> (r: Vec<ToolKind>)
    ensures
        r@ == toolset(home_assistant),
{
    let mut out: Vec<ToolKind> = Vec::new();
    out.push(ToolKind::Time);
    out.push(ToolKind::File);
    out.push(ToolKind::Shell);
    out.push(ToolKind::WebFetch);
    out.push(ToolKind::WebSearch);
    out.push(ToolKind::Session);
    out.push(ToolKind::Reminder);
    out.push(ToolKind::Task);
    out.push(ToolKind::Todo);
    out.push(ToolKind::AskUser);
    if home_assistant {
        out.push(ToolKind::HomeAssistant);
    }
    out.push(ToolKind::Memory);
    out.push(ToolKind::Delegate);
    out.push(ToolKind::Skill);
    assert(out@ =~= toolset(home_assistant));
    out
}

/// The directories `names` under `base`.
pub open spec fn under(base: Seq<char>, names: Seq<Seq<char>>) -> Seq<Seq<char>> {
    Seq::new(names.len(), |i: int| path::joined(base, names[i]))
}

fn append_under(out: &mut Vec<String>, base: &str, names: &Vec<String>)
    ensures
        text::views(final(out)@) == text::views(old(out)@) + under(base@, text::views(names@)),
{
    let ghost all = under(base@, text::views(names@));
    let ghost first = text::views(out@);
    let mut i: usize = 0;
    assert(text::views(out@) =~= first + all.take(0));
    while i < names.len()
        invariant
            i <= names.len(),
            all == under(base@, text::views(names@)),
            all.len() == names@.len(),
            text::views(out@) == first + all.take(i as int),
        decreases names.len() - i,
    {
        text::append_line(out, path::join(base, &names[i]));
        i = i + 1;
        assert(text::views(out@) =~= first + all.take(i as int));
    }
    assert(all.take(i as int) =~= all);
}

/// The directories that skills load from, the first to define a name wins: the configured
/// ones, the workspace's own and those that other agents keep there (`others`), the
/// governed store, and those that other agents keep in the user's directory.
pub open spec fn skill_dirs(
    configured: Seq<Seq<char>>,
    root: Seq<char>,
    others: Seq<Seq<char>>,
    store: Seq<char>,
    user: Option<Seq<char>>,
) -> Seq<Seq<char>> {
    (configured.push(path::joined(root, "skills"@)) + under(root, others)).push(store)
        + match user {
        Some(home) => under(home, others),
        None => Seq::empty(),
    }
}

fn dirs(
    configured: &Vec<String>,
    root: &str,
    others: &Vec<String>,
    store: &str,
    user: Option<&str>,
) -> (r: Vec<String>)
    ensures
        text::views(r@) == skill_dirs(
            text::views(configured@),
            root@,
            text::views(others@),
            store@,
            text::opt_view(user),
        ),
{
    let mut out = text::clone_list(configured);
    text::append_line(&mut out, path::join(root, "skills"));
    append_under(&mut out, root, others);
    text::append_line(&mut out, store.to_owned());
    if let Some(home) = user {
        append_under(&mut out, home, others);
    }
    assert(text::views(out@) =~= skill_dirs(
        text::views(configured@),
        root@,
        text::views(others@),
        store@,
        text::opt_view(user),
    ));
    out
}

/// The note on skills in the prompt, where `catalog` lists them; none where there are
/// none.
pub fn skills_note(catalog: Option<&str>) -> (r: Option<String>)
    ensures
        text::opt_text(r) == match catalog {
            Some(c) => Some(SKILLS_HEAD@ + c@),
            None => None,
        },
{
    match catalog {
        Some(c) => Some(text::prefixed(SKILLS_HEAD, c)),
        None => None,
    }
}

/// The parts of the agent.
#[derive(Debug)]
pub struct Wiring {
    pub runtime: AgentRuntime,
    pub tools: Vec<ToolKind>,
    pub skill_dirs: Vec<String>,
}

/// The parts of the agent; an unusable model selection makes none. The workspace is
/// `root`, the governed skill store `store`, the user's directory `user`, and `others` where
/// other agents keep their skills below either.
pub fn build(
    config: &ConfigSnapshot,
    root: &str,
    others: &Vec<String>,
    store: &str,
    user: Option<&str>,
) -> (r: Result<Wiring, String>)
    ensures
        match snapshot::first_agent_block(report::issues_of(config.report.issues@), 0) {
            Some(k) => r matches Err(e) && e@ == report::issues_of(
                config.report.issues@,
            )[k].message,
            None => {
                &&& r matches Ok(w)
                &&& w.runtime == (AgentRuntime {
                    max_turns: config.runtime.model.max_turns,
                    history_window: config.runtime.model.max_history_messages,
                    reviewer: true,
                    review_interval: config.runtime.review_interval,
                })
                &&& w.tools@ == toolset(config.runtime.homeassistant_tool is Some)
                &&& text::views(w.skill_dirs@) == skill_dirs(
                    text::views(config.runtime.skills_path@),
                    root@,
                    text::views(others@),
                    store@,
                    text::opt_view(user),
                )
            },
        },
{
    match config.validate_agent() {
        Ok(_) => {},
        Err(e) => return Err(e),
    }
    let rt = &config.runtime;
    Ok(
        Wiring {
            runtime: AgentRuntime {
                max_turns: rt.model.max_turns,
                history_window: rt.model.max_history_messages,
                reviewer: true,
                review_interval: rt.review_interval,
            },
            tools: tools(rt.homeassistant_tool.is_some()),
            skill_dirs: dirs(&rt.skills_path, root, others, store, user),
        },
    )
}

} // verus!
