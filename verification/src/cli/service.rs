//! The supervisor of the gateway process: its launch description and what its commands
//! decide.
use crate::text;
use vstd::prelude::*;

verus! {

/// The launch label of the gateway.
pub const LABEL: &'static str = "com.shion.gateway";

/// How often the supervisor is asked whether it let go of the gateway.
pub const UNLOAD_POLLS: u32 = 50;

pub const PLIST_HEAD: &'static str =
    "<?xml version=\"1.0\" encoding=\"UTF-8\"?>\n<!DOCTYPE plist PUBLIC \"-//Apple//DTD PLIST 1.0//EN\" \"http://www.apple.com/DTDs/PropertyList-1.0.dtd\">\n<plist version=\"1.0\">\n<dict>\n    <key>Label</key>\n    <string>com.shion.gateway</string>\n    <key>ProgramArguments</key>\n    <array>\n        <string>";

pub const PLIST_WORK: &'static str =
    "</string>\n        <string>gateway</string>\n    </array>\n    <key>WorkingDirectory</key>\n    <string>";

pub const PLIST_OUT: &'static str =
    "</string>\n    <key>RunAtLoad</key>\n    <true/>\n    <key>KeepAlive</key>\n    <true/>\n    <key>ThrottleInterval</key>\n    <integer>10</integer>\n    <key>StandardOutPath</key>\n    <string>";

pub const PLIST_ERR: &'static str =
    "/gateway.log</string>\n    <key>StandardErrorPath</key>\n    <string>";

pub const PLIST_TAIL: &'static str = "/gateway.err.log</string>\n</dict>\n</plist>\n";

/// A text with the characters escaped that XML gives a meaning.
pub open spec fn escaped(s: Seq<char>) -> Seq<char> {
    text::replaced(
        text::replaced(text::replaced(s, '&', "&amp;"@), '<', "&lt;"@),
        '>',
        "&gt;"@,
    )
}

/// A text with the characters escaped that XML gives a meaning.
pub fn xml_escape(s: &str) -> (r: String)
    ensures
        r@ == escaped(s@),
{
    let a = text::replace(s, '&', "&amp;");
    let b = text::replace(&a, '<', "&lt;");
    text::replace(&b, '>', "&gt;")
}

proof fn lemma_replaced_has_none(s: Seq<char>, c: char, with: Seq<char>, d: char)
    requires
        !with.contains(d),
        c == d || !s.contains(d),
    ensures
        !text::replaced(s, c, with).contains(d),
    decreases s.len(),
{
    if s.len() > 0 {
        let short = s.drop_last();
        if short.contains(d) && c != d {
            let i = choose|i: int| 0 <= i < short.len() && short[i] == d;
            assert(s[i] == d);
        }
        lemma_replaced_has_none(short, c, with, d);
        let before = text::replaced(short, c, with);
        let now = text::replaced(s, c, with);
        if now.contains(d) {
            let k = choose|k: int| 0 <= k < now.len() && now[k] == d;
            if k < before.len() {
                assert(before[k] == d);
            } else if s.last() == c {
                assert(with[k - before.len()] == d);
            } else {
                assert(s[s.len() - 1] == d);
            }
        }
    }
}

/// An escaped text opens and closes no tag.
pub proof fn escaping_leaves_no_tags(s: Seq<char>)
    ensures
        !escaped(s).contains('<'),
        !escaped(s).contains('>'),
{
    reveal_strlit("&lt;");
    reveal_strlit("&gt;");
    let a = text::replaced(s, '&', "&amp;"@);
    let b = text::replaced(a, '<', "&lt;"@);
    lemma_replaced_has_none(a, '<', "&lt;"@, '<');
    lemma_replaced_has_none(b, '>', "&gt;"@, '<');
    lemma_replaced_has_none(b, '>', "&gt;"@, '>');
}

/// The launch description of the gateway.
pub open spec fn plist(exe: Seq<char>, log_dir: Seq<char>, work_dir: Seq<char>) -> Seq<char> {
    PLIST_HEAD@ + escaped(exe) + PLIST_WORK@ + escaped(work_dir) + PLIST_OUT@ + escaped(log_dir)
        + PLIST_ERR@ + escaped(log_dir) + PLIST_TAIL@
}

/// The launch description of the gateway: `exe` runs in `work_dir` and logs to `log_dir`.
pub fn render_plist(exe: &str, log_dir: &str, work_dir: &str) -> (r: String)
    ensures
        r@ == plist(exe@, log_dir@, work_dir@),
{
    let logs = xml_escape(log_dir);
    let mut out = PLIST_HEAD.to_owned();
    out.push_str(&xml_escape(exe));
    out.push_str(PLIST_WORK);
    out.push_str(&xml_escape(work_dir));
    out.push_str(PLIST_OUT);
    out.push_str(&logs);
    out.push_str(PLIST_ERR);
    out.push_str(&logs);
    out.push_str(PLIST_TAIL);
    out
}

/// What is said of a command on a platform without the supervisor.
pub open spec fn unsupported_text(action: Seq<char>) -> Seq<char> {
    "gateway "@ + action
        + " is macOS-only. In Docker/Linux, run `shion gateway` in the foreground and use your supervisor, e.g. `docker restart <container>`."@
}

/// What is said of a command on a platform without the supervisor.
pub fn unsupported(action: &str) -> (r: String)
    ensures
        r@ == unsupported_text(action@),
{
    let mut out = "gateway ".to_owned();
    out.push_str(action);
    out.push_str(
        " is macOS-only. In Docker/Linux, run `shion gateway` in the foreground and use your supervisor, e.g. `docker restart <container>`.",
    );
    out
}

/// What a command does next.
#[derive(Debug, Clone, Copy, PartialEq, Eq, Structural)]
pub enum ServiceStep {
    /// Nothing: the gateway already runs.
    AlreadyRunning,
    /// Nothing: the gateway does not run.
    NotRunning,
    /// Write the launch description and hand it to the supervisor.
    Bootstrap,
    /// Take the gateway from the supervisor.
    Bootout,
    /// Take the gateway from the supervisor, wait until it let go, then bootstrap.
    BootoutThenBootstrap,
}

/// The step of a command, or its refusal on a platform without the supervisor.
pub open spec fn is_step(
    supported: bool,
    action: Seq<char>,
    step: ServiceStep,
    r: Result<ServiceStep, String>,
) -> bool {
    match r {
        Ok(s) => supported && s == step,
        Err(m) => !supported && m@ == unsupported_text(action),
    }
}

/// Starting a gateway that the supervisor already has would be refused, so it is left.
pub fn start(supported: bool, loaded: bool) -> (r: Result<ServiceStep, String>)
    ensures
        is_step(
            supported,
            "start"@,
            if loaded {
                ServiceStep::AlreadyRunning
            } else {
                ServiceStep::Bootstrap
            },
            r,
        ),
{
    if !supported {
        return Err(unsupported("start"));
    }
    if loaded {
        Ok(ServiceStep::AlreadyRunning)
    } else {
        Ok(ServiceStep::Bootstrap)
    }
}

/// Stopping takes the gateway from the supervisor where it has it.
pub fn stop(supported: bool, loaded: bool) -> (r: Result<ServiceStep, String>)
    ensures
        is_step(
            supported,
            "stop"@,
            if loaded {
                ServiceStep::Bootout
            } else {
                ServiceStep::NotRunning
            },
            r,
        ),
{
    if !supported {
        return Err(unsupported("stop"));
    }
    if loaded {
        Ok(ServiceStep::Bootout)
    } else {
        Ok(ServiceStep::NotRunning)
    }
}

/// A restart writes the launch description afresh, whether the gateway ran or not.
pub fn restart(supported: bool, loaded: bool) -> (r: Result<ServiceStep, String>)
    ensures
        is_step(
            supported,
            "restart"@,
            if loaded {
                ServiceStep::BootoutThenBootstrap
            } else {
                ServiceStep::Bootstrap
            },
            r,
        ),
{
    if !supported {
        return Err(unsupported("restart"));
    }
    if loaded {
        Ok(ServiceStep::BootoutThenBootstrap)
    } else {
        Ok(ServiceStep::Bootstrap)
    }
}

/// What is said once the supervisor has the gateway.
pub open spec fn started_text(log_dir: Seq<char>) -> Seq<char> {
    "shion gateway started under launchd ("@ + LABEL@
        + ").\nIt will restart automatically on crash and start at login.\nLogs: "@ + log_dir
        + "/gateway.log"@
}

/// What is said once a step is done, where the gateway logs to `log_dir`.
pub fn outcome(step: ServiceStep, log_dir: &str) -> (r: String)
    ensures
        r@ == match step {
            ServiceStep::AlreadyRunning =>
                "shion gateway is already running under launchd. Use `shion gateway restart` to restart it."@,
            ServiceStep::NotRunning => "shion gateway is not running under launchd."@,
            ServiceStep::Bootstrap => started_text(log_dir@),
            ServiceStep::Bootout => "shion gateway stopped."@,
            ServiceStep::BootoutThenBootstrap => started_text(log_dir@),
        },
{
    match step {
        ServiceStep::AlreadyRunning =>
            "shion gateway is already running under launchd. Use `shion gateway restart` to restart it.".to_owned(),
        ServiceStep::NotRunning => "shion gateway is not running under launchd.".to_owned(),
        ServiceStep::Bootout => "shion gateway stopped.".to_owned(),
        _ => {
            let mut out = "shion gateway started under launchd (".to_owned();
            out.push_str(LABEL);
            out.push_str(
                ").\nIt will restart automatically on crash and start at login.\nLogs: ",
            );
            out.push_str(log_dir);
            out.push_str("/gateway.log");
            out
        },
    }
}

/// Whether a step goes on after the bootout, given whether the supervisor let go: only a
/// restart needs that it did, for its bootstrap would be refused.
pub fn after_bootout(step: ServiceStep, unloaded: bool) -> (r: Result<(), String>)
    ensures
        match r {
            Ok(_) => unloaded || step != ServiceStep::BootoutThenBootstrap,
            Err(m) => !unloaded && step == ServiceStep::BootoutThenBootstrap && m@
                == "gateway did not unload after bootout; wait a moment and run `shion gateway start`"@,
        },
{
    if step == ServiceStep::BootoutThenBootstrap && !unloaded {
        return Err(
            "gateway did not unload after bootout; wait a moment and run `shion gateway start`".to_owned(),
        );
    }
    Ok(())
}

/// Whether to ask the supervisor once more, after `polls` answers of which the last was
/// `loaded`. The supervisor lets go of a gateway only some time after it said so.
pub fn keep_waiting(polls: u32, loaded: bool) -> (r: bool)
    ensures
        r == (loaded && polls <= UNLOAD_POLLS),
{
    loaded && polls <= UNLOAD_POLLS
}

/// Whether a supervised gateway is live: never on a platform without the supervisor, so
/// that an upgrade installs none.
pub fn gateway_loaded(supported: bool, loaded: bool) -> (r: bool)
    ensures
        r == (supported && loaded),
{
    supported && loaded
}

/// Whether a line of the supervisor's report is worth showing.
pub open spec fn is_telling(line: Seq<char>) -> bool {
    let t = text::trimmed(line);
    text::has_prefix(t, "state ="@) || text::has_prefix(t, "pid ="@) || text::has_prefix(
        t,
        "path ="@,
    ) || text::has_prefix(t, "last exit code ="@)
}

/// The lines of the supervisor's report that are worth showing, trimmed.
pub open spec fn telling_lines(lines: Seq<Seq<char>>) -> Seq<Seq<char>>
    decreases lines.len(),
{
    if lines.len() == 0 {
        Seq::empty()
    } else if is_telling(lines.last()) {
        telling_lines(lines.drop_last()).push(text::trimmed(lines.last()))
    } else {
        telling_lines(lines.drop_last())
    }
}

/// What the status command shows, from the supervisor's report.
pub open spec fn status_lines(report: Option<&str>) -> Seq<Seq<char>> {
    match report {
        None => seq!["shion gateway: not loaded (run `shion gateway start`)."@],
        Some(t) => telling_lines(text::lines_of(t@)),
    }
}

fn show_report(report: Option<&str>) -> (r: Vec<String>)
    ensures
        text::views(r@) == status_lines(report),
{
    let mut out: Vec<String> = Vec::new();
    assert(text::views(out@) =~= Seq::empty());
    let t = match report {
        Some(t) => t,
        None => {
            text::append_line(
                &mut out,
                "shion gateway: not loaded (run `shion gateway start`).".to_owned(),
            );
            assert(text::views(out@) =~= seq![
                "shion gateway: not loaded (run `shion gateway start`)."@,
            ]);
            return out;
        },
    };
    let lines = text::lines(t);
    let ghost all = text::views(lines@);
    let mut i: usize = 0;
    while i < lines.len()
        invariant
            i <= lines.len(),
            all == text::views(lines@),
            text::views(out@) == telling_lines(all.take(i as int)),
        decreases lines.len() - i,
    {
        assert(all.take(i + 1).drop_last() =~= all.take(i as int));
        assert(all.take(i + 1).last() == lines@[i as int]@);
        let line = text::trim(&lines[i]);
        if text::starts_with(line, "state =") || text::starts_with(line, "pid =")
            || text::starts_with(line, "path =") || text::starts_with(line, "last exit code =") {
            text::append_line(&mut out, line.to_owned());
        }
        i = i + 1;
    }
    assert(all.take(i as int) =~= all);
    out
}

/// What the status command shows, from the supervisor's report; none where it does not
/// have the gateway. Refused on a platform without the supervisor.
pub fn status(supported: bool, report: Option<&str>) -> (r: Result<Vec<String>, String>)
    ensures
        match r {
            Ok(lines) => supported && text::views(lines@) == status_lines(report),
            Err(m) => !supported && m@ == unsupported_text("status"@),
        },
{
    if !supported {
        return Err(unsupported("status"));
    }
    Ok(show_report(report))
}

/// What is said of a supervisor command that failed.
pub fn launch_failure(command: &str, stderr: &str) -> (r: String)
    ensures
        r@ == "launchctl "@ + command@ + " failed: "@ + text::trimmed(stderr@),
{
    let mut out = "launchctl ".to_owned();
    out.push_str(command);
    out.push_str(" failed: ");
    out.push_str(text::trim(stderr));
    out
}

/// The supervisor's domain of a user; none where the user id is not known.
pub fn gui_domain(uid: &str) -> (r: Result<String, String>)
    ensures
        match r {
            Ok(d) => text::trimmed(uid@).len() > 0 && d@ == "gui/"@ + text::trimmed(uid@),
            Err(e) => text::trimmed(uid@).len() == 0 && e@
                == "could not determine uid via `id -u`"@,
        },
{
    let id = text::trim(uid);
    if id.is_empty() {
        return Err("could not determine uid via `id -u`".to_owned());
    }
    let mut out = "gui/".to_owned();
    out.push_str(id);
    Ok(out)
}

} // verus!
