//! Rebuilding and reinstalling the running program.
use crate::path;
use crate::text;
use vstd::prelude::*;

verus! {

/// Whether a program at `exe` lies in a `bin` directory.
pub open spec fn in_bin(exe: Seq<char>) -> bool {
    let c = path::components(exe);
    c.len() >= 2 && c[c.len() - 2] == "bin"@
}

/// Where a reinstall must go to land on the running program: the directory above `bin`, as
/// the program's own path writes it; none for the default place.
pub fn cargo_root_for(exe: &str) -> (r: Option<String>)
    ensures
        match r {
            Some(root) => in_bin(exe@) && path::is_front(
                exe@,
                path::components(exe@).len() - 2,
                root@,
            ),
            None => !in_bin(exe@),
        },
{
    let comps = path::split(exe);
    assert(text::views(comps@).len() == comps@.len());
    let n: usize = comps.len();
    if n < 2 {
        return None;
    }
    assert(text::views(comps@)[n - 2] == comps@[n - 2]@);
    if !text::same(&comps[n - 2], "bin") {
        return None;
    }
    Some(path::front(exe, n - 2))
}

/// What follows a reinstall.
#[derive(Debug, Clone, Copy, PartialEq, Eq, Structural)]
pub enum AfterInstall {
    /// Restart the gateway, so that the new build goes live.
    Restart,
    /// The caller asked for no restart.
    Skip,
    /// No supervisor has the gateway: there is nothing to restart.
    NothingToRestart,
}

/// What follows a reinstall: an upgrade never puts the gateway under a supervisor that
/// did not have it.
pub fn after_install(no_restart: bool, loaded: bool) -> (r: AfterInstall)
    ensures
        r == if no_restart {
            AfterInstall::Skip
        } else if loaded {
            AfterInstall::Restart
        } else {
            AfterInstall::NothingToRestart
        },
{
    if no_restart {
        AfterInstall::Skip
    } else if loaded {
        AfterInstall::Restart
    } else {
        AfterInstall::NothingToRestart
    }
}

/// What is said where the source the program was built from is gone.
pub fn no_source(repo: &str) -> (r: String)
    ensures
        r@ == "source repo "@ + repo@
            + " no longer exists — `shion upgrade` rebuilds from the checkout this binary was built in. Re-clone it (or rebuild from the new location) and `cargo install --path .` to relink."@,
{
    text::between(
        "source repo ",
        repo,
        " no longer exists — `shion upgrade` rebuilds from the checkout this binary was built in. Re-clone it (or rebuild from the new location) and `cargo install --path .` to relink.",
    )
}

/// What is said where the latest source cannot be pulled.
pub fn pull_failed(repo: &str) -> (r: String)
    ensures
        r@
            == "git pull failed (uncommitted changes, diverged history, or no network?) — resolve it in "@
            + repo@ + " and retry"@,
{
    text::between(
        "git pull failed (uncommitted changes, diverged history, or no network?) — resolve it in ",
        repo,
        " and retry",
    )
}

/// What is said where the reinstall fails.
pub const INSTALL_FAILED: &'static str =
    "cargo install failed — the gateway was NOT restarted and the old binary is still live, so you are not left in a broken state";

/// What is said at the end of an upgrade.
pub const COMPLETE: &'static str = "\n✓ upgrade complete.";

/// What is said at the start of an upgrade.
pub fn banner(version: &str, repo: &str) -> (r: String)
    ensures
        r@ == "shion upgrade — current version "@ + version@ + "\nrepo: "@ + repo@,
{
    let mut out = text::between("shion upgrade — current version ", version, "\nrepo: ");
    out.push_str(repo);
    out
}

/// What is said before the latest source is pulled; only a repository can be pulled.
pub fn pull_note(is_repo: bool) -> (r: String)
    ensures
        r@ == if is_repo {
            "\n→ git pull --ff-only"@
        } else {
            "\n(not a git repo — skipping pull, rebuilding from the current checkout)"@
        },
{
    if is_repo {
        "\n→ git pull --ff-only".to_owned()
    } else {
        "\n(not a git repo — skipping pull, rebuilding from the current checkout)".to_owned()
    }
}

/// What is said before the reinstall, which goes to `root` where that is given.
pub fn install_note(root: Option<&str>) -> (r: String)
    ensures
        r@ == "\n→ cargo install --path . --force (rebuild + reinstall)"@ + match root {
            Some(d) => "\n  installing into "@ + d@ + "/bin"@,
            None => Seq::empty(),
        },
{
    let mut out = "\n→ cargo install --path . --force (rebuild + reinstall)".to_owned();
    match root {
        Some(d) => out.push_str(&text::between("\n  installing into ", d, "/bin")),
        None => {
            assert(out@ + Seq::empty() =~= out@);
        },
    }
    out
}

/// What is said of the step that follows a reinstall.
pub fn after_note(step: AfterInstall) -> (r: String)
    ensures
        r@ == match step {
            AfterInstall::Restart => "\n→ restarting gateway"@,
            AfterInstall::Skip =>
                "\n--no-restart: skipped. Run `shion gateway restart` to go live."@,
            AfterInstall::NothingToRestart =>
                "\ngateway not running under a supervisor — nothing to restart."@,
        },
{
    match step {
        AfterInstall::Restart => "\n→ restarting gateway".to_owned(),
        AfterInstall::Skip =>
            "\n--no-restart: skipped. Run `shion gateway restart` to go live.".to_owned(),
        AfterInstall::NothingToRestart =>
            "\ngateway not running under a supervisor — nothing to restart.".to_owned(),
    }
}

} // verus!
