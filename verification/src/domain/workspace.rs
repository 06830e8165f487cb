//! The directories within which file operations are permitted.
use crate::path;
use crate::text;
use vstd::prelude::*;
use vstd::string::*;

verus! {

/// Whitelist of directories within which file operations are permitted.
#[derive(Debug)]
pub struct Workspace {
    roots: Vec<String>,
}

/// Where a path leads in a workspace with these roots: a relative path is
/// anchored to the first root, and `.` and `..` are resolved.
pub open spec fn location(roots: Seq<Seq<char>>, p: Seq<char>) -> Seq<Seq<char>> {
    if path::is_rooted(p) {
        path::normalized(p)
    } else {
        path::normalized(
            path::joined(
                if roots.len() == 0 {
                    Seq::empty()
                } else {
                    roots[0]
                },
                p,
            ),
        )
    }
}

/// Whether a path leads into one of the roots.
pub open spec fn is_inside(roots: Seq<Seq<char>>, p: Seq<char>) -> bool {
    exists|k: int|
        0 <= k < roots.len() && path::leads(
            path::components(#[trigger] roots[k]),
            location(roots, p),
        )
}

impl Workspace {
    /// The permitted directories.
    pub closed spec fn root_list(self) -> Seq<Seq<char>> {
        text::views(self.roots@)
    }

    /// Create a workspace rooted at the given (absolute) directories.
    pub fn new(roots: Vec<String>) -> (r: Self)
        ensures
            r.root_list() == text::views(roots@),
    {
        Workspace { roots }
    }

    pub fn roots(&self) -> (r: &[String])
        ensures
            text::views(r@) == self.root_list(),
    {
        self.roots.as_slice()
    }

    /// Whether `path` resolves to a location inside one of the roots.
    ///
    /// Resolution is lexical, so it also guards write targets that do not yet
    /// exist and blocks `../` escapes.
    pub fn contains(&self, path: &str) -> (r: bool)
        ensures
            r == is_inside(self.root_list(), path@),
    {
        let resolved = self.resolve(path);
        let mut i: usize = 0;
        while i < self.roots.len()
            invariant
                i <= self.roots.len(),
                text::views(resolved@) == location(self.root_list(), path@),
                forall|k: int|
                    0 <= k < i ==> !path::leads(
                        path::components(#[trigger] self.root_list()[k]),
                        location(self.root_list(), path@),
                    ),
            decreases self.roots.len() - i,
        {
            let root = path::split(&self.roots[i]);
            assert(self.root_list()[i as int] == self.roots@[i as int]@);
            if path::starts_with(&resolved, &root) {
                return true;
            }
            i = i + 1;
        }
        false
    }

    fn resolve(&self, path: &str) -> (r: Vec<String>)
        ensures
            text::views(r@) == location(self.root_list(), path@),
    {
        if path.unicode_len() > 0 && path.get_char(0) == '/' {
            return path::normalize_lexically(path);
        }
        let base = if self.roots.len() > 0 {
            self.roots[0].clone()
        } else {
            String::new()
        };
        assert(base@ =~= (if self.root_list().len() == 0 {
            Seq::empty()
        } else {
            self.root_list()[0]
        }));
        path::normalize_lexically(&path::join(&base, path))
    }
}

/// No admitted path escapes: where it leads, with every `..` resolved, lies under
/// one of the roots, component by component, so that neither a climb nor a
/// sibling whose name merely begins alike is let through.
pub proof fn admitted_paths_stay_inside(roots: Seq<Seq<char>>, p: Seq<char>)
    requires
        is_inside(roots, p),
    ensures
        exists|k: int|
            {
                &&& 0 <= k < roots.len()
                &&& path::components(#[trigger] roots[k]).len() <= location(roots, p).len()
                &&& forall|j: int|
                    0 <= j < path::components(roots[k]).len() ==> location(roots, p)[j]
                        == #[trigger] path::components(roots[k])[j]
            },
        forall|j: int|
            0 <= j < location(roots, p).len() ==> #[trigger] location(roots, p)[j] != ".."@,
{
    let k = choose|k: int|
        0 <= k < roots.len() && path::leads(
            path::components(#[trigger] roots[k]),
            location(roots, p),
        );
    let c = path::components(roots[k]);
    let l = location(roots, p);
    assert forall|j: int| 0 <= j < c.len() implies l[j] == #[trigger] c[j] by {
        assert(l.take(c.len() as int)[j] == c[j]);
    }
    if path::is_rooted(p) {
        path::normalized_never_climbs(p);
    } else {
        path::normalized_never_climbs(
            path::joined(
                if roots.len() == 0 {
                    Seq::empty()
                } else {
                    roots[0]
                },
                p,
            ),
        );
    }
}

} // verus!
