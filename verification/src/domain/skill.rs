//! Skills: named instruction packages with lightweight metadata.
use crate::text;
use vstd::prelude::*;
use vstd::string::*;

verus! {

/// The source of a skill that was proposed after looking a session over.
pub const SOURCE_REVIEWER: &'static str = "review";

/// A named capability package: lightweight metadata plus a full instruction body
/// loaded on demand.
#[derive(Debug)]
pub struct Skill {
    pub name: String,
    pub description: String,
    pub instructions: String,
    /// Operator edits only.
    pub protected: bool,
    /// Kept on disk but hidden from the model.
    pub disabled: bool,
    /// Where the skill came from. Empty = unknown.
    pub source: String,
}

impl Clone for Skill {
    fn clone(&self) -> (r: Self)
        ensures
            r == *self,
    {
        Skill {
            name: self.name.clone(),
            description: self.description.clone(),
            instructions: self.instructions.clone(),
            protected: self.protected,
            disabled: self.disabled,
            source: self.source.clone(),
        }
    }
}

/// `s` without the quotes around it.
pub open spec fn unquoted(s: Seq<char>) -> Seq<char> {
    text::without_trailing(text::without_leading(s, '"', '\''), '"', '\'')
}

fn unquote(s: &str) -> (r: String)
    ensures
        r@ == unquoted(s@),
{
    text::trim_back(text::trim_front(s, '"', '\''), '"', '\'').to_owned()
}

/// The value that a line gives to a key, if it is a line for that key.
pub open spec fn line_value(line: Seq<char>, key: Seq<char>) -> Option<Seq<char>> {
    match text::after_prefix(line, key) {
        Some(v) => Some(unquoted(text::trimmed(v))),
        None => None,
    }
}

/// The name that the first `n` lines give: that of the last line for it.
pub open spec fn name_in(lines: Seq<Seq<char>>, n: int) -> Option<Seq<char>>
    decreases n,
{
    if n <= 0 || n > lines.len() {
        None
    } else {
        match line_value(lines[n - 1], "name:"@) {
            Some(v) => Some(v),
            None => name_in(lines, n - 1),
        }
    }
}

/// The description that the first `n` lines give: that of the last line for it.
pub open spec fn description_in(lines: Seq<Seq<char>>, n: int) -> Option<Seq<char>>
    decreases n,
{
    if n <= 0 || n > lines.len() {
        None
    } else if line_value(lines[n - 1], "name:"@) is Some {
        description_in(lines, n - 1)
    } else {
        match line_value(lines[n - 1], "description:"@) {
            Some(v) => Some(v),
            None => description_in(lines, n - 1),
        }
    }
}

/// The front matter and the body of a skill document: what stands between the
/// opening `---` and the next line that begins with `---`, and what follows.
pub open spec fn document_parts(content: Seq<char>) -> Option<(Seq<char>, Seq<char>)> {
    match text::after_prefix(text::trim_start(content), "---"@) {
        Some(rest) => text::cut_at(rest, "\n---"@),
        None => None,
    }
}

/// The instruction body of a document, from what follows the closing fence.
pub open spec fn body_text(after: Seq<char>) -> Seq<char> {
    text::trimmed(text::without_leading(text::without_leading(after, '-', '-'), '\n', '\r'))
}

/// Whether `r` is the skill that a document states: none without front matter, or
/// without a name in it.
pub open spec fn is_skill(content: Seq<char>, r: Option<Skill>) -> bool {
    match document_parts(content) {
        None => r is None,
        Some(parts) => {
            let lines = text::lines_of(parts.0);
            let name = name_in(lines, lines.len() as int);
            if name is None || name->0.len() == 0 {
                r is None
            } else {
                &&& r is Some
                &&& r->0.name@ == name->0
                &&& r->0.description@ == match description_in(lines, lines.len() as int) {
                    Some(d) => d,
                    None => Seq::empty(),
                }
                &&& r->0.instructions@ == body_text(parts.1)
                &&& !r->0.protected
                &&& !r->0.disabled
                &&& r->0.source@.len() == 0
            }
        },
    }
}

impl Skill {
    /// Parse a skill document: front matter (`name`, `description`) fenced by
    /// `---`, followed by the instruction body.
    pub fn parse(content: &str) -> (r: Option<Skill>)
        ensures
            is_skill(content@, r),
    {
        let rest = match text::strip_prefix(text::trim_left(content), "---") {
            Some(rest) => rest,
            None => {
                return None;
            },
        };
        let (front, after) = match text::split_once(rest, "\n---") {
            Some(parts) => parts,
            None => {
                return None;
            },
        };
        let body = text::trim(text::trim_front(text::trim_front(after, '-', '-'), '\n', '\r'));
        let lines = text::lines(front);
        let ghost all = text::lines_of(front@);
        let mut name: Option<String> = None;
        let mut description: Option<String> = None;
        let mut i: usize = 0;
        while i < lines.len()
            invariant
                i <= lines.len(),
                text::views(lines@) == all,
                text::opt_text(name) == name_in(all, i as int),
                text::opt_text(description) == description_in(all, i as int),
            decreases lines.len() - i,
        {
            let line = &lines[i];
            assert(all[i as int] == line@);
            if let Some(v) = text::strip_prefix(line, "name:") {
                name = Some(unquote(text::trim(v)));
            } else if let Some(v) = text::strip_prefix(line, "description:") {
                description = Some(unquote(text::trim(v)));
            }
            i = i + 1;
        }
        match name {
            Some(name) => {
                if name.as_str().is_empty() {
                    return None;
                }
                let description = match description {
                    Some(d) => d,
                    None => String::new(),
                };
                Some(
                    Skill {
                        name,
                        description,
                        instructions: body.to_owned(),
                        protected: false,
                        disabled: false,
                        source: String::new(),
                    },
                )
            },
            None => None,
        }
    }
}

} // verus!
