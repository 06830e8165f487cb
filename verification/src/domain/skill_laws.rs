//! What a skill document says.
use crate::domain::skill;
use crate::domain::skill::Skill;
use crate::text;
use crate::text_laws;
use vstd::prelude::*;

verus! {

/// Whether a text is a plain value: on one line, visible at both ends, and not in quotes.
pub open spec fn is_plain_value(v: Seq<char>) -> bool {
    &&& v.len() > 0
    &&& !v.contains('\n')
    &&& !text::is_white(v[0]) && v[0] != '"' && v[0] != '\''
    &&& !text::is_white(v.last()) && v.last() != '"' && v.last() != '\''
}

proof fn lemma_value(key: Seq<char>, v: Seq<char>)
    requires
        is_plain_value(v),
    ensures
        skill::line_value(key + seq![' '] + v, key) == Some(v),
{
    let line = key + seq![' '] + v;
    assert(line.subrange(0, key.len() as int) =~= key);
    let rest = seq![' '] + v;
    assert(line.skip(key.len() as int) =~= rest);
    assert(rest.skip(1) =~= v);
    assert(rest[1] == v[0]);
    text::lemma_trim_start(rest, 1);
    text::lemma_trim_end(v, v.len() as int);
    assert(v.take(v.len() as int) =~= v);
}

proof fn lemma_other_key(key: Seq<char>, rest: Seq<char>, other: Seq<char>)
    requires
        key.len() > 0,
        other.len() > 0,
        key[0] != other[0],
    ensures
        skill::line_value(key + rest, other) is None,
{
    let line = key + rest;
    if text::has_prefix(line, other) {
        assert(line.subrange(0, other.len() as int)[0] == line[0]);
    }
}

/// The front matter of a document with a name and a description, from the end of its
/// opening fence to its closing one.
pub open spec fn front_matter(name: Seq<char>, description: Seq<char>) -> Seq<char> {
    seq!['\n'] + ("name:"@ + seq![' '] + name) + seq!['\n'] + ("description:"@ + seq![' ']
        + description)
}

proof fn lemma_front_lines(name: Seq<char>, description: Seq<char>)
    requires
        is_plain_value(name),
        is_plain_value(description),
    ensures
        text::lines_of(front_matter(name, description)) == seq![
            Seq::empty(),
            "name:"@ + seq![' '] + name,
            "description:"@ + seq![' '] + description,
        ],
{
    reveal_strlit("name:");
    reveal_strlit("description:");
    let first = "name:"@ + seq![' '] + name;
    let second = "description:"@ + seq![' '] + description;
    assert(!first.contains('\n')) by {
        assert forall|k: int| 0 <= k < first.len() implies first[k] != '\n' by {
            if k >= 6 {
                assert(first[k] == name[k - 6]);
                assert(name.contains(name[k - 6]));
            }
        }
    }
    assert(!second.contains('\n')) by {
        assert forall|k: int| 0 <= k < second.len() implies second[k] != '\n' by {
            if k >= 13 {
                assert(second[k] == description[k - 13]);
                assert(description.contains(description[k - 13]));
            }
        }
    }
    let none = Seq::<char>::empty();
    text_laws::lemma_one_piece(none, '\n');
    text_laws::lemma_one_piece(first, '\n');
    text_laws::lemma_one_piece(second, '\n');
    text_laws::lemma_pieces_apart(none, '\n', first);
    let head = none + seq!['\n'] + first;
    text_laws::lemma_pieces_apart(head, '\n', second);
    assert(front_matter(name, description) =~= head + seq!['\n'] + second);
    let p = text::pieces(front_matter(name, description), '\n');
    assert(p =~= seq![none, first, second]);
    assert(first.last() == name.last());
    assert(text::lines_of(front_matter(name, description)) =~= seq![none, first, second]);
}

proof fn lemma_fence(name: Seq<char>, description: Seq<char>, after: Seq<char>)
    requires
        is_plain_value(name),
        is_plain_value(description),
    ensures
        text::cut_at(front_matter(name, description) + "\n---"@ + after, "\n---"@) == Some(
            (front_matter(name, description), after),
        ),
{
    reveal_strlit("name:");
    reveal_strlit("description:");
    reveal_strlit("\n---");
    let front = front_matter(name, description);
    let sep = "\n---"@;
    let s = front + sep + after;
    let n = name.len() as int;
    assert forall|j: int| 0 <= j < front.len() implies !#[trigger] text::occurs_at(s, sep, j) by {
        if text::occurs_at(s, sep, j) {
            let found = s.subrange(j, j + sep.len());
            assert(found[0] == s[j] && found[1] == s[j + 1]);
            assert(s[j] == '\n' && s[j + 1] == '-');
            assert(s[j] == front[j]);
            if j == 0 {
                assert(s[1] == front[1]);
                assert(front[1] == 'n');
            } else if j < 7 {
                assert(front[j] != '\n');
            } else if j < 7 + n {
                assert(front[j] == name[j - 7]);
                assert(name.contains(name[j - 7]));
            } else if j == 7 + n {
                assert(front[j + 1] == 'd');
                assert(s[j + 1] == front[j + 1]);
            } else if j < 7 + n + 14 {
                assert(front[j] != '\n');
            } else {
                assert(front[j] == description[j - 7 - n - 14]);
                assert(description.contains(description[j - 7 - n - 14]));
            }
        }
    }
    text::lemma_cut_here(s, front, sep, after);
}

/// A document that gives its name and description between two fences, and instructions
/// after them, is the skill with that name, description and instructions, open to change
/// and in use.
pub proof fn documents_say_their_skill(
    content: &str,
    name: Seq<char>,
    description: Seq<char>,
    body: Seq<char>,
    r: Option<Skill>,
)
    requires
        call_ensures(Skill::parse, (content,), r),
        is_plain_value(name),
        is_plain_value(description),
        body.len() > 0,
        !text::is_white(body[0]),
        !text::is_white(body.last()),
        content@ == "---"@ + front_matter(name, description) + "\n---"@ + (seq!['\n'] + body),
    ensures
        r is Some,
        r->0.name@ == name,
        r->0.description@ == description,
        r->0.instructions@ == body,
        !r->0.protected,
        !r->0.disabled,
{
    reveal_strlit("---");
    reveal_strlit("name:");
    reveal_strlit("description:");
    let front = front_matter(name, description);
    let after = seq!['\n'] + body;
    assert(content@[0] == '-');
    text::lemma_trim_start(content@, 0);
    assert(content@.skip(0) =~= content@);
    assert(content@.subrange(0, 3) =~= "---"@);
    assert(content@.skip(3) =~= front + "\n---"@ + after);
    lemma_fence(name, description, after);
    lemma_front_lines(name, description);
    let first = "name:"@ + seq![' '] + name;
    let second = "description:"@ + seq![' '] + description;
    let lines = text::lines_of(front);
    lemma_value("name:"@, name);
    lemma_value("description:"@, description);
    assert(second =~= "description:"@ + (seq![' '] + description));
    lemma_other_key("description:"@, seq![' '] + description, "name:"@);
    reveal_with_fuel(skill::name_in, 4);
    reveal_with_fuel(skill::description_in, 4);
    assert(lines[0] =~= Seq::empty());
    assert(skill::line_value(lines[0], "name:"@) is None);
    assert(skill::name_in(lines, 2) == Some(name));
    assert(skill::name_in(lines, 3) == Some(name));
    assert(skill::description_in(lines, 3) == Some(description));
    assert(text::without_leading(after, '-', '-') == after);
    assert(after.drop_first() =~= body);
    assert(text::without_leading(after, '\n', '\r') == text::without_leading(body, '\n', '\r'));
    assert(text::without_leading(body, '\n', '\r') == body);
    text::lemma_trim_none(body);
}

/// A document that does not begin with a fence is no skill.
pub proof fn unfenced_documents_are_no_skill(content: &str, r: Option<Skill>)
    requires
        call_ensures(Skill::parse, (content,), r),
        !text::has_prefix(text::trim_start(content@), "---"@),
    ensures
        r is None,
{
}

} // verus!
