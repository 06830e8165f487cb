//! Looking back: what a finished session teaches, and what may be written of it.
//!
//! A model reads the transcript and suggests memories, skills and commitments.
//! What is done with the suggestions is decided here: automated extraction only
//! ever proposes, and never twice.
use crate::casing;
use crate::domain::memory;
use crate::domain::memory::{
    Memory, MemoryConfidence, MemoryContext, MemoryKind, MemoryStatus,
};
use crate::domain::message::{Message, Session};
use crate::domain::reviewer::{ReviewOutcome, SELF_REVIEW_PROMPT};
use crate::domain::skill::{Skill, SOURCE_REVIEWER};
use crate::domain::task::{Task, TaskStatus};
use crate::number;
use crate::sorting;
use crate::system;
use crate::text;
use vstd::prelude::*;
use vstd::string::*;
use vstd::utf8::*;

verus! {

// ---------------------------------------------------------------------------
// Dedup keys
// ---------------------------------------------------------------------------

/// FNV-1a over bytes.
pub open spec fn fnv(bytes: Seq<u8>) -> u64
    decreases bytes.len(),
{
    if bytes.len() == 0 {
        0xcbf2_9ce4_8422_2325
    } else {
        (fnv(bytes.drop_last()) ^ (bytes.last() as u64)).wrapping_mul(0x0000_0100_0000_01b3)
    }
}

/// FNV-1a over the bytes of a text.
pub fn fnv_of(s: &str) -> (r: u64)
    ensures
        r == fnv(encode_utf8(s@)),
{
    let bytes = s.as_bytes();
    let mut hash: u64 = 0xcbf2_9ce4_8422_2325;
    let mut i: usize = 0;
    while i < bytes.len()
        invariant
            i <= bytes.len(),
            hash == fnv(bytes@.take(i as int)),
        decreases bytes.len() - i,
    {
        assert(bytes@.take(i + 1).drop_last() =~= bytes@.take(i as int));
        hash = hash ^ (bytes[i] as u64);
        hash = hash.wrapping_mul(0x0000_0100_0000_01b3);
        i = i + 1;
    }
    assert(bytes@.take(i as int) =~= bytes@);
    hash
}

/// What two texts must share to count as the same: their words, whatever the
/// white space between them and the case.
pub open spec fn norm(s: Seq<char>) -> Seq<char> {
    casing::lowercase(text::respaced(s, " "@))
}

/// FNV-1a over the white-space-normalized lower-case text.
pub fn fnv1a(s: &str) -> (r: u64)
    ensures
        r == fnv(encode_utf8(norm(s@))),
        is_ascii_chars(text::respaced(s@, " "@)) ==> norm(s@) == casing::ascii_lowered(
            text::respaced(s@, " "@),
        ),
{
    fnv_of(&text::join(&text::split_words(s), " ").to_lowercase())
}

/// A hash as a key: a label and sixteen hexadecimal digits.
pub open spec fn key_text(label: Seq<char>, hash: u64) -> Seq<char> {
    label + number::hex_digits(hash as nat, 16)
}

fn write_key(label: &str, hash: u64) -> (r: String)
    ensures
        r@ == key_text(label@, hash),
{
    let mut out = label.to_owned();
    out.push_str(&number::write_hex(hash, 16));
    out
}

/// The dedup key of a commitment.
pub open spec fn commitment_key_text(title: Seq<char>) -> Seq<char> {
    key_text("commit-"@, fnv(encode_utf8(norm(title))))
}

/// The dedup key of a memory.
pub open spec fn memory_key_text(content: Seq<char>) -> Seq<char> {
    key_text("mem-"@, fnv(encode_utf8(norm(content))))
}

/// Dedup key for an extracted commitment: the same obligation always maps to the
/// same key.
pub fn commitment_key(title: &str) -> (r: String)
    ensures
        r@ == commitment_key_text(title@),
        is_ascii_chars(text::respaced(title@, " "@)) ==> norm(title@) == casing::ascii_lowered(
            text::respaced(title@, " "@),
        ),
{
    write_key("commit-", fnv1a(title))
}

/// Dedup key for an extracted memory: the same fact always maps to the same key.
pub fn memory_key(content: &str) -> (r: String)
    ensures
        r@ == memory_key_text(content@),
        is_ascii_chars(text::respaced(content@, " "@)) ==> norm(content@) == casing::ascii_lowered(
            text::respaced(content@, " "@),
        ),
{
    write_key("mem-", fnv1a(content))
}

/// Texts with the same words, however spaced, get the same keys; and texts that
/// become equal when spaced alike and lower-cased do too.
pub proof fn keys_ignore_spacing_and_case(a: Seq<char>, b: Seq<char>)
    ensures
        text::words(a) == text::words(b) ==> commitment_key_text(a) == commitment_key_text(b)
            && memory_key_text(a) == memory_key_text(b),
        norm(a) == norm(b) ==> commitment_key_text(a) == commitment_key_text(b)
            && memory_key_text(a) == memory_key_text(b),
{
}

/// The words of a text with their ASCII capitals turned into small letters.
pub open spec fn small_words(s: Seq<char>) -> Seq<Seq<char>> {
    text::words(s).map_values(|w: Seq<char>| casing::ascii_lowered(w))
}

/// The text that stands for a list of words: one space between neighbours.
pub open spec fn spaced_words(w: Seq<Seq<char>>) -> Seq<char>
    decreases w.len(),
{
    if w.len() == 0 {
        Seq::empty()
    } else if w.len() == 1 {
        w[0]
    } else {
        spaced_words(w.drop_last()) + seq![' '] + w.last()
    }
}

proof fn lemma_spaced_words(w: Seq<Seq<char>>)
    ensures
        spaced_words(w) == text::joined(w, " "@),
    decreases w.len(),
{
    reveal_strlit(" ");
    assert(" "@ =~= seq![' ']);
    if w.len() > 1 {
        lemma_spaced_words(w.drop_last());
    }
}

/// What is hashed for a key keeps every word: it is the lower-case form of all the words
/// of the text, one space between neighbours; and texts whose words differ are different
/// texts before they are lower-cased.
pub proof fn keys_hash_every_word(a: &str, b: &str, x: u64, y: u64)
    requires
        call_ensures(fnv1a, (a,), x),
        call_ensures(fnv1a, (b,), y),
    ensures
        x == fnv(encode_utf8(casing::lowercase(spaced_words(text::words(a@))))),
        spaced_words(text::words(a@)) == spaced_words(text::words(b@)) <==> text::words(a@)
            == text::words(b@),
        text::words(a@) == text::words(b@) ==> x == y,
{
    lemma_spaced_words(text::words(a@));
    lemma_spaced_words(text::words(b@));
    text::lemma_words_are_words(a@);
    text::lemma_words_are_words(b@);
    text::lemma_joined_words(text::words(a@));
    text::lemma_joined_words(text::words(b@));
}

proof fn lemma_ascii_words(s: Seq<char>)
    requires
        is_ascii_chars(s),
    ensures
        is_ascii_chars(text::respaced(s, " "@)),
{
    text::lemma_words_are_words(s);
    lemma_ascii_joined(text::words(s), s);
}

proof fn lemma_ascii_joined(w: Seq<Seq<char>>, s: Seq<char>)
    requires
        is_ascii_chars(s),
        forall|i: int, k: int|
            0 <= i < w.len() && 0 <= k < w[i].len() ==> s.contains(#[trigger] w[i][k]),
    ensures
        is_ascii_chars(text::joined(w, " "@)),
    decreases w.len(),
{
    reveal_strlit(" ");
    let j = text::joined(w, " "@);
    if w.len() > 0 {
        let init = w.drop_last();
        assert forall|i: int, k: int| 0 <= i < init.len() && 0 <= k < init[i].len() implies s.contains(
            #[trigger] init[i][k],
        ) by {
            assert(w[i][k] == init[i][k]);
        }
        lemma_ascii_joined(init, s);
        let before = text::joined(init, " "@);
        let n = w.len() - 1;
        assert forall|k: int| 0 <= k < j.len() implies '\0' <= #[trigger] j[k] <= '\u{7f}' by {
            let start = j.len() - w[n].len();
            if k >= start {
                let c = w[n][k - start];
                assert(j[k] == c);
                assert(s.contains(w[n][k - start]));
                let m = choose|m: int| 0 <= m < s.len() && s[m] == c;
                assert('\0' <= s[m] <= '\u{7f}');
            } else if k < before.len() {
                assert(j[k] == before[k]);
            }
        }
    }
}

/// What is hashed for a text of ASCII characters is its words in small letters, one space
/// between neighbours: texts whose words differ, case aside, are hashed from different
/// bytes, and texts with the same words from the same.
pub proof fn keys_tell_words_apart(a: &str, b: &str, x: u64, y: u64)
    requires
        call_ensures(fnv1a, (a,), x),
        call_ensures(fnv1a, (b,), y),
        is_ascii_chars(a@),
        is_ascii_chars(b@),
    ensures
        x == fnv(encode_utf8(spaced_words(small_words(a@)))),
        y == fnv(encode_utf8(spaced_words(small_words(b@)))),
        small_words(a@) == small_words(b@) <==> encode_utf8(spaced_words(small_words(a@)))
            == encode_utf8(spaced_words(small_words(b@))),
{
    lemma_small_words(a@);
    lemma_small_words(b@);
    encode_utf8_decode_utf8(spaced_words(small_words(a@)));
    encode_utf8_decode_utf8(spaced_words(small_words(b@)));
}

/// Two keys of one kind agree exactly where FNV-1a gives one hash to the words of their
/// texts; and a memory never has the key of a commitment.
pub proof fn keys_of_one_kind_agree_by_their_words(
    a: &str,
    b: &str,
    m: String,
    n: String,
    c: String,
    d: String,
)
    requires
        call_ensures(memory_key, (a,), m),
        call_ensures(memory_key, (b,), n),
        call_ensures(commitment_key, (a,), c),
        call_ensures(commitment_key, (b,), d),
        is_ascii_chars(a@),
        is_ascii_chars(b@),
    ensures
        m@ == n@ <==> fnv(encode_utf8(spaced_words(small_words(a@)))) == fnv(
            encode_utf8(spaced_words(small_words(b@))),
        ),
        c@ == d@ <==> fnv(encode_utf8(spaced_words(small_words(a@)))) == fnv(
            encode_utf8(spaced_words(small_words(b@))),
        ),
        small_words(a@) == small_words(b@) ==> m@ == n@ && c@ == d@,
        m@ != d@,
{
    lemma_small_words(a@);
    lemma_small_words(b@);
    let x = fnv(encode_utf8(norm(a@)));
    let y = fnv(encode_utf8(norm(b@)));
    reveal_with_fuel(number::sixteens, 17);
    number::lemma_hex_apart(x as nat, y as nat, 16);
    number::lemma_hex_apart(y as nat, x as nat, 16);
    reveal_strlit("mem-");
    reveal_strlit("commit-");
    assert(m@.skip(4) =~= number::hex_digits(x as nat, 16));
    assert(n@.skip(4) =~= number::hex_digits(y as nat, 16));
    assert(c@.skip(7) =~= number::hex_digits(x as nat, 16));
    assert(d@.skip(7) =~= number::hex_digits(y as nat, 16));
    assert(m@.len() == 20 && d@.len() == 23);
}

proof fn lemma_small_words(s: Seq<char>)
    requires
        is_ascii_chars(s),
    ensures
        is_ascii_chars(text::respaced(s, " "@)),
        spaced_words(small_words(s)) == casing::ascii_lowered(text::respaced(s, " "@)),
        text::words(spaced_words(small_words(s))) == small_words(s),
{
    lemma_ascii_words(s);
    lemma_lowered_join(text::words(s));
    lemma_spaced_words(small_words(s));
    text::lemma_words_are_words(s);
    text::lemma_joined_words(text::words(s));
    casing::lemma_lowered_words(text::respaced(s, " "@));
}

proof fn lemma_lowered_join(w: Seq<Seq<char>>)
    ensures
        casing::ascii_lowered(text::joined(w, " "@)) == text::joined(
            w.map_values(|v: Seq<char>| casing::ascii_lowered(v)),
            " "@,
        ),
    decreases w.len(),
{
    reveal_strlit(" ");
    let f = |v: Seq<char>| casing::ascii_lowered(v);
    let m = w.map_values(f);
    if w.len() == 0 {
        assert(casing::ascii_lowered(text::joined(w, " "@)) =~= text::joined(m, " "@));
    } else if w.len() > 1 {
        lemma_lowered_join(w.drop_last());
        assert(m.drop_last() =~= w.drop_last().map_values(f));
        assert(casing::ascii_lowered(text::joined(w, " "@)) =~= text::joined(m, " "@));
    } else {
        assert(casing::ascii_lowered(text::joined(w, " "@)) =~= text::joined(m, " "@));
    }
}

// ---------------------------------------------------------------------------
// What is never written
// ---------------------------------------------------------------------------

/// The marks of an environment failure or a passing error.
pub open spec fn failure_marks() -> Seq<Seq<char>> {
    seq![
        "command not found"@,
        "missing credential"@,
        "missing credentials"@,
        "package not installed"@,
        "tool is broken"@,
        "tool broke"@,
        "retry fixed"@,
        "transient"@,
    ]
}

/// Whether a lower-case text tells of an environment failure or a passing error.
pub open spec fn tells_failure(lower: Seq<char>) -> bool {
    exists|k: int|
        0 <= k < failure_marks().len() && text::has_part(lower, #[trigger] failure_marks()[k])
}

/// Whether a text that is already lower-case tells of an environment failure or a
/// passing error.
pub fn tells_of_failure(lower: &str) -> (r: bool)
    ensures
        r == tells_failure(lower@),
{
    let ghost m = failure_marks();
    let r = text::contains(lower, "command not found") || text::contains(
        lower,
        "missing credential",
    ) || text::contains(lower, "missing credentials") || text::contains(
        lower,
        "package not installed",
    ) || text::contains(lower, "tool is broken") || text::contains(lower, "tool broke")
        || text::contains(lower, "retry fixed") || text::contains(lower, "transient");
    proof {
        assert(m[0] == "command not found"@ && m[1] == "missing credential"@ && m[2]
            == "missing credentials"@ && m[3] == "package not installed"@ && m[4]
            == "tool is broken"@ && m[5] == "tool broke"@ && m[6] == "retry fixed"@ && m[7]
            == "transient"@);
    }
    r
}

/// Whether a suggestion is about an environment failure or a passing error, which
/// is never written down.
pub fn should_skip(content: &str) -> (r: bool)
    ensures
        r == tells_failure(casing::lowercase(content@)),
{
    tells_of_failure(&content.to_lowercase())
}

// ---------------------------------------------------------------------------
// The prompt and the reply
// ---------------------------------------------------------------------------

/// A message as it stands in the transcript.
pub open spec fn rendered(m: Message) -> Seq<char> {
    m.role.word() + ": "@ + m.content@
}

/// A message as it stands in the transcript.
pub fn render_message(message: &Message) -> (r: String)
    ensures
        r@ == rendered(*message),
{
    let mut out = message.role.as_str().to_owned();
    out.push_str(": ");
    out.push_str(&message.content);
    out
}

/// The instruction that asks the model for suggestions, up to the transcript.
pub open spec fn request_text() -> Seq<char> {
    "\n\nReturn only JSON in this exact shape:\n{\"memories\":[{\"kind\":\"profile|preference|feedback|project|person|fact|decision|reference\",\"content\":\"...\"}],\"skills\":[{\"name\":\"class-level-skill-name\",\"description\":\"...\",\"instructions\":\"full patched skill body\"}],\"commitments\":[{\"title\":\"short actionable obligation\",\"waiting_on\":\"who it involves, or empty\",\"note\":\"context/deadline, or empty\"}]}\nUse empty arrays when nothing durable should be written.\n\nSession transcript:\n"@
}

/// The messages of a session as they stand in the transcript.
pub open spec fn transcript(messages: Seq<Message>) -> Seq<Seq<char>> {
    Seq::new(messages.len(), |i: int| rendered(messages[i]))
}

/// What the reviewing model is asked about a session.
pub fn review_prompt(session: &Session) -> (r: String)
    ensures
        r@ == SELF_REVIEW_PROMPT@ + request_text() + text::joined(
            transcript(session.messages@),
            "\n\n"@,
        ),
{
    broadcast use text::lemma_views_push;

    let mut lines: Vec<String> = Vec::new();
    let mut i: usize = 0;
    assert(text::views(lines@) =~= transcript(session.messages@).take(0));
    while i < session.messages.len()
        invariant
            i <= session.messages.len(),
            text::views(lines@) == transcript(session.messages@).take(i as int),
        decreases session.messages.len() - i,
    {
        let ghost before = text::views(lines@);
        lines.push(render_message(&session.messages[i]));
        assert(text::views(lines@) == before.push(rendered(session.messages@[i as int])));
        i = i + 1;
        assert(text::views(lines@) =~= transcript(session.messages@).take(i as int));
    }
    assert(transcript(session.messages@).take(i as int) =~= transcript(session.messages@));
    let mut out = SELF_REVIEW_PROMPT.to_owned();
    out.push_str(
        "\n\nReturn only JSON in this exact shape:\n{\"memories\":[{\"kind\":\"profile|preference|feedback|project|person|fact|decision|reference\",\"content\":\"...\"}],\"skills\":[{\"name\":\"class-level-skill-name\",\"description\":\"...\",\"instructions\":\"full patched skill body\"}],\"commitments\":[{\"title\":\"short actionable obligation\",\"waiting_on\":\"who it involves, or empty\",\"note\":\"context/deadline, or empty\"}]}\nUse empty arrays when nothing durable should be written.\n\nSession transcript:\n",
    );
    out.push_str(&text::join(&lines, "\n\n"));
    out
}

/// What stands after the first `open` and before the next fence.
pub open spec fn fenced(reply: Seq<char>, open: Seq<char>) -> Option<Seq<char>> {
    match text::cut_at(reply, open) {
        Some(sides) => match text::cut_at(sides.1, "```"@) {
            Some(inner) => Some(inner.0),
            None => None,
        },
        None => None,
    }
}

/// The JSON part of a reply: a fenced JSON block, else any fenced block, else the
/// whole reply.
pub open spec fn json_part(reply: Seq<char>) -> Seq<char> {
    match fenced(reply, "```json"@) {
        Some(s) => s,
        None => match fenced(reply, "```"@) {
            Some(s) => s,
            None => reply,
        },
    }
}

/// The JSON part of a reply.
pub fn extract_json(reply: &str) -> (r: &str)
    ensures
        r@ == json_part(reply@),
{
    if let Some(sides) = text::split_once(reply, "```json") {
        if let Some(inner) = text::split_once(sides.1, "```") {
            return inner.0;
        }
    }
    if let Some(sides) = text::split_once(reply, "```") {
        if let Some(inner) = text::split_once(sides.1, "```") {
            return inner.0;
        }
    }
    reply
}

/// The JSON document in a reply, or none when there is nothing in it.
pub fn suggestion_document(reply: &str) -> (r: Option<String>)
    ensures
        text::opt_text(r) == {
            let t = text::trimmed(json_part(reply@));
            if t.len() == 0 {
                None
            } else {
                Some(t)
            }
        },
{
    let json = text::trim(extract_json(reply));
    if json.is_empty() {
        None
    } else {
        Some(json.to_owned())
    }
}

// ---------------------------------------------------------------------------
// Suggestions
// ---------------------------------------------------------------------------

#[derive(Debug)]
pub struct MemorySuggestion {
    /// A free-form kind, read leniently.
    pub kind: Option<String>,
    pub content: String,
}

#[derive(Debug)]
pub struct SkillSuggestion {
    pub name: String,
    pub description: Option<String>,
    pub instructions: String,
}

#[derive(Debug)]
pub struct CommitmentSuggestion {
    pub title: String,
    pub waiting_on: Option<String>,
    pub note: Option<String>,
}

#[derive(Debug)]
pub struct ReviewSuggestions {
    pub memories: Vec<MemorySuggestion>,
    pub skills: Vec<SkillSuggestion>,
    pub commitments: Vec<CommitmentSuggestion>,
}

/// Whether the suggestion at position `i` is admitted: not barred, its key not
/// held already, and no admitted one before it with the same key.
pub open spec fn admitted_at(
    keys: Seq<Seq<char>>,
    barred: Seq<bool>,
    held: Seq<Seq<char>>,
    i: int,
) -> bool {
    &&& !barred[i]
    &&& !held.contains(keys[i])
    &&& !(exists|j: int| 0 <= j < i && !barred[j] && #[trigger] keys[j] == keys[i])
}

/// The positions of the admitted suggestions among the first `n`, in order.
pub open spec fn admitted(
    keys: Seq<Seq<char>>,
    barred: Seq<bool>,
    held: Seq<Seq<char>>,
    n: int,
) -> Seq<int>
    decreases n,
{
    if n <= 0 {
        Seq::empty()
    } else {
        let init = admitted(keys, barred, held, n - 1);
        if admitted_at(keys, barred, held, n - 1) {
            init.push(n - 1)
        } else {
            init
        }
    }
}

/// Whether an unbarred suggestion before `i` has the key at `i`.
fn repeats(keys: &Vec<String>, barred: &Vec<bool>, i: usize) -> (r: bool)
    requires
        i < keys@.len() == barred@.len(),
    ensures
        r == exists|j: int|
            0 <= j < i && !barred@[j] && #[trigger] text::views(keys@)[j] == text::views(
                keys@,
            )[i as int],
{
    let ghost v = text::views(keys@);
    let mut j: usize = 0;
    while j < i
        invariant
            j <= i < keys@.len() == barred@.len(),
            v == text::views(keys@),
            forall|k: int| 0 <= k < j && !barred@[k] ==> #[trigger] v[k] != v[i as int],
        decreases i - j,
    {
        if !barred[j] && text::same(&keys[j], &keys[i]) {
            assert(v[j as int] == v[i as int]);
            return true;
        }
        j = j + 1;
    }
    false
}

/// Which suggestions are new: not barred, not held already, and the first of
/// their key. The result lists their positions in order.
pub fn pick_new(keys: &Vec<String>, barred: &Vec<bool>, held: &Vec<String>) -> (r: Vec<usize>)
    requires
        keys@.len() == barred@.len(),
    ensures
        r@.len() == admitted(
            text::views(keys@),
            barred@,
            text::views(held@),
            keys@.len() as int,
        ).len(),
        r@.len() <= keys@.len(),
        forall|k: int|
            0 <= k < r@.len() ==> r@[k] == #[trigger] admitted(
                text::views(keys@),
                barred@,
                text::views(held@),
                keys@.len() as int,
            )[k],
        forall|k: int| 0 <= k < r@.len() ==> #[trigger] r@[k] < keys@.len(),
{
    let ghost v = text::views(keys@);
    let ghost h = text::views(held@);
    let mut out: Vec<usize> = Vec::new();
    let mut i: usize = 0;
    while i < keys.len()
        invariant
            i <= keys@.len() == barred@.len(),
            v == text::views(keys@),
            h == text::views(held@),
            out@.len() == admitted(v, barred@, h, i as int).len(),
            out@.len() <= i,
            forall|k: int|
                0 <= k < out@.len() ==> out@[k] == #[trigger] admitted(v, barred@, h, i as int)[k],
            forall|k: int| 0 <= k < out@.len() ==> #[trigger] out@[k] < i,
        decreases keys.len() - i,
    {
        let ghost before = admitted(v, barred@, h, i as int);
        assert(v[i as int] == keys@[i as int]@);
        if !barred[i] && !text::listed(held, &keys[i]) && !repeats(keys, barred, i) {
            assert(admitted_at(v, barred@, h, i as int));
            out.push(i);
        } else {
            assert(!admitted_at(v, barred@, h, i as int));
        }
        i = i + 1;
        proof {
            let now = admitted(v, barred@, h, i as int);
            assert forall|k: int| 0 <= k < out@.len() implies out@[k] == #[trigger] now[k] by {
                if k < before.len() {
                    assert(out@[k] == before[k]);
                }
            }
        }
    }
    out
}

/// No two admitted suggestions share a key, and none has a key that was held.
pub proof fn admission_never_repeats(
    keys: Seq<Seq<char>>,
    barred: Seq<bool>,
    held: Seq<Seq<char>>,
    n: int,
)
    requires
        0 <= n <= keys.len(),
    ensures
        forall|a: int|
            0 <= a < admitted(keys, barred, held, n).len() ==> {
                let i = #[trigger] admitted(keys, barred, held, n)[a];
                0 <= i < n && !barred[i] && !held.contains(keys[i])
            },
        forall|a: int, b: int|
            0 <= a < b < admitted(keys, barred, held, n).len() ==> keys[#[trigger] admitted(
                keys,
                barred,
                held,
                n,
            )[a]] != keys[#[trigger] admitted(keys, barred, held, n)[b]],
    decreases n,
{
    if n > 0 {
        admission_never_repeats(keys, barred, held, n - 1);
        let init = admitted(keys, barred, held, n - 1);
        let now = admitted(keys, barred, held, n);
        assert forall|a: int| 0 <= a < now.len() implies {
            let i = #[trigger] now[a];
            0 <= i < n && !barred[i] && !held.contains(keys[i])
        } by {
            if a < init.len() {
                assert(now[a] == init[a]);
            }
        }
        assert forall|a: int, b: int| 0 <= a < b < now.len() implies keys[#[trigger] now[a]]
            != keys[#[trigger] now[b]] by {
            assert(now[a] == init[a]);
            if b < init.len() {
                assert(now[b] == init[b]);
            } else {
                assert(now[b] == n - 1);
                assert(admitted_at(keys, barred, held, n - 1));
            }
        }
    }
}

// ---------------------------------------------------------------------------
// Memories
// ---------------------------------------------------------------------------

/// The keys that bar a memory from being proposed, from the first `n` memories on
/// file: those of the active memories in scope (the assistant would only echo
/// what it was told), and those that this session has already produced.
pub open spec fn held_keys(
    all: Seq<Memory>,
    session: Seq<char>,
    scopes: Seq<memory::Scope>,
    n: int,
) -> Seq<Seq<char>>
    decreases n,
{
    if n <= 0 || n > all.len() {
        Seq::empty()
    } else {
        let m = all[n - 1];
        let init = held_keys(all, session, scopes, n - 1);
        let known = if m.status == MemoryStatus::Active && scopes.contains(m.scope@) {
            init.push(memory_key_text(m.content@))
        } else {
            init
        };
        if m.source@ == session && m.source_message_id@.len() > 0 {
            known.push(m.source_message_id@)
        } else {
            known
        }
    }
}

/// The keys that bar a memory from being proposed.
pub fn keys_on_file(all: &Vec<Memory>, session_id: &str, ctx: &MemoryContext) -> (r: Vec<String>)
    ensures
        text::views(r@) == held_keys(
            all@,
            session_id@,
            memory::scopes_of(ctx.allowed_scopes@),
            all@.len() as int,
        ),
{
    broadcast use text::lemma_views_push;

    let ghost scopes = memory::scopes_of(ctx.allowed_scopes@);
    let mut out: Vec<String> = Vec::new();
    let mut i: usize = 0;
    assert(text::views(out@) =~= held_keys(all@, session_id@, scopes, 0));
    while i < all.len()
        invariant
            i <= all.len(),
            scopes == memory::scopes_of(ctx.allowed_scopes@),
            text::views(out@) == held_keys(all@, session_id@, scopes, i as int),
        decreases all.len() - i,
    {
        let m = &all[i];
        let ghost before = text::views(out@);
        if m.status == MemoryStatus::Active && ctx.allows(&m.scope) {
            out.push(memory_key(&m.content));
            assert(text::views(out@) == before.push(memory_key_text(m.content@)));
        }
        let ghost known = text::views(out@);
        if text::same(&m.source, session_id) && !m.source_message_id.as_str().is_empty() {
            out.push(m.source_message_id.clone());
            assert(text::views(out@) == known.push(m.source_message_id@));
        }
        i = i + 1;
    }
    out
}

/// The kind that a suggestion means.
pub open spec fn suggested_kind(kind: Option<String>) -> MemoryKind {
    match kind {
        Some(w) => memory::kind_of(text::trimmed(w@)),
        None => MemoryKind::Fact,
    }
}

/// Whether `m` was made at `now`, with the clock at `nanos`.
pub open spec fn is_stamped_memory(m: Memory, now: i64, nanos: int) -> bool {
    &&& m.id@ == "mem-"@ + number::signed(nanos)
    &&& m.created_at == now
    &&& m.updated_at == now
    &&& system::clock_reads(now as int)
    &&& system::clock_ticks(nanos)
}

/// Whether `m` is the memory that a suggestion proposes from a session, under a
/// key: a candidate of the lowest confidence, in the scope of its origin, and
/// traceable to it.
pub open spec fn is_proposed_memory(
    m: Memory,
    s: MemorySuggestion,
    session: Seq<char>,
    key: Seq<char>,
) -> bool {
    &&& m.kind == suggested_kind(s.kind)
    &&& m.content@ == s.content@
    &&& m.status == MemoryStatus::Candidate
    &&& m.confidence == MemoryConfidence::Extracted
    &&& m.importance == memory::DEFAULT_IMPORTANCE
    &&& !m.pinned
    &&& m.scope@ == memory::first_channel(memory::session_scopes(session))
    &&& m.source@ == session
    &&& m.source_message_id@ == key
    &&& m.expires_at is None
    &&& m.last_used_at is None
    &&& m.recall_count == 0
    &&& m.recall_queries == 0
    &&& exists|now: i64, nanos: int| is_stamped_memory(m, now, nanos)
}

fn propose_memory(s: &MemorySuggestion, session_id: &str, key: &str) -> (r: Memory)
    ensures
        is_proposed_memory(r, *s, session_id@, key@),
{
    let kind = match &s.kind {
        Some(w) => memory::parse_memory_kind(w),
        None => MemoryKind::Fact,
    };
    let ctx = MemoryContext::from_session(session_id);
    let mut m = Memory::new(kind, &s.content);
    let ghost (now, nanos) = choose|now: i64, nanos: int| #[trigger]
        m.is_fresh(kind, s.content@, now, nanos) && system::clock_reads(now as int)
            && system::clock_ticks(nanos);
    m.status = MemoryStatus::Candidate;
    m.confidence = MemoryConfidence::Extracted;
    m.scope = ctx.write_scope();
    m.source = session_id.to_owned();
    m.source_message_id = key.to_owned();
    assert(is_stamped_memory(m, now, nanos));
    m
}

/// The memories to write, given the suggestions' keys, which of them are barred,
/// and the keys on file.
pub fn propose_memories(
    suggestions: &Vec<MemorySuggestion>,
    session_id: &str,
    keys: &Vec<String>,
    barred: &Vec<bool>,
    held: &Vec<String>,
) -> (r: Vec<Memory>)
    requires
        suggestions@.len() == keys@.len() == barred@.len(),
    ensures
        ({
            let at = admitted(text::views(keys@), barred@, text::views(held@), keys@.len() as int);
            &&& r@.len() == at.len()
            &&& forall|k: int|
                0 <= k < at.len() ==> is_proposed_memory(
                    #[trigger] r@[k],
                    suggestions@[at[k]],
                    session_id@,
                    text::views(keys@)[at[k]],
                )
        }),
{
    let at = pick_new(keys, barred, held);
    let ghost sat = admitted(text::views(keys@), barred@, text::views(held@), keys@.len() as int);
    let mut out: Vec<Memory> = Vec::new();
    let mut k: usize = 0;
    while k < at.len()
        invariant
            k <= at.len() == sat.len(),
            suggestions@.len() == keys@.len(),
            out@.len() == k,
            forall|j: int| 0 <= j < at@.len() ==> at@[j] == #[trigger] sat[j],
            forall|j: int| 0 <= j < at@.len() ==> #[trigger] at@[j] < keys@.len(),
            forall|j: int|
                0 <= j < k ==> is_proposed_memory(
                    #[trigger] out@[j],
                    suggestions@[sat[j]],
                    session_id@,
                    text::views(keys@)[sat[j]],
                ),
        decreases at.len() - k,
    {
        let i: usize = at[k];
        assert(i == sat[k as int]);
        out.push(propose_memory(&suggestions[i], session_id, &keys[i]));
        k = k + 1;
    }
    out
}

/// The keys of suggested memories.
pub open spec fn suggested_keys(s: Seq<MemorySuggestion>) -> Seq<Seq<char>> {
    Seq::new(s.len(), |i: int| memory_key_text(s[i].content@))
}

/// Which suggested memories are never written.
pub open spec fn suggested_bars(s: Seq<MemorySuggestion>) -> Seq<bool> {
    Seq::new(s.len(), |i: int| tells_failure(casing::lowercase(s[i].content@)))
}

/// The positions of the suggested memories that are to be written.
pub open spec fn new_memories(
    s: Seq<MemorySuggestion>,
    session: Seq<char>,
    all: Seq<Memory>,
) -> Seq<int> {
    admitted(
        suggested_keys(s),
        suggested_bars(s),
        held_keys(all, session, memory::session_scopes(session), all.len() as int),
        s.len() as int,
    )
}

/// The memories to write for a session's suggestions, given all that are on file.
pub fn plan_memories(suggestions: &Vec<MemorySuggestion>, session_id: &str, all: &Vec<Memory>) -> (r:
    Vec<Memory>)
    ensures
        ({
            let at = new_memories(suggestions@, session_id@, all@);
            &&& r@.len() == at.len()
            &&& forall|k: int|
                0 <= k < at.len() ==> is_proposed_memory(
                    #[trigger] r@[k],
                    suggestions@[at[k]],
                    session_id@,
                    suggested_keys(suggestions@)[at[k]],
                )
        }),
{
    broadcast use text::lemma_views_push;

    let ctx = MemoryContext::from_session(session_id);
    let held = keys_on_file(all, session_id, &ctx);
    let mut keys: Vec<String> = Vec::new();
    let mut barred: Vec<bool> = Vec::new();
    let mut i: usize = 0;
    assert(text::views(keys@) =~= suggested_keys(suggestions@).take(0));
    while i < suggestions.len()
        invariant
            i <= suggestions.len(),
            keys@.len() == i,
            text::views(keys@) == suggested_keys(suggestions@).take(i as int),
            barred@ == suggested_bars(suggestions@).take(i as int),
        decreases suggestions.len() - i,
    {
        let s = &suggestions[i];
        let ghost before = text::views(keys@);
        keys.push(memory_key(&s.content));
        assert(text::views(keys@) == before.push(memory_key_text(s.content@)));
        barred.push(should_skip(&s.content));
        i = i + 1;
        assert(text::views(keys@) =~= suggested_keys(suggestions@).take(i as int));
    }
    assert(text::views(keys@) =~= suggested_keys(suggestions@));
    assert(barred@ =~= suggested_bars(suggestions@));
    propose_memories(suggestions, session_id, &keys, &barred, &held)
}

// ---------------------------------------------------------------------------
// Skills
// ---------------------------------------------------------------------------

/// Whether `r` is what becomes of a suggested skill: nothing when it is barred or
/// the operator has protected the skill of that name, and otherwise a proposal
/// that keeps the old description where none is suggested.
pub open spec fn is_proposed_skill(
    s: SkillSuggestion,
    barred: bool,
    existing: Option<Skill>,
    r: Option<Skill>,
) -> bool {
    if barred || (existing is Some && existing->0.protected) {
        r is None
    } else {
        &&& r is Some
        &&& r->0.name@ == s.name@
        &&& r->0.description@ == match s.description {
            Some(d) => d@,
            None => match existing {
                Some(e) => e.description@,
                None => Seq::empty(),
            },
        }
        &&& r->0.instructions@ == s.instructions@
        &&& !r->0.protected
        &&& !r->0.disabled
        &&& r->0.source@ == SOURCE_REVIEWER@
    }
}

/// What becomes of a suggested skill, given whether it is barred.
pub fn propose_skill(s: &SkillSuggestion, barred: bool, existing: &Option<Skill>) -> (r: Option<
    Skill,
>)
    ensures
        is_proposed_skill(*s, barred, *existing, r),
{
    if barred {
        return None;
    }
    let kept = match existing {
        Some(e) => {
            if e.protected {
                return None;
            }
            e.description.clone()
        },
        None => String::new(),
    };
    let description = match &s.description {
        Some(d) => d.clone(),
        None => kept,
    };
    Some(
        Skill {
            name: s.name.clone(),
            description,
            instructions: s.instructions.clone(),
            protected: false,
            disabled: false,
            source: SOURCE_REVIEWER.to_owned(),
        },
    )
}

/// What becomes of a suggested skill, given the skill of that name on file.
pub fn plan_skill(s: &SkillSuggestion, existing: &Option<Skill>) -> (r: Option<Skill>)
    ensures
        is_proposed_skill(
            *s,
            tells_failure(casing::lowercase(s.instructions@)),
            *existing,
            r,
        ),
{
    propose_skill(s, should_skip(&s.instructions), existing)
}

// ---------------------------------------------------------------------------
// Commitments
// ---------------------------------------------------------------------------

/// The text of an optional string, or nothing.
pub open spec fn text_or_none(o: Option<String>) -> Seq<char> {
    match o {
        Some(s) => s@,
        None => Seq::empty(),
    }
}

/// Whether `t` was made at `now`, with the clock at `nanos`.
pub open spec fn is_stamped_task(t: Task, now: i64, nanos: int) -> bool {
    &&& t.id@ == "task-"@ + number::signed(nanos)
    &&& t.created_at == now
    &&& system::clock_reads(now as int)
    &&& system::clock_ticks(nanos)
}

/// Whether `t` is the task that a commitment proposes from a session, under a
/// key: an inbox item that the user confirms or discards.
pub open spec fn is_proposed_task(
    t: Task,
    c: CommitmentSuggestion,
    session: Seq<char>,
    key: Seq<char>,
) -> bool {
    &&& t.title@ == text::trimmed(c.title@)
    &&& t.status == TaskStatus::Inbox
    &&& t.note@ == text_or_none(c.note)
    &&& t.waiting_on@ == text_or_none(c.waiting_on)
    &&& t.source@ == session
    &&& t.source_message_id@ == key
    &&& t.due_at is None
    &&& t.board@.len() == 0
    &&& t.due_notified_at is None
    &&& t.completed_at is None
    &&& exists|now: i64, nanos: int| is_stamped_task(t, now, nanos)
}

fn own_or_none(o: &Option<String>) -> (r: String)
    ensures
        r@ == text_or_none(*o),
{
    match o {
        Some(s) => s.clone(),
        None => String::new(),
    }
}

fn propose_task(c: &CommitmentSuggestion, session_id: &str, key: &str) -> (r: Task)
    ensures
        is_proposed_task(r, *c, session_id@, key@),
{
    let mut t = Task::new(text::trim(&c.title).to_owned());
    let ghost (now, nanos) = choose|now: i64, nanos: int| #[trigger]
        t.is_fresh(text::trimmed(c.title@), now, nanos) && system::clock_reads(now as int)
            && system::clock_ticks(nanos);
    t.status = TaskStatus::Inbox;
    t.note = own_or_none(&c.note);
    t.waiting_on = own_or_none(&c.waiting_on);
    t.source = session_id.to_owned();
    t.source_message_id = key.to_owned();
    assert(is_stamped_task(t, now, nanos));
    t
}

/// The tasks to capture, given the commitments' keys, which of them are barred,
/// and the keys on file for the session.
pub fn propose_tasks(
    commitments: &Vec<CommitmentSuggestion>,
    session_id: &str,
    keys: &Vec<String>,
    barred: &Vec<bool>,
    held: &Vec<String>,
) -> (r: Vec<Task>)
    requires
        commitments@.len() == keys@.len() == barred@.len(),
    ensures
        ({
            let at = admitted(text::views(keys@), barred@, text::views(held@), keys@.len() as int);
            &&& r@.len() == at.len()
            &&& forall|k: int|
                0 <= k < at.len() ==> is_proposed_task(
                    #[trigger] r@[k],
                    commitments@[at[k]],
                    session_id@,
                    text::views(keys@)[at[k]],
                )
        }),
{
    let at = pick_new(keys, barred, held);
    let ghost sat = admitted(text::views(keys@), barred@, text::views(held@), keys@.len() as int);
    let mut out: Vec<Task> = Vec::new();
    let mut k: usize = 0;
    while k < at.len()
        invariant
            k <= at.len() == sat.len(),
            commitments@.len() == keys@.len(),
            out@.len() == k,
            forall|j: int| 0 <= j < at@.len() ==> at@[j] == #[trigger] sat[j],
            forall|j: int| 0 <= j < at@.len() ==> #[trigger] at@[j] < keys@.len(),
            forall|j: int|
                0 <= j < k ==> is_proposed_task(
                    #[trigger] out@[j],
                    commitments@[sat[j]],
                    session_id@,
                    text::views(keys@)[sat[j]],
                ),
        decreases at.len() - k,
    {
        let i: usize = at[k];
        assert(i == sat[k as int]);
        out.push(propose_task(&commitments[i], session_id, &keys[i]));
        k = k + 1;
    }
    out
}

/// The keys of suggested commitments.
pub open spec fn commitment_keys(c: Seq<CommitmentSuggestion>) -> Seq<Seq<char>> {
    Seq::new(c.len(), |i: int| commitment_key_text(text::trimmed(c[i].title@)))
}

/// Which suggested commitments are never captured: those without a title, and
/// those that tell of a failure.
pub open spec fn commitment_bars(c: Seq<CommitmentSuggestion>) -> Seq<bool> {
    Seq::new(
        c.len(),
        |i: int|
            text::trimmed(c[i].title@).len() == 0 || tells_failure(
                casing::lowercase(text::trimmed(c[i].title@)),
            ),
    )
}

/// The keys of suggested commitments, by which the store is asked for them.
pub fn keys_of_commitments(commitments: &Vec<CommitmentSuggestion>) -> (r: Vec<String>)
    ensures
        text::views(r@) == commitment_keys(commitments@),
{
    broadcast use text::lemma_views_push;

    let mut keys: Vec<String> = Vec::new();
    let mut i: usize = 0;
    assert(text::views(keys@) =~= commitment_keys(commitments@).take(0));
    while i < commitments.len()
        invariant
            i <= commitments.len(),
            text::views(keys@) == commitment_keys(commitments@).take(i as int),
        decreases commitments.len() - i,
    {
        let ghost before = text::views(keys@);
        keys.push(commitment_key(text::trim(&commitments[i].title)));
        assert(text::views(keys@) == before.push(commitment_keys(commitments@)[i as int]));
        i = i + 1;
        assert(text::views(keys@) =~= commitment_keys(commitments@).take(i as int));
    }
    assert(text::views(keys@) =~= commitment_keys(commitments@));
    keys
}

/// The tasks to capture for a session's commitments, given the keys that the
/// store already holds for the session, whatever became of those tasks.
pub fn plan_tasks(commitments: &Vec<CommitmentSuggestion>, session_id: &str, held: &Vec<String>) -> (r:
    Vec<Task>)
    ensures
        ({
            let at = admitted(
                commitment_keys(commitments@),
                commitment_bars(commitments@),
                text::views(held@),
                commitments@.len() as int,
            );
            &&& r@.len() == at.len()
            &&& forall|k: int|
                0 <= k < at.len() ==> is_proposed_task(
                    #[trigger] r@[k],
                    commitments@[at[k]],
                    session_id@,
                    commitment_keys(commitments@)[at[k]],
                )
        }),
{
    let keys = keys_of_commitments(commitments);
    assert(text::views(keys@).len() == commitments@.len());
    let mut barred: Vec<bool> = Vec::new();
    let mut i: usize = 0;
    while i < commitments.len()
        invariant
            i <= commitments.len(),
            barred@ == commitment_bars(commitments@).take(i as int),
        decreases commitments.len() - i,
    {
        let title = text::trim(&commitments[i].title);
        barred.push(title.is_empty() || should_skip(title));
        i = i + 1;
    }
    assert(barred@ =~= commitment_bars(commitments@));
    propose_tasks(commitments, session_id, &keys, &barred, held)
}

/// The session in which the reviewing model is asked about `session`.
pub fn review_session(session: &Session, now: i64) -> (r: Session)
    ensures
        r.id@ == "review-"@ + session.id@,
        r.messages@.len() == 1,
        r.messages@[0].role == crate::domain::message::Role::User,
        r.messages@[0].content@ == SELF_REVIEW_PROMPT@ + request_text() + text::joined(
            transcript(session.messages@),
            "\n\n"@,
        ),
        r.created_at == now,
{
    let mut id = "review-".to_owned();
    id.push_str(&session.id);
    let mut messages: Vec<Message> = Vec::new();
    messages.push(Message::user(review_prompt(session)));
    Session { id, messages, created_at: now }
}

// ---------------------------------------------------------------------------
// A whole review
// ---------------------------------------------------------------------------

/// What a review may rest on: everything the stores hold that it has to respect.
#[derive(Debug)]
pub struct ReflectiveReviewer {
    /// Every memory on file.
    pub memories: Vec<Memory>,
    /// For each suggested skill, the skill of that name on file.
    pub skills: Vec<Option<Skill>>,
    /// The keys of the tasks that the session gave before, whatever became of them.
    pub task_keys: Vec<String>,
}

/// What a review writes, in this order.
#[derive(Debug)]
pub struct ReviewPlan {
    pub memories: Vec<Memory>,
    pub skills: Vec<Skill>,
    pub tasks: Vec<Task>,
}

/// Which suggested skills are proposed: not those that tell of a failure, nor those that
/// the operator has protected.
pub open spec fn skill_flags(s: Seq<SkillSuggestion>, existing: Seq<Option<Skill>>) -> Seq<bool> {
    Seq::new(
        s.len(),
        |i: int|
            !tells_failure(casing::lowercase(s[i].instructions@)) && !(existing[i] matches Some(e)
                && e.protected),
    )
}

/// Whether `r` are the skills that the suggestions propose.
pub open spec fn are_proposed_skills(
    s: Seq<SkillSuggestion>,
    existing: Seq<Option<Skill>>,
    r: Seq<Skill>,
) -> bool {
    let at = sorting::chosen(skill_flags(s, existing));
    &&& r.len() == at.len()
    &&& forall|k: int|
        0 <= k < at.len() ==> is_proposed_skill(
            s[at[k]],
            false,
            existing[at[k]],
            Some(#[trigger] r[k]),
        )
}

fn plan_skills(suggestions: &Vec<SkillSuggestion>, existing: &Vec<Option<Skill>>) -> (r: Vec<Skill>)
    requires
        suggestions@.len() == existing@.len(),
    ensures
        are_proposed_skills(suggestions@, existing@, r@),
{
    let ghost flags = skill_flags(suggestions@, existing@);
    let mut out: Vec<Skill> = Vec::new();
    let mut i: usize = 0;
    while i < suggestions.len()
        invariant
            i <= suggestions.len() == existing.len(),
            flags == skill_flags(suggestions@, existing@),
            ({
                let at = sorting::chosen(flags.take(i as int));
                &&& out@.len() == at.len()
                &&& forall|k: int|
                    0 <= k < at.len() ==> is_proposed_skill(
                        suggestions@[at[k]],
                        false,
                        existing@[at[k]],
                        Some(#[trigger] out@[k]),
                    )
            }),
        decreases suggestions.len() - i,
    {
        let planned = plan_skill(&suggestions[i], &existing[i]);
        assert(flags.take(i + 1).drop_last() =~= flags.take(i as int));
        assert(flags.take(i + 1).last() == flags[i as int]);
        if let Some(skill) = planned {
            out.push(skill);
        }
        i = i + 1;
    }
    assert(flags.take(i as int) =~= flags);
    out
}

/// Whether `r` is the plan for a session's suggestions.
pub open spec fn is_plan(
    on_file: ReflectiveReviewer,
    session: Seq<char>,
    s: ReviewSuggestions,
    r: ReviewPlan,
) -> bool {
    let memories = new_memories(s.memories@, session, on_file.memories@);
    let tasks = admitted(
        commitment_keys(s.commitments@),
        commitment_bars(s.commitments@),
        text::views(on_file.task_keys@),
        s.commitments@.len() as int,
    );
    &&& r.memories@.len() == memories.len()
    &&& forall|k: int|
        0 <= k < memories.len() ==> is_proposed_memory(
            #[trigger] r.memories@[k],
            s.memories@[memories[k]],
            session,
            suggested_keys(s.memories@)[memories[k]],
        )
    &&& are_proposed_skills(s.skills@, on_file.skills@, r.skills@)
    &&& r.tasks@.len() == tasks.len()
    &&& forall|k: int|
        0 <= k < tasks.len() ==> is_proposed_task(
            #[trigger] r.tasks@[k],
            s.commitments@[tasks[k]],
            session,
            commitment_keys(s.commitments@)[tasks[k]],
        )
}

proof fn lemma_admitted_lists(
    keys: Seq<Seq<char>>,
    barred: Seq<bool>,
    held: Seq<Seq<char>>,
    i: int,
    n: int,
)
    requires
        0 <= i < n,
        admitted_at(keys, barred, held, i),
    ensures
        admitted(keys, barred, held, n).contains(i),
    decreases n,
{
    let now = admitted(keys, barred, held, n);
    if i == n - 1 {
        assert(now.last() == i);
    } else {
        lemma_admitted_lists(keys, barred, held, i, n - 1);
        let init = admitted(keys, barred, held, n - 1);
        let k = choose|k: int| 0 <= k < init.len() && init[k] == i;
        assert(now[k] == i);
    }
}

proof fn lemma_key_is_admitted(
    keys: Seq<Seq<char>>,
    barred: Seq<bool>,
    held: Seq<Seq<char>>,
    i: int,
    n: int,
) -> (a: int)
    requires
        0 <= i < n,
        !barred[i],
        !held.contains(keys[i]),
    ensures
        0 <= a < admitted(keys, barred, held, n).len(),
        keys[admitted(keys, barred, held, n)[a]] == keys[i],
    decreases i,
{
    if admitted_at(keys, barred, held, i) {
        lemma_admitted_lists(keys, barred, held, i, n);
        choose|k: int|
            0 <= k < admitted(keys, barred, held, n).len() && admitted(keys, barred, held, n)[k] == i
    } else {
        let j = choose|j: int| 0 <= j < i && !barred[j] && #[trigger] keys[j] == keys[i];
        lemma_key_is_admitted(keys, barred, held, j, n)
    }
}

/// Whether a memory on file bars a key.
spec fn bars_key(m: Memory, session: Seq<char>, scopes: Seq<memory::Scope>, key: Seq<char>) -> bool {
    ||| m.status == MemoryStatus::Active && scopes.contains(m.scope@) && memory_key_text(m.content@)
        == key
    ||| m.source@ == session && m.source_message_id@.len() > 0 && m.source_message_id@ == key
}

proof fn lemma_held_is_barred(
    all: Seq<Memory>,
    session: Seq<char>,
    scopes: Seq<memory::Scope>,
    n: int,
    key: Seq<char>,
)
    requires
        0 <= n <= all.len(),
    ensures
        held_keys(all, session, scopes, n).contains(key) <==> exists|i: int|
            0 <= i < n && #[trigger] bars_key(all[i], session, scopes, key),
    decreases n,
{
    if n > 0 {
        lemma_held_is_barred(all, session, scopes, n - 1, key);
        let m = all[n - 1];
        let init = held_keys(all, session, scopes, n - 1);
        let now = held_keys(all, session, scopes, n);
        if init.contains(key) {
            let k = choose|k: int| 0 <= k < init.len() && init[k] == key;
            assert(now[k] == key);
        }
        if m.status == MemoryStatus::Active && scopes.contains(m.scope@) {
            assert(now[init.len() as int] == memory_key_text(m.content@));
        }
        if m.source@ == session && m.source_message_id@.len() > 0 {
            assert(now.last() == m.source_message_id@);
        }
        if now.contains(key) && !init.contains(key) {
            let k = choose|k: int| 0 <= k < now.len() && now[k] == key;
            if k < init.len() {
                assert(init[k] == key);
            }
            assert(bars_key(all[n - 1], session, scopes, key));
        }
    }
}

/// Reviewing a session again, with the same suggestions and what the first review wrote on
/// file, writes no memory and captures no task a second time.
pub proof fn a_second_review_adds_nothing(
    first: ReflectiveReviewer,
    session: Seq<char>,
    s: ReviewSuggestions,
    plan: ReviewPlan,
    second: ReflectiveReviewer,
    again: ReviewPlan,
)
    requires
        is_plan(first, session, s, plan),
        is_plan(second, session, s, again),
        forall|i: int|
            0 <= i < first.memories@.len() ==> second.memories@.contains(
                #[trigger] first.memories@[i],
            ),
        forall|i: int|
            0 <= i < plan.memories@.len() ==> second.memories@.contains(
                #[trigger] plan.memories@[i],
            ),
        forall|i: int|
            0 <= i < first.task_keys@.len() ==> text::views(second.task_keys@).contains(
                #[trigger] text::views(first.task_keys@)[i],
            ),
        forall|i: int|
            0 <= i < plan.tasks@.len() ==> text::views(second.task_keys@).contains(
                (#[trigger] plan.tasks@[i]).source_message_id@,
            ),
    ensures
        again.memories@.len() == 0,
        again.tasks@.len() == 0,
{
    let scopes = memory::session_scopes(session);
    let keys = suggested_keys(s.memories@);
    let bars = suggested_bars(s.memories@);
    let n = s.memories@.len() as int;
    let held1 = held_keys(first.memories@, session, scopes, first.memories@.len() as int);
    let held2 = held_keys(second.memories@, session, scopes, second.memories@.len() as int);
    let at1 = admitted(keys, bars, held1, n);
    let at2 = admitted(keys, bars, held2, n);
    if at2.len() > 0 {
        admission_never_repeats(keys, bars, held2, n);
        let i = at2[0];
        let key = keys[i];
        lemma_held_is_barred(
            first.memories@,
            session,
            scopes,
            first.memories@.len() as int,
            key,
        );
        lemma_held_is_barred(
            second.memories@,
            session,
            scopes,
            second.memories@.len() as int,
            key,
        );
        if held1.contains(key) {
            let k = choose|k: int|
                0 <= k < first.memories@.len() && #[trigger] bars_key(
                    first.memories@[k],
                    session,
                    scopes,
                    key,
                );
            let m = first.memories@[k];
            assert(second.memories@.contains(m));
            let j = choose|j: int| 0 <= j < second.memories@.len() && second.memories@[j] == m;
            assert(bars_key(second.memories@[j], session, scopes, key));
        } else {
            let a = lemma_key_is_admitted(keys, bars, held1, i, n);
            let m = plan.memories@[a];
            assert(is_proposed_memory(m, s.memories@[at1[a]], session, keys[at1[a]]));
            assert(key.len() > 0) by {
                reveal_strlit("mem-");
                assert(key == memory_key_text(s.memories@[i].content@));
            }
            assert(second.memories@.contains(m));
            let j = choose|j: int| 0 <= j < second.memories@.len() && second.memories@[j] == m;
            assert(bars_key(second.memories@[j], session, scopes, key));
        }
        assert(false);
    }
    let tkeys = commitment_keys(s.commitments@);
    let tbars = commitment_bars(s.commitments@);
    let t = s.commitments@.len() as int;
    let known1 = text::views(first.task_keys@);
    let known2 = text::views(second.task_keys@);
    let tat1 = admitted(tkeys, tbars, known1, t);
    let tat2 = admitted(tkeys, tbars, known2, t);
    if tat2.len() > 0 {
        admission_never_repeats(tkeys, tbars, known2, t);
        let i = tat2[0];
        let key = tkeys[i];
        if known1.contains(key) {
            let k = choose|k: int| 0 <= k < known1.len() && known1[k] == key;
            assert(known2.contains(known1[k]));
        } else {
            let a = lemma_key_is_admitted(tkeys, tbars, known1, i, t);
            assert(is_proposed_task(
                plan.tasks@[a],
                s.commitments@[tat1[a]],
                session,
                tkeys[tat1[a]],
            ));
            assert(known2.contains(plan.tasks@[a].source_message_id@));
        }
        assert(false);
    }
}

/// The ids of memories.
pub open spec fn memory_ids(m: Seq<Memory>) -> Seq<Seq<char>> {
    Seq::new(m.len(), |i: int| m[i].id@)
}

/// The ids of tasks.
pub open spec fn task_ids(t: Seq<Task>) -> Seq<Seq<char>> {
    Seq::new(t.len(), |i: int| t[i].id@)
}

/// The names of the skills that a store took.
pub open spec fn taken_names(s: Seq<Skill>, taken: Seq<bool>) -> Seq<Seq<char>> {
    let at = sorting::chosen(taken);
    Seq::new(at.len(), |k: int| s[at[k]].name@)
}

impl ReflectiveReviewer {
    pub fn new(memories: Vec<Memory>, skills: Vec<Option<Skill>>, task_keys: Vec<String>) -> (r: Self)
        ensures
            r == (ReflectiveReviewer { memories, skills, task_keys }),
    {
        ReflectiveReviewer { memories, skills, task_keys }
    }

    /// What a review of a session writes, given the suggestions in the model's reply;
    /// nothing where the reply held none.
    pub fn review(&self, session_id: &str, suggestions: &Option<ReviewSuggestions>) -> (r:
        ReviewPlan)
        requires
            suggestions matches Some(s) ==> s.skills@.len() == self.skills@.len(),
        ensures
            match *suggestions {
                Some(s) => is_plan(*self, session_id@, s, r),
                None => r.memories@.len() == 0 && r.skills@.len() == 0 && r.tasks@.len() == 0,
            },
    {
        match suggestions {
            Some(s) => ReviewPlan {
                memories: plan_memories(&s.memories, session_id, &self.memories),
                skills: plan_skills(&s.skills, &self.skills),
                tasks: plan_tasks(&s.commitments, session_id, &self.task_keys),
            },
            None => ReviewPlan { memories: Vec::new(), skills: Vec::new(), tasks: Vec::new() },
        }
    }

    /// What a review wrote, where `taken` tells for each proposed skill whether its store
    /// took it: a refused proposal does not fail the review.
    pub fn outcome(plan: &ReviewPlan, taken: &Vec<bool>) -> (r: ReviewOutcome)
        requires
            taken@.len() == plan.skills@.len(),
        ensures
            text::views(r.memories_written@) == memory_ids(plan.memories@),
            text::views(r.skills_written@) == taken_names(plan.skills@, taken@),
            text::views(r.tasks_captured@) == task_ids(plan.tasks@),
    {
        let mut memories: Vec<String> = Vec::new();
        let mut i: usize = 0;
        assert(text::views(memories@) =~= memory_ids(plan.memories@).take(0));
        while i < plan.memories.len()
            invariant
                i <= plan.memories.len(),
                text::views(memories@) == memory_ids(plan.memories@).take(i as int),
            decreases plan.memories.len() - i,
        {
            text::append_line(&mut memories, plan.memories[i].id.clone());
            i = i + 1;
            assert(text::views(memories@) =~= memory_ids(plan.memories@).take(i as int));
        }
        assert(memory_ids(plan.memories@).take(i as int) =~= memory_ids(plan.memories@));
        let mut tasks: Vec<String> = Vec::new();
        let mut j: usize = 0;
        assert(text::views(tasks@) =~= task_ids(plan.tasks@).take(0));
        while j < plan.tasks.len()
            invariant
                j <= plan.tasks.len(),
                text::views(tasks@) == task_ids(plan.tasks@).take(j as int),
            decreases plan.tasks.len() - j,
        {
            text::append_line(&mut tasks, plan.tasks[j].id.clone());
            j = j + 1;
            assert(text::views(tasks@) =~= task_ids(plan.tasks@).take(j as int));
        }
        assert(task_ids(plan.tasks@).take(j as int) =~= task_ids(plan.tasks@));
        let at = sorting::positions(taken);
        let mut skills: Vec<String> = Vec::new();
        let mut k: usize = 0;
        let ghost names = taken_names(plan.skills@, taken@);
        assert(text::views(skills@) =~= names.take(0));
        while k < at.len()
            invariant
                k <= at.len() == names.len(),
                names == taken_names(plan.skills@, taken@),
                taken@.len() == plan.skills@.len(),
                forall|n: int| 0 <= n < at@.len() ==> at@[n] == #[trigger] sorting::chosen(taken@)[n],
                forall|n: int| 0 <= n < at@.len() ==> #[trigger] at@[n] < taken@.len(),
                text::views(skills@) == names.take(k as int),
            decreases at.len() - k,
        {
            let n: usize = at[k];
            assert(n == sorting::chosen(taken@)[k as int]);
            text::append_line(&mut skills, plan.skills[n].name.clone());
            k = k + 1;
            assert(text::views(skills@) =~= names.take(k as int));
        }
        assert(names.take(k as int) =~= names);
        ReviewOutcome { memories_written: memories, skills_written: skills, tasks_captured: tasks }
    }
}

// ---------------------------------------------------------------------------
// Laws
// ---------------------------------------------------------------------------

/// Automated extraction never reaches the profile that is injected into every
/// turn: whatever the context and the time, a proposed memory is not pinnable.
pub proof fn proposals_are_never_pinned(
    m: Memory,
    s: MemorySuggestion,
    session: Seq<char>,
    key: Seq<char>,
    scopes: Seq<memory::Scope>,
    now: i64,
)
    requires
        is_proposed_memory(m, s, session, key),
    ensures
        !m.pinnable(scopes, now),
        memory::session_scopes(session).contains(m.scope@),
        !(m.scope@ is Session),
{
    memory::writes_stay_recallable(session);
}

proof fn lemma_held(all: Seq<Memory>, session: Seq<char>, scopes: Seq<memory::Scope>, n: int, i: int)
    requires
        0 <= i < n <= all.len(),
    ensures
        all[i].status == MemoryStatus::Active && scopes.contains(all[i].scope@) ==> held_keys(
            all,
            session,
            scopes,
            n,
        ).contains(memory_key_text(all[i].content@)),
        all[i].source@ == session && all[i].source_message_id@.len() > 0 ==> held_keys(
            all,
            session,
            scopes,
            n,
        ).contains(all[i].source_message_id@),
    decreases n,
{
    let m = all[n - 1];
    let init = held_keys(all, session, scopes, n - 1);
    let known = if m.status == MemoryStatus::Active && scopes.contains(m.scope@) {
        init.push(memory_key_text(m.content@))
    } else {
        init
    };
    let now = held_keys(all, session, scopes, n);
    assert forall|k: Seq<char>| init.contains(k) implies now.contains(k) by {
        let j = choose|j: int| 0 <= j < init.len() && init[j] == k;
        assert(now[j] == k);
    }
    if i < n - 1 {
        lemma_held(all, session, scopes, n - 1, i);
    } else {
        if m.status == MemoryStatus::Active && scopes.contains(m.scope@) {
            assert(known[known.len() - 1] == memory_key_text(m.content@));
            assert(now[known.len() - 1] == memory_key_text(m.content@));
        }
        if m.source@ == session && m.source_message_id@.len() > 0 {
            assert(now[now.len() - 1] == m.source_message_id@);
        }
    }
}

/// A review never re-captures: no proposed memory repeats an active memory that
/// the session can recall, nor one that the session produced before, nor another
/// proposal of the same review.
pub proof fn reviews_never_recapture(
    s: Seq<MemorySuggestion>,
    session: Seq<char>,
    all: Seq<Memory>,
    a: int,
    i: int,
)
    requires
        0 <= a < new_memories(s, session, all).len(),
        0 <= i < all.len(),
    ensures
        ({
            let at = new_memories(s, session, all);
            let key = suggested_keys(s)[at[a]];
            &&& all[i].status == MemoryStatus::Active && memory::session_scopes(session).contains(
                all[i].scope@,
            ) ==> memory_key_text(all[i].content@) != key
            &&& all[i].source@ == session && all[i].source_message_id@.len() > 0
                ==> all[i].source_message_id@ != key
            &&& forall|b: int|
                0 <= b < at.len() && b != a ==> suggested_keys(s)[#[trigger] at[b]] != key
        }),
{
    let scopes = memory::session_scopes(session);
    let keys = suggested_keys(s);
    let bars = suggested_bars(s);
    let held = held_keys(all, session, scopes, all.len() as int);
    let at = new_memories(s, session, all);
    admission_never_repeats(keys, bars, held, s.len() as int);
    lemma_held(all, session, scopes, all.len() as int, i);
    assert(!held.contains(keys[at[a]]));
    assert forall|b: int| 0 <= b < at.len() && b != a implies keys[#[trigger] at[b]] != keys[at[a]] by {
        if b < a {
            assert(keys[at[b]] != keys[at[a]]);
        } else {
            assert(keys[at[a]] != keys[at[b]]);
        }
    }
}

/// A protected skill is never proposed anew, whatever is suggested.
pub proof fn protected_skills_are_left_alone(
    s: SkillSuggestion,
    barred: bool,
    existing: Option<Skill>,
    r: Option<Skill>,
)
    requires
        is_proposed_skill(s, barred, existing, r),
        existing is Some,
        existing->0.protected,
    ensures
        r is None,
{
}

} // verus!
