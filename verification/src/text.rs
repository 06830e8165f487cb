//! Text operations over character sequences.
//!
//! Every string is modelled by its sequence of characters. The spec functions
//! here say what the usual string operations compute; the executable functions
//! beside them compute it.
use vstd::prelude::*;
use vstd::string::*;
use vstd::utf8::*;

verus! {

/// Appends a character: [`String::push`] adds exactly `c` at the end.
pub assume_specification[ String::push ](s: &mut String, c: char)
    ensures
        final(s)@ == old(s)@.push(c),
;

/// Appends a string: [`String::push_str`] adds exactly the characters of `t`.
pub assume_specification[ String::push_str ](s: &mut String, t: &str)
    ensures
        final(s)@ == old(s)@ + t@,
;

/// The characters with the Unicode `White_Space` property.
pub open spec fn is_white(c: char) -> bool {
    let n = c as u32;
    ||| 0x9 <= n <= 0xd
    ||| n == 0x20
    ||| n == 0x85
    ||| n == 0xa0
    ||| n == 0x1680
    ||| 0x2000 <= n <= 0x200a
    ||| n == 0x2028
    ||| n == 0x2029
    ||| n == 0x202f
    ||| n == 0x205f
    ||| n == 0x3000
}

/// Whether `c` has the Unicode `White_Space` property.
pub fn white(c: char) -> (r: bool)
    ensures
        r == is_white(c),
{
    let n: u32 = c as u32;
    (0x9 <= n && n <= 0xd) || n == 0x20 || n == 0x85 || n == 0xa0 || n == 0x1680 || (0x2000 <= n
        && n <= 0x200a) || n == 0x2028 || n == 0x2029 || n == 0x202f || n == 0x205f || n == 0x3000
}

/// The characters of `s`, as a vector.
pub fn chars_of(s: &str) -> (r: Vec<char>)
    ensures
        r@ == s@,
{
    let mut out: Vec<char> = Vec::new();
    for c in it: s.chars()
        invariant
            out@ == s@.take(it.index()),
            it.seq() == s@,
    {
        out.push(c);
    }
    out
}

/// The string made of the characters `v[from..to]`.
pub fn string_of(v: &Vec<char>, from: usize, to: usize) -> (r: String)
    requires
        from <= to <= v.len(),
    ensures
        r@ == v@.subrange(from as int, to as int),
{
    let mut out = String::new();
    let mut i: usize = from;
    while i < to
        invariant
            from <= i <= to <= v.len(),
            out@ == v@.subrange(from as int, i as int),
        decreases to - i,
    {
        out.push(v[i]);
        i = i + 1;
    }
    out
}

/// Number of bytes of the UTF-8 form of `s`.
pub open spec fn byte_len(s: Seq<char>) -> nat {
    encode_utf8(s).len()
}

/// Number of bytes of the UTF-8 form of `s`.
pub fn bytes_in(s: &str) -> (r: usize)
    ensures
        r == byte_len(s@),
{
    s.as_bytes().len()
}

/// Whether two strings hold the same characters.
pub fn same(a: &str, b: &str) -> (r: bool)
    ensures
        r == (a@ == b@),
{
    let x = a.as_bytes();
    let y = b.as_bytes();
    proof {
        encode_utf8_decode_utf8(a@);
        encode_utf8_decode_utf8(b@);
    }
    if x.len() != y.len() {
        return false;
    }
    let mut i: usize = 0;
    while i < x.len()
        invariant
            i <= x.len() == y.len(),
            x@ == encode_utf8(a@),
            y@ == encode_utf8(b@),
            forall|k: int| 0 <= k < i ==> x@[k] == y@[k],
        decreases x.len() - i,
    {
        if x[i] != y[i] {
            assert(x@ != y@);
            return false;
        }
        i = i + 1;
    }
    assert(x@ =~= y@);
    true
}

// ---------------------------------------------------------------------------
// Trimming
// ---------------------------------------------------------------------------

/// `s` without its leading white space.
pub open spec fn trim_start(s: Seq<char>) -> Seq<char>
    decreases s.len(),
{
    if s.len() > 0 && is_white(s[0]) {
        trim_start(s.drop_first())
    } else {
        s
    }
}

/// `s` without its trailing white space.
pub open spec fn trim_end(s: Seq<char>) -> Seq<char>
    decreases s.len(),
{
    if s.len() > 0 && is_white(s.last()) {
        trim_end(s.drop_last())
    } else {
        s
    }
}

/// `s` without the white space at either end.
pub open spec fn trimmed(s: Seq<char>) -> Seq<char> {
    trim_end(trim_start(s))
}

/// Skipping a run of white space up to a visible character is trimming.
pub proof fn lemma_trim_start(s: Seq<char>, n: int)
    requires
        0 <= n <= s.len(),
        forall|k: int| 0 <= k < n ==> is_white(s[k]),
        n < s.len() ==> !is_white(s[n]),
    ensures
        trim_start(s) == s.skip(n),
    decreases n,
{
    if n == 0 {
        assert(s.skip(0) =~= s);
    } else {
        let t = s.drop_first();
        assert forall|k: int| 0 <= k < n - 1 implies is_white(t[k]) by {
            assert(t[k] == s[k + 1]);
        }
        lemma_trim_start(t, n - 1);
        assert(t.skip(n - 1) =~= s.skip(n));
    }
}

/// Cutting at the last visible character is trimming.
pub proof fn lemma_trim_end(s: Seq<char>, n: int)
    requires
        0 <= n <= s.len(),
        forall|k: int| n <= k < s.len() ==> is_white(s[k]),
        n > 0 ==> !is_white(s[n - 1]),
    ensures
        trim_end(s) == s.take(n),
    decreases s.len() - n,
{
    if n == s.len() {
        assert(s.take(n) =~= s);
    } else {
        let t = s.drop_last();
        lemma_trim_end(t, n);
        assert(t.take(n) =~= s.take(n));
    }
}

/// A text that begins and ends with a visible character has nothing to trim.
pub proof fn lemma_trim_none(s: Seq<char>)
    requires
        s.len() > 0,
        !is_white(s[0]),
        !is_white(s.last()),
    ensures
        trimmed(s) == s,
{
    lemma_trim_start(s, 0);
    assert(s.skip(0) =~= s);
    lemma_trim_end(s, s.len() as int);
    assert(s.take(s.len() as int) =~= s);
}

/// The part of `s` between its leading and trailing white space.
pub fn trim(s: &str) -> (r: &str)
    ensures
        r@ == trimmed(s@),
{
    let v = chars_of(s);
    let n: usize = v.len();
    let mut a: usize = 0;
    while a < n && white(v[a])
        invariant
            n == v.len(),
            a <= n,
            forall|k: int| 0 <= k < a ==> is_white(v@[k]),
        decreases n - a,
    {
        a = a + 1;
    }
    let ghost t = s@.skip(a as int);
    proof {
        lemma_trim_start(s@, a as int);
    }
    let mut b: usize = n;
    while b > a && white(v[b - 1])
        invariant
            n == v.len(),
            a <= b <= n,
            forall|k: int| b <= k < n ==> is_white(v@[k]),
        decreases b,
    {
        b = b - 1;
    }
    proof {
        assert forall|k: int| b - a <= k < t.len() implies is_white(t[k]) by {
            assert(t[k] == s@[k + a]);
        }
        if b > a {
            assert(t[b - a - 1] == s@[b - 1]);
        }
        lemma_trim_end(t, b - a);
        assert(t.take(b - a) =~= s@.subrange(a as int, b as int));
    }
    s.substring_char(a, b)
}

// ---------------------------------------------------------------------------
// Searching
// ---------------------------------------------------------------------------

/// Whether `p` stands in `s` at position `i`.
pub open spec fn occurs_at(s: Seq<char>, p: Seq<char>, i: int) -> bool {
    &&& 0 <= i
    &&& i + p.len() <= s.len()
    &&& s.subrange(i, i + p.len()) == p
}

/// Whether `p` stands somewhere in `s`.
pub open spec fn has_part(s: Seq<char>, p: Seq<char>) -> bool {
    exists|i: int| occurs_at(s, p, i)
}

/// Whether `s` begins with `p`.
pub open spec fn has_prefix(s: Seq<char>, p: Seq<char>) -> bool {
    occurs_at(s, p, 0)
}

/// Whether `s` ends with `p`.
pub open spec fn has_suffix(s: Seq<char>, p: Seq<char>) -> bool {
    occurs_at(s, p, s.len() - p.len())
}

/// The first position, from `i` on, at which `p` stands in `s`.
pub open spec fn first_from(s: Seq<char>, p: Seq<char>, i: int) -> Option<int>
    decreases s.len() - i + 1,
{
    if i < 0 || i + p.len() > s.len() {
        None
    } else if occurs_at(s, p, i) {
        Some(i)
    } else {
        first_from(s, p, i + 1)
    }
}

/// The first position at which `p` stands in `s`.
pub open spec fn first_of(s: Seq<char>, p: Seq<char>) -> Option<int> {
    first_from(s, p, 0)
}

/// A position found by [`first_from`] is an occurrence, and none comes before it.
pub proof fn lemma_first_from(s: Seq<char>, p: Seq<char>, i: int)
    requires
        0 <= i,
    ensures
        match first_from(s, p, i) {
            Some(k) => i <= k && occurs_at(s, p, k) && forall|j: int| i <= j < k ==> !occurs_at(s, p, j),
            None => forall|j: int| i <= j ==> !occurs_at(s, p, j),
        },
    decreases s.len() - i + 1,
{
    if i + p.len() <= s.len() && !occurs_at(s, p, i) {
        lemma_first_from(s, p, i + 1);
    }
}

/// A text holds `p` exactly when a first occurrence exists.
pub proof fn lemma_has_part(s: Seq<char>, p: Seq<char>)
    ensures
        has_part(s, p) == (first_of(s, p) is Some),
{
    lemma_first_from(s, p, 0);
    if has_part(s, p) {
        let i = choose|i: int| occurs_at(s, p, i);
        assert(occurs_at(s, p, i));
    }
}

/// Whether `p` stands in `v` at position `i`.
pub fn stands_at(v: &Vec<char>, p: &Vec<char>, i: usize) -> (r: bool)
    ensures
        r == occurs_at(v@, p@, i as int),
{
    if p.len() > v.len() || i > v.len() - p.len() {
        return false;
    }
    let mut k: usize = 0;
    while k < p.len()
        invariant
            k <= p.len() <= v.len(),
            i <= v.len() - p.len(),
            forall|j: int| 0 <= j < k ==> v@[i + j] == p@[j],
        decreases p.len() - k,
    {
        if v[i + k] != p[k] {
            assert(v@.subrange(i as int, i + p.len())[k as int] != p@[k as int]);
            return false;
        }
        k = k + 1;
    }
    assert(v@.subrange(i as int, i + p.len()) =~= p@);
    true
}

/// The first position, from `from` on, at which `p` stands in `v`.
pub fn find_from(v: &Vec<char>, p: &Vec<char>, from: usize) -> (r: Option<usize>)
    ensures
        match r {
            Some(k) => first_from(v@, p@, from as int) == Some(k as int),
            None => first_from(v@, p@, from as int) is None,
        },
{
    let mut i: usize = from;
    while p.len() <= v.len() && i <= v.len() - p.len()
        invariant
            from <= i,
            first_from(v@, p@, from as int) == first_from(v@, p@, i as int),
        decreases v.len() + 1 - i,
    {
        if stands_at(v, p, i) {
            return Some(i);
        }
        if i == usize::MAX {
            assert(v@.subrange(i as int, i + p@.len()) =~= p@);
            return None;
        }
        i = i + 1;
    }
    None
}

/// The first position, counted in characters, at which `p` stands in `s`.
pub fn find(s: &str, p: &str) -> (r: Option<usize>)
    ensures
        match r {
            Some(k) => first_of(s@, p@) == Some(k as int),
            None => first_of(s@, p@) is None,
        },
{
    find_from(&chars_of(s), &chars_of(p), 0)
}

/// Whether `p` stands somewhere in `s`.
pub fn contains(s: &str, p: &str) -> (r: bool)
    ensures
        r == has_part(s@, p@),
{
    proof {
        lemma_has_part(s@, p@);
    }
    find(s, p).is_some()
}

/// Whether `s` begins with `p`.
pub fn starts_with(s: &str, p: &str) -> (r: bool)
    ensures
        r == has_prefix(s@, p@),
{
    stands_at(&chars_of(s), &chars_of(p), 0)
}

/// Whether `s` ends with `p`.
pub fn ends_with(s: &str, p: &str) -> (r: bool)
    ensures
        r == has_suffix(s@, p@),
{
    let v = chars_of(s);
    let q = chars_of(p);
    if q.len() > v.len() {
        return false;
    }
    stands_at(&v, &q, v.len() - q.len())
}

/// The rest of `s` after the prefix `p`, when it begins with it.
pub open spec fn after_prefix(s: Seq<char>, p: Seq<char>) -> Option<Seq<char>> {
    if has_prefix(s, p) {
        Some(s.skip(p.len() as int))
    } else {
        None
    }
}

/// The rest of `s` before the suffix `p`, when it ends with it.
pub open spec fn before_suffix(s: Seq<char>, p: Seq<char>) -> Option<Seq<char>> {
    if has_suffix(s, p) {
        Some(s.take(s.len() - p.len()))
    } else {
        None
    }
}

/// The view of an optional text.
pub open spec fn opt_view(o: Option<&str>) -> Option<Seq<char>> {
    match o {
        Some(s) => Some(s@),
        None => None,
    }
}

/// The view of an optional owned text.
pub open spec fn opt_text(o: Option<String>) -> Option<Seq<char>> {
    match o {
        Some(s) => Some(s@),
        None => None,
    }
}

/// The rest of `s` after the prefix `p`, when it begins with it.
pub fn strip_prefix<'a>(s: &'a str, p: &str) -> (r: Option<&'a str>)
    ensures
        opt_view(r) == after_prefix(s@, p@),
{
    let v = chars_of(s);
    let q = chars_of(p);
    if stands_at(&v, &q, 0) {
        let r = s.substring_char(q.len(), v.len());
        assert(r@ =~= s@.skip(p@.len() as int));
        Some(r)
    } else {
        None
    }
}

/// The rest of `s` before the suffix `p`, when it ends with it.
pub fn strip_suffix<'a>(s: &'a str, p: &str) -> (r: Option<&'a str>)
    ensures
        opt_view(r) == before_suffix(s@, p@),
{
    let v = chars_of(s);
    let q = chars_of(p);
    if q.len() <= v.len() && stands_at(&v, &q, v.len() - q.len()) {
        let r = s.substring_char(0, v.len() - q.len());
        assert(r@ =~= s@.take(s@.len() - p@.len()));
        Some(r)
    } else {
        None
    }
}

/// The two sides of the first `sep` in `s`.
pub open spec fn cut_at(s: Seq<char>, sep: Seq<char>) -> Option<(Seq<char>, Seq<char>)> {
    match first_of(s, sep) {
        Some(i) => Some((s.take(i), s.skip(i + sep.len()))),
        None => None,
    }
}

/// The two sides of the first `sep` in `s`.
pub fn split_once<'a>(s: &'a str, sep: &str) -> (r: Option<(&'a str, &'a str)>)
    ensures
        match r {
            Some(p) => cut_at(s@, sep@) == Some((p.0@, p.1@)),
            None => cut_at(s@, sep@) is None,
        },
{
    let v = chars_of(s);
    let q = chars_of(sep);
    proof {
        lemma_first_from(s@, sep@, 0);
    }
    match find_from(&v, &q, 0) {
        Some(i) => {
            assert(i + q.len() <= v.len());
            let a = s.substring_char(0, i);
            let b = s.substring_char(i + q.len(), v.len());
            assert(a@ =~= s@.take(i as int));
            assert(b@ =~= s@.skip(i + sep@.len()));
            Some((a, b))
        },
        None => None,
    }
}

// ---------------------------------------------------------------------------
// Lists of texts
// ---------------------------------------------------------------------------

/// The texts that a sequence of strings holds.
pub open spec fn views(v: Seq<String>) -> Seq<Seq<char>> {
    Seq::new(v.len(), |i: int| v[i]@)
}

/// Appending a string appends its text.
pub broadcast proof fn lemma_views_push(v: Seq<String>, s: String)
    ensures
        #[trigger] views(v.push(s)) == views(v).push(s@),
{
    assert(views(v.push(s)) =~= views(v).push(s@));
}

/// A copy of a list of strings.
pub fn clone_list(v: &Vec<String>) -> (r: Vec<String>)
    ensures
        r@ == v@,
{
    let mut out: Vec<String> = Vec::new();
    let mut i: usize = 0;
    while i < v.len()
        invariant
            i <= v.len(),
            out@ == v@.take(i as int),
        decreases v.len() - i,
    {
        out.push(v[i].clone());
        i = i + 1;
    }
    out
}

/// A copy of an optional string.
pub fn clone_opt(o: &Option<String>) -> (r: Option<String>)
    ensures
        r == *o,
{
    match o {
        Some(s) => Some(s.clone()),
        None => None,
    }
}

/// Whether some string of `v` holds the text `s`.
pub fn listed(v: &Vec<String>, s: &str) -> (r: bool)
    ensures
        r == views(v@).contains(s@),
{
    let mut i: usize = 0;
    while i < v.len()
        invariant
            i <= v.len(),
            forall|k: int| 0 <= k < i ==> v@[k]@ != s@,
        decreases v.len() - i,
    {
        if same(&v[i], s) {
            assert(views(v@)[i as int] == s@);
            return true;
        }
        i = i + 1;
    }
    assert(!views(v@).contains(s@)) by {
        assert forall|k: int| 0 <= k < views(v@).len() implies views(v@)[k] != s@ by {
            assert(v@[k]@ != s@);
        }
    }
    false
}

/// The texts of `parts`, with `sep` between neighbours.
pub open spec fn joined(parts: Seq<Seq<char>>, sep: Seq<char>) -> Seq<char>
    decreases parts.len(),
{
    if parts.len() == 0 {
        Seq::empty()
    } else if parts.len() == 1 {
        parts[0]
    } else {
        joined(parts.drop_last(), sep) + sep + parts.last()
    }
}

/// The strings of `parts`, with `sep` between neighbours.
pub fn join(parts: &Vec<String>, sep: &str) -> (r: String)
    ensures
        r@ == joined(views(parts@), sep@),
{
    let mut out = String::new();
    let mut i: usize = 0;
    while i < parts.len()
        invariant
            i <= parts.len(),
            out@ == joined(views(parts@).take(i as int), sep@),
        decreases parts.len() - i,
    {
        if i > 0 {
            out.push_str(sep);
        }
        out.push_str(&parts[i]);
        proof {
            let w = views(parts@);
            assert(w.take(i + 1).drop_last() =~= w.take(i as int));
            assert(w.take(i + 1).last() == parts@[i as int]@);
            assert(Seq::<char>::empty() + parts@[0]@ =~= parts@[0]@);
        }
        i = i + 1;
    }
    assert(views(parts@).take(i as int) =~= views(parts@));
    out
}

/// The pieces of `s` between the occurrences of the character `c`.
pub open spec fn pieces(s: Seq<char>, c: char) -> Seq<Seq<char>>
    decreases s.len(),
{
    if s.len() == 0 {
        seq![s]
    } else {
        let init = pieces(s.drop_last(), c);
        if s.last() == c {
            init.push(Seq::empty())
        } else {
            init.drop_last().push(init.last().push(s.last()))
        }
    }
}

/// There is always at least one piece.
pub proof fn lemma_pieces_nonempty(s: Seq<char>, c: char)
    ensures
        pieces(s, c).len() > 0,
    decreases s.len(),
{
    if s.len() > 0 {
        lemma_pieces_nonempty(s.drop_last(), c);
    }
}

/// The pieces of `s` between the occurrences of the character `c`.
pub fn split(s: &str, c: char) -> (r: Vec<String>)
    ensures
        views(r@) == pieces(s@, c),
{
    broadcast use lemma_views_push;

    let v = chars_of(s);
    let mut out: Vec<String> = Vec::new();
    let mut cur = String::new();
    let mut i: usize = 0;
    assert(v@.take(0) =~= cur@);
    assert(views(out@).push(cur@) =~= pieces(v@.take(0), c));
    while i < v.len()
        invariant
            i <= v.len(),
            views(out@).push(cur@) == pieces(v@.take(i as int), c),
        decreases v.len() - i,
    {
        proof {
            assert(v@.take(i + 1).drop_last() =~= v@.take(i as int));
            assert(views(out@).push(cur@).drop_last() =~= views(out@));
        }
        if v[i] == c {
            out.push(cur);
            cur = String::new();
        } else {
            cur.push(v[i]);
        }
        i = i + 1;
    }
    assert(v@.take(i as int) =~= s@);
    out.push(cur);
    out
}

/// Length of the run of visible characters at the start of `s`.
pub open spec fn word_len(s: Seq<char>) -> nat
    decreases s.len(),
{
    if s.len() == 0 || is_white(s[0]) {
        0
    } else {
        1 + word_len(s.drop_first())
    }
}

/// Number of characters of white space at the start of `s`.
pub open spec fn blank_len(s: Seq<char>) -> nat
    decreases s.len(),
{
    if s.len() == 0 || !is_white(s[0]) {
        0
    } else {
        1 + blank_len(s.drop_first())
    }
}

/// A run never outgrows its text.
pub proof fn lemma_run_bounds(s: Seq<char>)
    ensures
        word_len(s) <= s.len(),
        blank_len(s) <= s.len(),
    decreases s.len(),
{
    if s.len() > 0 {
        lemma_run_bounds(s.drop_first());
    }
}

/// The words of `s`: its maximal runs of visible characters, in order.
pub open spec fn words(s: Seq<char>) -> Seq<Seq<char>>
    decreases s.len(),
{
    if s.len() == 0 {
        Seq::empty()
    } else if is_white(s[0]) {
        words(s.drop_first())
    } else {
        let n = word_len(s) as int;
        proof {
            lemma_run_bounds(s);
        }
        seq![s.take(n)] + words(s.skip(n))
    }
}

/// A run of visible characters that ends at `n` has length `n`.
pub proof fn lemma_word_len(s: Seq<char>, n: int)
    requires
        0 <= n <= s.len(),
        forall|k: int| 0 <= k < n ==> !is_white(s[k]),
        n < s.len() ==> is_white(s[n]),
    ensures
        word_len(s) == n,
    decreases n,
{
    if n > 0 {
        let t = s.drop_first();
        assert forall|k: int| 0 <= k < n - 1 implies !is_white(t[k]) by {
            assert(t[k] == s[k + 1]);
        }
        lemma_word_len(t, n - 1);
    }
}

/// The words of `s`, in order.
pub fn split_words(s: &str) -> (r: Vec<String>)
    ensures
        views(r@) == words(s@),
{
    broadcast use lemma_views_push;

    let v = chars_of(s);
    let mut out: Vec<String> = Vec::new();
    let mut i: usize = 0;
    assert(v@.skip(0) =~= s@);
    assert(views(out@) + words(s@) =~= words(s@));
    while i < v.len()
        invariant
            i <= v.len(),
            views(out@) + words(v@.skip(i as int)) == words(s@),
        decreases v.len() - i,
    {
        let ghost rest = v@.skip(i as int);
        if white(v[i]) {
            assert(rest.drop_first() =~= v@.skip(i + 1));
            i = i + 1;
        } else {
            let start: usize = i;
            while i < v.len() && !white(v[i])
                invariant
                    start <= i <= v.len(),
                    forall|k: int| start <= k < i ==> !is_white(v@[k]),
                decreases v.len() - i,
            {
                i = i + 1;
            }
            proof {
                assert forall|k: int| 0 <= k < i - start implies !is_white(rest[k]) by {
                    assert(rest[k] == v@[k + start]);
                }
                if i < v.len() {
                    assert(rest[i - start] == v@[i as int]);
                }
                assert(i > start);
                lemma_word_len(rest, i - start);
                assert(rest.take(i - start) =~= v@.subrange(start as int, i as int));
                assert(rest.skip(i - start) =~= v@.skip(i as int));
            }
            let w = string_of(&v, start, i);
            let ghost before = views(out@);
            out.push(w);
            proof {
                assert(before + (seq![w@] + words(v@.skip(i as int))) =~= before.push(w@) + words(
                    v@.skip(i as int),
                ));
            }
        }
    }
    assert(v@.skip(i as int) =~= Seq::<char>::empty());
    assert(views(out@) + words(Seq::<char>::empty()) =~= views(out@));
    out
}

/// `s` with every run of white space between words replaced by `sep`, and none
/// at the ends.
pub open spec fn respaced(s: Seq<char>, sep: Seq<char>) -> Seq<char> {
    joined(words(s), sep)
}

/// Whether a text is one word: not empty, and without white space.
pub open spec fn is_word(w: Seq<char>) -> bool {
    w.len() > 0 && forall|k: int| 0 <= k < w.len() ==> !is_white(#[trigger] w[k])
}

/// The run of visible characters at the start of a text ends where white space begins.
pub proof fn lemma_word_run(s: Seq<char>)
    ensures
        word_len(s) <= s.len(),
        forall|k: int| 0 <= k < word_len(s) ==> !is_white(#[trigger] s[k]),
        word_len(s) < s.len() ==> is_white(s[word_len(s) as int]),
        s.len() > 0 && !is_white(s[0]) ==> word_len(s) > 0,
    decreases s.len(),
{
    if s.len() > 0 && !is_white(s[0]) {
        let t = s.drop_first();
        lemma_word_run(t);
        assert forall|k: int| 0 <= k < word_len(s) implies !is_white(#[trigger] s[k]) by {
            if k > 0 {
                assert(t[k - 1] == s[k]);
            }
        }
    }
}

/// White space parts a text into two with their own words.
pub proof fn lemma_words_apart(a: Seq<char>, c: char, b: Seq<char>)
    requires
        is_white(c),
    ensures
        words(a + seq![c] + b) == words(a) + words(b),
    decreases a.len(),
{
    let s = a + seq![c] + b;
    if a.len() == 0 {
        assert(s[0] == c);
        assert(s.drop_first() =~= b);
        assert(words(a) + words(b) =~= words(b));
    } else if is_white(a[0]) {
        assert(s[0] == a[0]);
        assert(s.drop_first() =~= a.drop_first() + seq![c] + b);
        lemma_words_apart(a.drop_first(), c, b);
    } else {
        assert(s[0] == a[0]);
        let n = word_len(a) as int;
        lemma_word_run(a);
        assert forall|k: int| 0 <= k < n implies !is_white(s[k]) by {
            assert(s[k] == a[k]);
        }
        assert(n < s.len() && is_white(s[n])) by {
            if n < a.len() {
                assert(s[n] == a[n]);
            } else {
                assert(s[n] == c);
            }
        }
        lemma_word_len(s, n);
        assert(s.take(n) =~= a.take(n));
        assert(s.skip(n) =~= a.skip(n) + seq![c] + b);
        lemma_words_apart(a.skip(n), c, b);
        assert(seq![a.take(n)] + (words(a.skip(n)) + words(b)) =~= (seq![a.take(n)] + words(
            a.skip(n),
        )) + words(b));
    }
}

/// The words of a text are words.
pub proof fn lemma_words_are_words(s: Seq<char>)
    ensures
        forall|i: int| 0 <= i < words(s).len() ==> is_word(#[trigger] words(s)[i]),
        forall|i: int, k: int|
            0 <= i < words(s).len() && 0 <= k < words(s)[i].len() ==> s.contains(
                #[trigger] words(s)[i][k],
            ),
    decreases s.len(),
{
    if s.len() > 0 {
        lemma_word_run(s);
        let all = words(s);
        let (n, rest) = if is_white(s[0]) {
            (0int, s.drop_first())
        } else {
            (word_len(s) as int, s.skip(word_len(s) as int))
        };
        lemma_words_are_words(rest);
        let tail = words(rest);
        assert forall|i: int| 0 <= i < all.len() implies is_word(#[trigger] all[i]) by {
            if n > 0 && i > 0 {
                assert(all[i] == tail[i - 1]);
            } else if n == 0 {
                assert(all[i] == tail[i]);
            }
        }
        assert forall|i: int, k: int| 0 <= i < all.len() && 0 <= k < all[i].len() implies s.contains(
            #[trigger] all[i][k],
        ) by {
            if n > 0 && i == 0 {
                assert(all[0][k] == s[k]);
            } else {
                let j = if n > 0 {
                    i - 1
                } else {
                    i
                };
                assert(all[i] == tail[j]);
                assert(rest.contains(tail[j][k]));
                let m = choose|m: int| 0 <= m < rest.len() && rest[m] == tail[j][k];
                let off = if n > 0 {
                    n
                } else {
                    1
                };
                assert(s[m + off] == rest[m]);
            }
        }
    }
}

/// Words that are joined by single spaces can be told apart again.
pub proof fn lemma_joined_words(w: Seq<Seq<char>>)
    requires
        forall|i: int| 0 <= i < w.len() ==> is_word(#[trigger] w[i]),
    ensures
        words(joined(w, " "@)) == w,
    decreases w.len(),
{
    reveal_strlit(" ");
    assert(" "@ =~= seq![' ']);
    if w.len() == 0 {
        assert(w =~= Seq::empty());
    } else {
        let last = w.last();
        assert(is_word(w[w.len() - 1]));
        lemma_word_len(last, last.len() as int);
        assert(last.take(last.len() as int) =~= last);
        assert(last.skip(last.len() as int) =~= Seq::empty());
        assert(words(Seq::<char>::empty()) =~= Seq::<Seq<char>>::empty());
        assert(words(last) =~= seq![last]);
        if w.len() == 1 {
            assert(w =~= seq![last]);
        } else {
            let init = w.drop_last();
            assert forall|i: int| 0 <= i < init.len() implies is_word(#[trigger] init[i]) by {
                assert(init[i] == w[i]);
            }
            lemma_joined_words(init);
            lemma_words_apart(joined(init, " "@), ' ', last);
            assert(init + seq![last] =~= w);
        }
    }
}

/// `s` with each character `c` replaced by the text `with`.
pub open spec fn replaced(s: Seq<char>, c: char, with: Seq<char>) -> Seq<char>
    decreases s.len(),
{
    if s.len() == 0 {
        Seq::empty()
    } else {
        replaced(s.drop_last(), c, with) + (if s.last() == c {
            with
        } else {
            seq![s.last()]
        })
    }
}

/// `s` with each character `c` replaced by the text `with`.
pub fn replace(s: &str, c: char, with: &str) -> (r: String)
    ensures
        r@ == replaced(s@, c, with@),
{
    let v = chars_of(s);
    let mut out = String::new();
    let mut i: usize = 0;
    while i < v.len()
        invariant
            i <= v.len(),
            out@ == replaced(v@.take(i as int), c, with@),
        decreases v.len() - i,
    {
        proof {
            assert(v@.take(i + 1).drop_last() =~= v@.take(i as int));
        }
        if v[i] == c {
            out.push_str(with);
        } else {
            let ghost before = out@;
            out.push(v[i]);
            assert(out@ =~= before + seq![v@[i as int]]);
        }
        i = i + 1;
    }
    assert(v@.take(i as int) =~= s@);
    out
}

/// The smaller of a length and a limit.
pub open spec fn head_len(len: nat, limit: nat) -> nat {
    if len < limit {
        len
    } else {
        limit
    }
}

/// The first `n` characters of `s`, or all of it when it is shorter.
pub open spec fn head(s: Seq<char>, n: int) -> Seq<char> {
    if s.len() <= n {
        s
    } else {
        s.take(n)
    }
}

/// The first `n` characters of `s`, or all of it when it is shorter.
pub fn take(s: &str, n: usize) -> (r: &str)
    ensures
        r@ == head(s@, n as int),
{
    let len: usize = s.unicode_len();
    if len <= n {
        s
    } else {
        let r = s.substring_char(0, n);
        assert(r@ =~= s@.take(n as int));
        r
    }
}

/// The text of an optional string, empty strings counting as unset.
pub open spec fn set_text(o: Option<String>) -> Option<Seq<char>> {
    match o {
        Some(s) => if s@.len() == 0 {
            None
        } else {
            Some(s@)
        },
        None => None,
    }
}

/// The text of an optional string, empty strings counting as unset.
pub fn nonempty(o: &Option<String>) -> (r: Option<&str>)
    ensures
        opt_view(r) == set_text(*o),
{
    match o {
        Some(s) => {
            if s.as_str().is_empty() {
                None
            } else {
                Some(s.as_str())
            }
        },
        None => None,
    }
}

/// The first of two optional values that is set.
pub open spec fn either<T>(a: Option<T>, b: Option<T>) -> Option<T> {
    if a is Some {
        a
    } else {
        b
    }
}

/// The first of two optional values that is set.
pub fn or<T>(a: Option<T>, b: Option<T>) -> (r: Option<T>)
    ensures
        r == either(a, b),
{
    match a {
        Some(v) => Some(v),
        None => b,
    }
}

/// `s` without the characters `a` and `b` at its start.
pub open spec fn without_leading(s: Seq<char>, a: char, b: char) -> Seq<char>
    decreases s.len(),
{
    if s.len() > 0 && (s[0] == a || s[0] == b) {
        without_leading(s.drop_first(), a, b)
    } else {
        s
    }
}

/// `s` without the characters `a` and `b` at its end.
pub open spec fn without_trailing(s: Seq<char>, a: char, b: char) -> Seq<char>
    decreases s.len(),
{
    if s.len() > 0 && (s.last() == a || s.last() == b) {
        without_trailing(s.drop_last(), a, b)
    } else {
        s
    }
}

/// `s` without the characters `a` and `b` at its start.
pub fn trim_front(s: &str, a: char, b: char) -> (r: &str)
    ensures
        r@ == without_leading(s@, a, b),
{
    let v = chars_of(s);
    let mut i: usize = 0;
    assert(v@.skip(0) =~= s@);
    while i < v.len() && (v[i] == a || v[i] == b)
        invariant
            i <= v.len(),
            v@ == s@,
            without_leading(s@, a, b) == without_leading(v@.skip(i as int), a, b),
        decreases v.len() - i,
    {
        assert(v@.skip(i as int).drop_first() =~= v@.skip(i + 1));
        i = i + 1;
    }
    assert(v@.skip(i as int) =~= v@.subrange(i as int, v@.len() as int));
    s.substring_char(i, v.len())
}

/// `s` without the characters `a` and `b` at its end.
pub fn trim_back(s: &str, a: char, b: char) -> (r: &str)
    ensures
        r@ == without_trailing(s@, a, b),
{
    let v = chars_of(s);
    let mut n: usize = v.len();
    assert(v@.take(n as int) =~= s@);
    while n > 0 && (v[n - 1] == a || v[n - 1] == b)
        invariant
            n <= v.len(),
            v@ == s@,
            without_trailing(s@, a, b) == without_trailing(v@.take(n as int), a, b),
        decreases n,
    {
        assert(v@.take(n as int).drop_last() =~= v@.take(n - 1));
        n = n - 1;
    }
    assert(v@.take(n as int) =~= v@.subrange(0, n as int));
    s.substring_char(0, n)
}

/// A line without the carriage return that its line end may have.
pub open spec fn without_return(s: Seq<char>) -> Seq<char> {
    if s.len() > 0 && s.last() == '\r' {
        s.drop_last()
    } else {
        s
    }
}

/// The lines of a text, without their ends; an end of the last line makes no
/// further line.
pub open spec fn lines_of(s: Seq<char>) -> Seq<Seq<char>> {
    let p = pieces(s, '\n');
    let ended = Seq::new((p.len() - 1) as nat, |i: int| without_return(p[i]));
    if p.last().len() == 0 {
        ended
    } else {
        ended.push(p.last())
    }
}

/// The lines of a text, without their ends.
pub fn lines(s: &str) -> (r: Vec<String>)
    ensures
        views(r@) == lines_of(s@),
{
    broadcast use lemma_views_push;

    let parts = split(s, '\n');
    proof {
        lemma_pieces_nonempty(s@, '\n');
    }
    let ghost p = pieces(s@, '\n');
    assert(views(parts@) == p);
    let last: usize = parts.len() - 1;
    let mut out: Vec<String> = Vec::new();
    let mut i: usize = 0;
    while i < last
        invariant
            i <= last,
            last == parts@.len() - 1,
            views(parts@) == p,
            views(out@) == Seq::new(i as nat, |k: int| without_return(p[k])),
        decreases last - i,
    {
        let part = &parts[i];
        assert(views(parts@)[i as int] == part@);
        let n: usize = part.as_str().unicode_len();
        let ghost before = views(out@);
        if n > 0 && part.as_str().get_char(n - 1) == '\r' {
            let cut = part.as_str().substring_char(0, n - 1);
            assert(cut@ =~= without_return(p[i as int]));
            out.push(cut.to_owned());
        } else {
            out.push(part.clone());
        }
        assert(views(out@) =~= before.push(without_return(p[i as int])));
        i = i + 1;
        assert(views(out@) =~= Seq::new(i as nat, |k: int| without_return(p[k])));
    }
    assert(p.last() == parts@[last as int]@);
    if !parts[last].as_str().is_empty() {
        out.push(parts[last].clone());
    }
    out
}

/// Without leading white space.
pub fn trim_left(s: &str) -> (r: &str)
    ensures
        r@ == trim_start(s@),
{
    let v = chars_of(s);
    let mut a: usize = 0;
    while a < v.len() && white(v[a])
        invariant
            a <= v.len(),
            forall|k: int| 0 <= k < a ==> is_white(v@[k]),
        decreases v.len() - a,
    {
        a = a + 1;
    }
    proof {
        lemma_trim_start(s@, a as int);
        assert(s@.skip(a as int) =~= s@.subrange(a as int, s@.len() as int));
    }
    s.substring_char(a, v.len())
}

/// Without trailing white space.
pub fn trim_right(s: &str) -> (r: &str)
    ensures
        r@ == trim_end(s@),
{
    let v = chars_of(s);
    let mut b: usize = v.len();
    while b > 0 && white(v[b - 1])
        invariant
            b <= v.len(),
            forall|k: int| b <= k < v.len() ==> is_white(v@[k]),
        decreases b,
    {
        b = b - 1;
    }
    proof {
        lemma_trim_end(s@, b as int);
        assert(s@.take(b as int) =~= s@.subrange(0, b as int));
    }
    s.substring_char(0, b)
}

/// Appends a line.
pub fn append_line(out: &mut Vec<String>, line: String)
    ensures
        views(final(out)@) == views(old(out)@).push(line@),
        final(out)@.len() == old(out)@.len() + 1,
        final(out)@.last()@ == line@,
        forall|k: int| 0 <= k < old(out)@.len() ==> #[trigger] final(out)@[k] == old(out)@[k],
{
    broadcast use lemma_views_push;

    out.push(line);
}

/// Appends lines.
pub fn append_lines(out: &mut Vec<String>, more: Vec<String>)
    ensures
        views(final(out)@) == views(old(out)@) + views(more@),
{
    let mut more = more;
    let ghost before = out@;
    let ghost added = more@;
    out.append(&mut more);
    assert(out@ =~= before + added);
    assert(views(out@) =~= views(before) + views(added));
}

/// `s` filled up with spaces to `width` characters.
pub open spec fn padded(s: Seq<char>, width: nat) -> Seq<char>
    decreases width - s.len(),
{
    if s.len() >= width {
        s
    } else {
        padded(s.push(' '), width)
    }
}

/// `s` filled up with spaces to `width` characters.
pub fn pad(s: &str, width: usize) -> (r: String)
    ensures
        r@ == padded(s@, width as nat),
{
    let mut out = s.to_owned();
    let mut n: usize = s.unicode_len();
    while n < width
        invariant
            out@.len() == n,
            padded(s@, width as nat) == padded(out@, width as nat),
        decreases width - n,
    {
        out.push(' ');
        n = n + 1;
    }
    out
}

/// Whether `a` comes before `b` in the order of a dictionary, by code points.
pub open spec fn before(a: Seq<char>, b: Seq<char>) -> bool
    decreases a.len(),
{
    if b.len() == 0 {
        false
    } else if a.len() == 0 {
        true
    } else if a[0] != b[0] {
        a[0] < b[0]
    } else {
        before(a.skip(1), b.skip(1))
    }
}

/// Whether `a` comes before `b` in the order of a dictionary, by code points.
pub fn precedes(a: &str, b: &str) -> (r: bool)
    ensures
        r == before(a@, b@),
{
    let x = chars_of(a);
    let y = chars_of(b);
    let mut i: usize = 0;
    assert(x@.skip(0) =~= x@ && y@.skip(0) =~= y@);
    while i < x.len() && i < y.len()
        invariant
            i <= x.len(),
            i <= y.len(),
            x@ == a@,
            y@ == b@,
            before(x@, y@) == before(x@.skip(i as int), y@.skip(i as int)),
        decreases x.len() - i,
    {
        if x[i] != y[i] {
            return x[i] < y[i];
        }
        assert(x@.skip(i as int).skip(1) =~= x@.skip(i + 1));
        assert(y@.skip(i as int).skip(1) =~= y@.skip(i + 1));
        i = i + 1;
    }
    i < y.len()
}

/// No text comes before itself, and of two different texts one comes before the other.
pub proof fn dictionary_order_is_total(a: Seq<char>, b: Seq<char>)
    ensures
        !before(a, a),
        a == b || before(a, b) || before(b, a),
        !(before(a, b) && before(b, a)),
    decreases a.len(),
{
    if a.len() > 0 {
        dictionary_order_is_total(a.skip(1), a.skip(1));
    }
    if a.len() > 0 && b.len() > 0 && a[0] == b[0] {
        dictionary_order_is_total(a.skip(1), b.skip(1));
        if a.skip(1) == b.skip(1) {
            assert forall|k: int| 0 <= k < a.len() implies a[k] == b[k] by {
                if k > 0 {
                    assert(a.skip(1)[k - 1] == b.skip(1)[k - 1]);
                }
            }
            assert(a.len() == b.len()) by {
                assert(a.skip(1).len() == b.skip(1).len());
            }
            assert(a =~= b);
        }
    } else if a.len() == 0 && b.len() == 0 {
        assert(a =~= b);
    }
}

/// The order of a dictionary is transitive.
pub proof fn dictionary_order_is_transitive(a: Seq<char>, b: Seq<char>, c: Seq<char>)
    requires
        before(a, b),
        before(b, c),
    ensures
        before(a, c),
    decreases a.len(),
{
    if a.len() > 0 && b.len() > 0 && c.len() > 0 && a[0] == b[0] && b[0] == c[0] {
        dictionary_order_is_transitive(a.skip(1), b.skip(1), c.skip(1));
    }
}

/// One line where it is wanted.
pub open spec fn one_if(wanted: bool, line: Seq<char>) -> Seq<Seq<char>> {
    if wanted {
        seq![line]
    } else {
        Seq::empty()
    }
}

/// Appends a line where it is wanted.
pub fn append_if(out: &mut Vec<String>, wanted: bool, line: String)
    ensures
        views(final(out)@) == views(old(out)@) + one_if(wanted, line@),
{
    let ghost before = views(out@);
    if wanted {
        append_line(out, line);
    }
    assert(views(out@) =~= before + one_if(wanted, line@));
}

/// Two texts, one after the other.
pub fn prefixed(label: &str, body: &str) -> (r: String)
    ensures
        r@ == label@ + body@,
{
    let mut out = label.to_owned();
    out.push_str(body);
    out
}

/// A text between two others.
pub fn between(head: &str, body: &str, tail: &str) -> (r: String)
    ensures
        r@ == head@ + body@ + tail@,
{
    let mut out = head.to_owned();
    out.push_str(body);
    out.push_str(tail);
    out
}

/// One line.
pub fn only(line: String) -> (r: Vec<String>)
    ensures
        views(r@) == seq![line@],
{
    let mut out: Vec<String> = Vec::new();
    append_line(&mut out, line);
    assert(views(out@) =~= seq![line@]);
    out
}

/// A text stands in itself.
pub proof fn lemma_part_of_itself(p: Seq<char>)
    ensures
        has_part(p, p),
{
    assert(p.subrange(0, p.len() as int) =~= p);
    assert(occurs_at(p, p, 0));
}

/// What stands in the middle of a text stands in the text.
pub proof fn lemma_part_of_part(
    s: Seq<char>,
    front: Seq<char>,
    mid: Seq<char>,
    back: Seq<char>,
    p: Seq<char>,
)
    requires
        s == front + mid + back,
        has_part(mid, p),
    ensures
        has_part(s, p),
{
    let at = choose|at: int| occurs_at(mid, p, at);
    let there = front.len() + at;
    assert(s.subrange(there, there + p.len()) =~= mid.subrange(at, at + p.len()));
    assert(occurs_at(s, p, there));
}

/// What stands in a part of a text stands in the text.
pub proof fn lemma_part_chain(s: Seq<char>, mid: Seq<char>, p: Seq<char>)
    requires
        has_part(s, mid),
        has_part(mid, p),
    ensures
        has_part(s, p),
{
    let at = choose|at: int| occurs_at(s, mid, at);
    let x = s.take(at);
    let y = s.skip(at + mid.len());
    assert(s =~= x + mid + y);
    lemma_part_of_part(s, x, mid, y, p);
}

/// Each of the texts that are joined stands in the whole.
pub proof fn lemma_joined_holds(parts: Seq<Seq<char>>, sep: Seq<char>, i: int)
    requires
        0 <= i < parts.len(),
    ensures
        has_part(joined(parts, sep), parts[i]),
    decreases parts.len(),
{
    lemma_part_of_itself(parts[i]);
    if parts.len() > 1 {
        let init = joined(parts.drop_last(), sep);
        let whole = joined(parts, sep);
        if i == parts.len() - 1 {
            assert(whole =~= (init + sep) + parts[i] + Seq::empty());
            lemma_part_of_part(whole, init + sep, parts[i], Seq::empty(), parts[i]);
        } else {
            lemma_joined_holds(parts.drop_last(), sep, i);
            assert(parts.drop_last()[i] == parts[i]);
            assert(whole =~= Seq::<char>::empty() + init + (sep + parts.last()));
            lemma_part_of_part(whole, Seq::empty(), init, sep + parts.last(), parts[i]);
        }
    }
}

/// Trimming the end of a text leaves each part that does not end in white space.
pub proof fn lemma_part_survives_trim(s: Seq<char>, p: Seq<char>)
    requires
        has_part(s, p),
        p.len() > 0,
        !is_white(p.last()),
    ensures
        has_part(trim_end(s), p),
    decreases s.len(),
{
    let at = choose|at: int| occurs_at(s, p, at);
    assert(s.subrange(at, at + p.len())[p.len() - 1] == p.last());
    if s.len() > 0 && is_white(s.last()) {
        let t = s.drop_last();
        assert(at + p.len() != s.len());
        assert(t.subrange(at, at + p.len()) =~= s.subrange(at, at + p.len()));
        assert(occurs_at(t, p, at));
        lemma_part_survives_trim(t, p);
    }
}

/// A text that begins with a visible character is not trimmed to nothing.
pub proof fn lemma_visible_start(s: Seq<char>)
    requires
        s.len() > 0,
        !is_white(s[0]),
    ensures
        trimmed(s).len() > 0,
{
    lemma_trim_start(s, 0);
    assert(s.skip(0) =~= s);
    let p = seq![s[0]];
    assert(s.subrange(0, 1) =~= p);
    assert(occurs_at(s, p, 0));
    lemma_part_survives_trim(s, p);
    let at = choose|at: int| occurs_at(trim_end(s), p, at);
    assert(trim_end(s).len() >= at + 1);
}

/// The sides of a cut make up the text around the first separator, and there is no cut
/// only where the separator does not stand in the text.
pub proof fn lemma_cut(s: Seq<char>, sep: Seq<char>)
    ensures
        match cut_at(s, sep) {
            Some(sides) => s == sides.0 + sep + sides.1 && forall|j: int|
                0 <= j < sides.0.len() ==> !#[trigger] occurs_at(s, sep, j),
            None => !has_part(s, sep),
        },
{
    lemma_first_from(s, sep, 0);
    if let Some(k) = first_of(s, sep) {
        assert(s =~= s.take(k) + s.subrange(k, k + sep.len()) + s.skip(k + sep.len()));
    }
}

/// A text is cut where its separator stands first.
pub proof fn lemma_cut_here(s: Seq<char>, a: Seq<char>, sep: Seq<char>, b: Seq<char>)
    requires
        s == a + sep + b,
        forall|j: int| 0 <= j < a.len() ==> !#[trigger] occurs_at(s, sep, j),
    ensures
        cut_at(s, sep) == Some((a, b)),
{
    lemma_first_from(s, sep, 0);
    let n = a.len() as int;
    assert(s.subrange(n, n + sep.len()) =~= sep);
    assert(occurs_at(s, sep, n));
    let k = first_of(s, sep)->0;
    assert(k == n);
    assert(s.take(n) =~= a);
    assert(s.skip(n + sep.len()) =~= b);
}

} // verus!
