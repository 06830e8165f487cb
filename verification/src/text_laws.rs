//! What holds of texts and numbers in writing, in terms of what goes in and comes out.
use crate::number;
use crate::text;
use vstd::prelude::*;

verus! {

/// Whether every character of a text is white space.
pub open spec fn is_blank(s: Seq<char>) -> bool {
    forall|k: int| 0 <= k < s.len() ==> text::is_white(#[trigger] s[k])
}

/// White space is what Unicode counts as such; the letters, digits and marks of ASCII are
/// visible.
pub proof fn visible_marks_are_not_white(c: char, r: bool)
    requires
        call_ensures(text::white, (c,), r),
    ensures
        0x21 <= c as u32 <= 0x7e ==> !r,
        c == ' ' || c == '\t' || c == '\n' || c == '\r' || c as u32 == 0x3000 || c as u32 == 0xa0
            ==> r,
        c as u32 > 0x3000 ==> !r,
{
}

proof fn lemma_trim_end_cut(s: Seq<char>)
    ensures
        text::trim_end(s).len() <= s.len(),
        s == text::trim_end(s) + s.skip(text::trim_end(s).len() as int),
        is_blank(s.skip(text::trim_end(s).len() as int)),
        text::trim_end(s).len() > 0 ==> !text::is_white(text::trim_end(s).last()),
    decreases s.len(),
{
    let n = text::trim_end(s).len() as int;
    if s.len() > 0 && text::is_white(s.last()) {
        let t = s.drop_last();
        lemma_trim_end_cut(t);
        assert forall|k: int| 0 <= k < s.skip(n).len() implies text::is_white(
            #[trigger] s.skip(n)[k],
        ) by {
            if k < t.skip(n).len() {
                assert(t.skip(n)[k] == s.skip(n)[k]);
            }
        }
        assert(s =~= text::trim_end(s) + s.skip(n)) by {
            assert forall|k: int| 0 <= k < n implies s[k] == text::trim_end(s)[k] by {
                assert(t[k] == (text::trim_end(t) + t.skip(n))[k]);
            }
        }
    } else {
        assert(s =~= s + s.skip(s.len() as int));
    }
}

proof fn lemma_trim_start_cut(s: Seq<char>)
    ensures
        text::trim_start(s).len() <= s.len(),
        s == s.take(s.len() - text::trim_start(s).len()) + text::trim_start(s),
        is_blank(s.take(s.len() - text::trim_start(s).len())),
        text::trim_start(s).len() > 0 ==> !text::is_white(text::trim_start(s)[0]),
    decreases s.len(),
{
    let n = s.len() - text::trim_start(s).len();
    if s.len() > 0 && text::is_white(s[0]) {
        let t = s.drop_first();
        lemma_trim_start_cut(t);
        let cut = t.take(n - 1);
        assert forall|k: int| 0 <= k < s.take(n).len() implies text::is_white(
            #[trigger] s.take(n)[k],
        ) by {
            if k > 0 {
                assert(cut[k - 1] == s.take(n)[k]);
            }
        }
        assert forall|k: int| n <= k < s.len() implies s[k] == text::trim_start(s)[k - n] by {
            assert(t[k - 1] == (t.take(n - 1) + text::trim_start(t))[k - 1]);
        }
        assert(s =~= s.take(n) + text::trim_start(s));
    } else {
        assert(s =~= s.take(0) + s);
    }
}

/// Trimming takes white space off both ends and nothing else: what is left stands in the
/// text between white space, and begins and ends with a visible character.
pub proof fn trimming_takes_the_ends(s: &str, r: &str)
    requires
        call_ensures(text::trim, (s,), r),
    ensures
        exists|a: Seq<char>, b: Seq<char>|
            s@ == a + r@ + b && #[trigger] is_blank(a) && #[trigger] is_blank(b),
        r@.len() > 0 ==> !text::is_white(r@[0]) && !text::is_white(r@.last()),
{
    let t = text::trim_start(s@);
    lemma_trim_start_cut(s@);
    lemma_trim_end_cut(t);
    let a = s@.take(s@.len() - t.len());
    let b = t.skip(r@.len() as int);
    assert(s@ =~= a + r@ + b);
    if r@.len() > 0 {
        assert(t[0] == (r@ + b)[0]);
    }
    assert(is_blank(a) && is_blank(b));
}

/// A text holds another exactly where it is something before it, it, and something after
/// it; begins with it where nothing comes before; and ends with it where nothing comes
/// after.
pub proof fn parts_stand_in_the_text(
    s: &str,
    p: &str,
    held: bool,
    first: bool,
    last: bool,
    front: Seq<char>,
    back: Seq<char>,
)
    requires
        call_ensures(text::contains, (s, p), held),
        call_ensures(text::starts_with, (s, p), first),
        call_ensures(text::ends_with, (s, p), last),
    ensures
        s@ == front + p@ + back ==> held,
        held ==> exists|a: Seq<char>, b: Seq<char>| s@ == #[trigger] (a + p@ + b),
        s@ == p@ + back ==> first,
        first ==> s@ == p@ + s@.skip(p@.len() as int),
        s@ == front + p@ ==> last,
        last ==> s@ == s@.take(s@.len() - p@.len()) + p@,
{
    if s@ == front + p@ + back {
        text::lemma_part_of_itself(p@);
        text::lemma_part_of_part(s@, front, p@, back, p@);
    }
    if held {
        let at = choose|at: int| text::occurs_at(s@, p@, at);
        let a = s@.take(at);
        let b = s@.skip(at + p@.len());
        assert(s@ =~= a + p@ + b);
    }
    if s@ == p@ + back {
        assert(s@.subrange(0, p@.len() as int) =~= p@);
    }
    if first {
        assert(s@ =~= s@.subrange(0, p@.len() as int) + s@.skip(p@.len() as int));
    }
    if s@ == front + p@ {
        assert(s@.subrange(s@.len() - p@.len(), s@.len() as int) =~= p@);
    }
    if last {
        assert(s@ =~= s@.take(s@.len() - p@.len()) + s@.subrange(
            s@.len() - p@.len(),
            s@.len() as int,
        ));
    }
}

/// What stands after a beginning, or before an ending, is the rest of the text.
pub proof fn stripping_leaves_the_rest(
    s: &str,
    p: &str,
    rest: Seq<char>,
    after: Option<&str>,
    before: Option<&str>,
)
    requires
        call_ensures(text::strip_prefix, (s, p), after),
        call_ensures(text::strip_suffix, (s, p), before),
    ensures
        after matches Some(x) ==> s@ == p@ + x@,
        s@ == p@ + rest ==> after is Some && after->0@ == rest,
        before matches Some(x) ==> s@ == x@ + p@,
        s@ == rest + p@ ==> before is Some && before->0@ == rest,
{
    if let Some(x) = after {
        assert(s@ =~= s@.subrange(0, p@.len() as int) + s@.skip(p@.len() as int));
    }
    if s@ == p@ + rest {
        assert(s@.subrange(0, p@.len() as int) =~= p@);
        assert(s@.skip(p@.len() as int) =~= rest);
    }
    if let Some(x) = before {
        assert(s@ =~= s@.take(s@.len() - p@.len()) + s@.subrange(
            s@.len() - p@.len(),
            s@.len() as int,
        ));
    }
    if s@ == rest + p@ {
        assert(s@.subrange(s@.len() - p@.len(), s@.len() as int) =~= p@);
        assert(s@.take(s@.len() - p@.len()) =~= rest);
    }
}

/// White space parts the words of a text, a text without any is one word, and an empty one
/// has none.
pub proof fn white_space_parts_words(
    a: &str,
    c: char,
    b: &str,
    whole: &str,
    x: Vec<String>,
    y: Vec<String>,
    z: Vec<String>,
)
    requires
        text::is_white(c),
        whole@ == a@ + seq![c] + b@,
        call_ensures(text::split_words, (a,), x),
        call_ensures(text::split_words, (b,), y),
        call_ensures(text::split_words, (whole,), z),
    ensures
        text::views(z@) == text::views(x@) + text::views(y@),
        text::is_word(a@) ==> text::views(x@) == seq![a@],
        a@.len() == 0 ==> x@.len() == 0,
        forall|i: int| 0 <= i < x@.len() ==> text::is_word((#[trigger] x@[i])@),
{
    text::lemma_words_apart(a@, c, b@);
    text::lemma_words_are_words(a@);
    assert(text::views(x@).len() == x@.len());
    assert forall|i: int| 0 <= i < x@.len() implies text::is_word((#[trigger] x@[i])@) by {
        assert(text::views(x@)[i] == x@[i]@);
    }
    if text::is_word(a@) {
        let w = seq![a@];
        assert(text::is_word(w[0]));
        text::lemma_joined_words(w);
        assert(text::joined(w, " "@) =~= a@);
    }
}

/// A character parts a text into two with their own pieces.
pub proof fn lemma_pieces_apart(a: Seq<char>, c: char, b: Seq<char>)
    ensures
        text::pieces(a + seq![c] + b, c) == text::pieces(a, c) + text::pieces(b, c),
    decreases b.len(),
{
    let whole = a + seq![c] + b;
    text::lemma_pieces_nonempty(a, c);
    text::lemma_pieces_nonempty(b, c);
    if b.len() == 0 {
        assert(whole.drop_last() =~= a);
        assert(whole.last() == c);
        assert(b =~= Seq::empty());
        assert(text::pieces(whole, c) =~= text::pieces(a, c) + text::pieces(b, c));
    } else {
        let t = b.drop_last();
        lemma_pieces_apart(a, c, t);
        text::lemma_pieces_nonempty(t, c);
        assert(whole.drop_last() =~= a + seq![c] + t);
        assert(whole.last() == b.last());
        let init = text::pieces(a, c) + text::pieces(t, c);
        assert(init.last() == text::pieces(t, c).last());
        assert(text::pieces(whole, c) =~= text::pieces(a, c) + text::pieces(b, c));
    }
}

/// A text without a character is one piece.
pub proof fn lemma_one_piece(s: Seq<char>, c: char)
    requires
        !s.contains(c),
    ensures
        text::pieces(s, c) == seq![s],
    decreases s.len(),
{
    if s.len() > 0 {
        let t = s.drop_last();
        assert(s[s.len() - 1] != c);
        assert(!t.contains(c)) by {
            if t.contains(c) {
                let k = choose|k: int| 0 <= k < t.len() && t[k] == c;
                assert(s[k] == c);
            }
        }
        lemma_one_piece(t, c);
        assert(t.push(s.last()) =~= s);
        assert(text::pieces(s, c) =~= seq![s]);
    }
}

/// Splitting at a character cuts the text at each of its places and nowhere else.
pub proof fn splitting_cuts_at_the_mark(
    a: &str,
    c: char,
    b: &str,
    whole: &str,
    x: Vec<String>,
    y: Vec<String>,
    z: Vec<String>,
)
    requires
        whole@ == a@ + seq![c] + b@,
        call_ensures(text::split, (a, c), x),
        call_ensures(text::split, (b, c), y),
        call_ensures(text::split, (whole, c), z),
    ensures
        text::views(z@) == text::views(x@) + text::views(y@),
        !a@.contains(c) ==> text::views(x@) == seq![a@],
{
    lemma_pieces_apart(a@, c, b@);
    if !a@.contains(c) {
        lemma_one_piece(a@, c);
    }
}

proof fn lemma_split_joined(parts: Seq<Seq<char>>, c: char)
    requires
        parts.len() > 0,
        forall|i: int| 0 <= i < parts.len() ==> !(#[trigger] parts[i]).contains(c),
    ensures
        text::pieces(text::joined(parts, seq![c]), c) == parts,
    decreases parts.len(),
{
    let last = parts.last();
    assert(!parts[parts.len() - 1].contains(c));
    lemma_one_piece(last, c);
    if parts.len() == 1 {
        assert(parts =~= seq![last]);
    } else {
        let init = parts.drop_last();
        assert forall|i: int| 0 <= i < init.len() implies !(#[trigger] init[i]).contains(c) by {
            assert(init[i] == parts[i]);
        }
        lemma_split_joined(init, c);
        lemma_pieces_apart(text::joined(init, seq![c]), c, last);
        assert(init + seq![last] =~= parts);
    }
}

/// Texts that are joined by a character that none of them holds are told apart again by
/// splitting at it.
pub proof fn joined_texts_split_again(
    parts: &Vec<String>,
    sep: &str,
    c: char,
    whole: String,
    w: &str,
    again: Vec<String>,
)
    requires
        sep@ == seq![c],
        parts@.len() > 0,
        forall|i: int| 0 <= i < parts@.len() ==> !(#[trigger] parts@[i])@.contains(c),
        call_ensures(text::join, (parts, sep), whole),
        w@ == whole@,
        call_ensures(text::split, (w, c), again),
    ensures
        text::views(again@) == text::views(parts@),
{
    let p = text::views(parts@);
    assert forall|i: int| 0 <= i < p.len() implies !(#[trigger] p[i]).contains(c) by {
        assert(p[i] == parts@[i]@);
    }
    lemma_split_joined(p, c);
}

/// The head of a text is its beginning: all of it, or as many characters as asked.
pub proof fn heads_are_beginnings(s: &str, n: usize, r: &str)
    requires
        call_ensures(text::take, (s, n), r),
    ensures
        s@ == r@ + s@.skip(r@.len() as int),
        r@.len() == s@.len() || r@.len() == n,
        r@.len() <= n,
{
    assert(s@ =~= r@ + s@.skip(r@.len() as int));
}

/// An unset or empty text says nothing; of two settings the first that is there counts.
pub proof fn the_first_setting_counts(
    o: &Option<String>,
    said: Option<&str>,
    a: Option<usize>,
    b: Option<usize>,
    r: Option<usize>,
)
    requires
        call_ensures(text::nonempty, (o,), said),
        call_ensures(text::or::<usize>, (a, b), r),
    ensures
        said is Some <==> *o is Some && o->0@.len() > 0,
        said matches Some(s) ==> s@ == o->0@,
        a is Some ==> r == a,
        a is None ==> r == b,
{
}

proof fn lemma_padded(s: Seq<char>, width: nat)
    ensures
        text::padded(s, width).len() == if s.len() < width {
            width
        } else {
            s.len()
        },
        text::padded(s, width).take(s.len() as int) == s,
        forall|k: int|
            s.len() <= k < text::padded(s, width).len() ==> #[trigger] text::padded(s, width)[k]
                == ' ',
    decreases width - s.len(),
{
    if s.len() < width {
        lemma_padded(s.push(' '), width);
        let r = text::padded(s, width);
        assert(r.take(s.len() as int) =~= s) by {
            assert forall|k: int| 0 <= k < s.len() implies r[k] == s[k] by {
                assert(r.take((s.len() + 1) as int)[k] == s.push(' ')[k]);
            }
        }
        assert(r[s.len() as int] == ' ') by {
            assert(r.take((s.len() + 1) as int)[s.len() as int] == s.push(' ')[s.len() as int]);
        }
    } else {
        assert(s.take(s.len() as int) =~= s);
    }
}

/// Padding adds spaces at the end until the width is reached, and nothing to a text that
/// is wide enough.
pub proof fn padding_adds_spaces(s: &str, width: usize, r: String)
    requires
        call_ensures(text::pad, (s, width), r),
    ensures
        r@.take(s@.len() as int) == s@,
        s@.len() >= width ==> r@ == s@,
        s@.len() < width ==> r@.len() == width,
        forall|k: int| s@.len() <= k < r@.len() ==> #[trigger] r@[k] == ' ',
{
    lemma_padded(s@, width as nat);
    if s@.len() >= width {
        assert(r@ =~= r@.take(s@.len() as int));
    }
}

/// A text is cut at the first place where the separator stands, and not at all where it
/// does not.
pub proof fn cuts_are_at_the_first_separator(s: &str, sep: &str, r: Option<(&str, &str)>)
    requires
        call_ensures(text::split_once, (s, sep), r),
    ensures
        r is None <==> !text::has_part(s@, sep@),
        r matches Some(sides) ==> s@ == sides.0@ + sep@ + sides.1@ && forall|j: int|
            0 <= j < sides.0@.len() ==> !#[trigger] text::occurs_at(s@, sep@, j),
{
    text::lemma_cut(s@, sep@);
    if let Some(sides) = r {
        let n = sides.0@.len() as int;
        assert(s@.subrange(n, n + sep@.len()) =~= sep@);
        assert(text::occurs_at(s@, sep@, n));
    }
}

// ---------------------------------------------------------------------------
// Numbers
// ---------------------------------------------------------------------------

/// The number that a row of decimal digits stands for.
pub open spec fn value_of(digits: Seq<char>) -> int
    decreases digits.len(),
{
    if digits.len() == 0 {
        0
    } else {
        10 * value_of(digits.drop_last()) + (digits.last() as int - 48)
    }
}

proof fn lemma_decimal(n: nat)
    ensures
        value_of(number::decimal(n)) == n,
        number::decimal(n).len() > 0,
        n > 0 ==> number::decimal(n)[0] != '0',
        forall|k: int|
            0 <= k < number::decimal(n).len() ==> '0' <= #[trigger] number::decimal(n)[k] <= '9',
    decreases n,
{
    let d = number::decimal(n);
    if n < 10 {
        assert(d =~= seq![number::digit(n)]);
        assert(d.drop_last() =~= Seq::empty());
        assert(value_of(d.drop_last()) == 0);
    } else {
        lemma_decimal(n / 10);
        assert(d.drop_last() =~= number::decimal(n / 10));
        assert(d[0] == number::decimal(n / 10)[0]);
        assert forall|k: int| 0 <= k < d.len() implies '0' <= #[trigger] d[k] <= '9' by {
            if k < d.len() - 1 {
                assert(d[k] == number::decimal(n / 10)[k]);
            }
        }
    }
}

/// A number in writing is a row of digits that stands for it, without a leading zero, and
/// with a minus sign in front exactly where it is negative.
pub proof fn numbers_are_written_in_decimal(
    n: usize,
    m: i64,
    size: String,
    signed: String,
)
    requires
        call_ensures(number::write_size, (n,), size),
        call_ensures(number::write_signed, (m,), signed),
    ensures
        value_of(size@) == n,
        size@.len() > 0,
        n > 0 ==> size@[0] != '0',
        forall|k: int| 0 <= k < size@.len() ==> '0' <= #[trigger] size@[k] <= '9',
        m >= 0 ==> value_of(signed@) == m,
        m < 0 ==> signed@.len() > 1 && signed@[0] == '-' && value_of(signed@.skip(1)) == -m,
{
    lemma_decimal(n as nat);
    if m < 0 {
        lemma_decimal((-m) as nat);
        assert(signed@.skip(1) =~= number::decimal((-m) as nat));
    } else {
        lemma_decimal(m as nat);
    }
}

/// Replacing goes through the parts of a text one after the other.
pub proof fn lemma_replaced_apart(a: Seq<char>, b: Seq<char>, c: char, with: Seq<char>)
    ensures
        text::replaced(a + b, c, with) == text::replaced(a, c, with) + text::replaced(b, c, with),
    decreases b.len(),
{
    if b.len() == 0 {
        assert(a + b =~= a);
        assert(text::replaced(a, c, with) + text::replaced(b, c, with) =~= text::replaced(
            a,
            c,
            with,
        ));
    } else {
        lemma_replaced_apart(a, b.drop_last(), c, with);
        assert((a + b).drop_last() =~= a + b.drop_last());
        assert((a + b).last() == b.last());
        assert(text::replaced(a + b, c, with) =~= text::replaced(a, c, with) + text::replaced(
            b,
            c,
            with,
        ));
    }
}

/// A text free of the character is not changed.
pub proof fn lemma_replaced_none(s: Seq<char>, c: char, with: Seq<char>)
    requires
        !s.contains(c),
    ensures
        text::replaced(s, c, with) == s,
    decreases s.len(),
{
    if s.len() > 0 {
        let t = s.drop_last();
        assert(!t.contains(c)) by {
            if t.contains(c) {
                let k = choose|k: int| 0 <= k < t.len() && t[k] == c;
                assert(s[k] == c);
            }
        }
        lemma_replaced_none(t, c, with);
        assert(s.last() != c) by {
            assert(s.contains(s.last()));
        }
        assert(text::replaced(s, c, with) =~= s);
    }
}

/// Replacing puts the new text where the character stood: what comes before it stays where
/// it is free of the character, and what comes after is replaced in turn.
pub proof fn replacing_goes_by_the_character(
    s: &str,
    c: char,
    with: &str,
    r: String,
    rest: &str,
    q: String,
    front: Seq<char>,
)
    requires
        call_ensures(text::replace, (s, c, with), r),
        call_ensures(text::replace, (rest, c, with), q),
        !front.contains(c),
        s@ == front + seq![c] + rest@,
    ensures
        r@ == front + with@ + q@,
{
    lemma_replaced_none(front, c, with@);
    lemma_replaced_apart(front + seq![c], rest@, c, with@);
    assert((front + seq![c]).drop_last() =~= front);
}

/// Where the character does not occur, replacing gives back the text.
pub proof fn nothing_else_is_replaced(s: &str, c: char, with: &str, r: String)
    requires
        call_ensures(text::replace, (s, c, with), r),
        !s@.contains(c),
    ensures
        r@ == s@,
{
    lemma_replaced_none(s@, c, with@);
}

/// A text cut into lines and its two parts on either side of a line's end have the same
/// lines, where the second part is not empty.
pub proof fn lines_end_at_line_feeds(
    s: &str,
    a: &str,
    b: &str,
    r: Vec<String>,
    x: Vec<String>,
    y: Vec<String>,
)
    requires
        call_ensures(text::lines, (s,), r),
        call_ensures(text::lines, (a,), x),
        call_ensures(text::lines, (b,), y),
        s@ == a@ + seq!['\n'] + b@,
        a@.len() > 0,
        a@.last() != '\n',
        a@.last() != '\r',
        b@.len() > 0,
    ensures
        text::views(r@) == text::views(x@) + text::views(y@),
{
    lemma_pieces_apart(a@, '\n', b@);
    let p = text::pieces(a@, '\n');
    let q = text::pieces(b@, '\n');
    assert(p.last().last() == a@.last());
    let whole = text::pieces(s@, '\n');
    assert(whole == p + q);
    assert(whole.last() == q.last());
    assert(text::views(r@) =~= text::views(x@) + text::views(y@));
}

} // verus!
