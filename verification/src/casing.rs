//! Letter case of texts.
use crate::text;
use vstd::prelude::*;
use vstd::utf8::*;

verus! {

/// What [`str::to_lowercase`] gives for a text.
pub uninterp spec fn lowercase(s: Seq<char>) -> Seq<char>;

/// What [`str::to_uppercase`] gives for a text.
pub uninterp spec fn uppercase(s: Seq<char>) -> Seq<char>;

/// The small letter of an ASCII capital; any other character itself.
pub open spec fn ascii_lower(c: char) -> char {
    if 'A' <= c <= 'Z' {
        (c as u32 + 32) as char
    } else {
        c
    }
}

/// The capital of an ASCII small letter; any other character itself.
pub open spec fn ascii_upper(c: char) -> char {
    if 'a' <= c <= 'z' {
        (c as u32 - 32) as char
    } else {
        c
    }
}

/// [`str::to_lowercase`]: the Unicode lower-case form of the text, which is a
/// function of the text alone. On a text of ASCII characters it turns each
/// capital into its small letter and leaves the rest.
pub assume_specification[ str::to_lowercase ](s: &str) -> (r: String)
    ensures
        r@ == lowercase(s@),
        is_ascii_chars(s@) ==> r@ == ascii_lowered(s@),
;

/// [`str::to_uppercase`]: the Unicode upper-case form of the text, which is a
/// function of the text alone. On a text of ASCII characters it turns each
/// small letter into its capital and leaves the rest.
pub assume_specification[ str::to_uppercase ](s: &str) -> (r: String)
    ensures
        r@ == uppercase(s@),
        is_ascii_chars(s@) ==> r@ == ascii_uppered(s@),
;

/// `s` with each ASCII capital turned into its small letter.
pub open spec fn ascii_lowered(s: Seq<char>) -> Seq<char> {
    Seq::new(s.len(), |i: int| ascii_lower(s[i]))
}

/// `s` with each ASCII small letter turned into its capital.
pub open spec fn ascii_uppered(s: Seq<char>) -> Seq<char> {
    Seq::new(s.len(), |i: int| ascii_upper(s[i]))
}

/// `s` with each ASCII capital turned into its small letter.
pub fn ascii_lower_text(s: &str) -> (r: String)
    ensures
        r@ == ascii_lowered(s@),
{
    let v = text::chars_of(s);
    let mut out = String::new();
    let mut i: usize = 0;
    while i < v.len()
        invariant
            i <= v.len(),
            out@ == ascii_lowered(v@.take(i as int)),
        decreases v.len() - i,
    {
        let c: char = v[i];
        let d: char = if 'A' <= c && c <= 'Z' {
            (c as u8 + 32) as char
        } else {
            c
        };
        out.push(d);
        i = i + 1;
    }
    assert(v@.take(i as int) =~= s@);
    out
}

/// Turning capitals into small letters leaves the white space, so it turns the words of a
/// text into the words of the other.
pub proof fn lemma_lowered_words(s: Seq<char>)
    ensures
        text::words(ascii_lowered(s)) == text::words(s).map_values(
            |w: Seq<char>| ascii_lowered(w),
        ),
    decreases s.len(),
{
    let t = ascii_lowered(s);
    let f = |w: Seq<char>| ascii_lowered(w);
    if s.len() == 0 {
        assert(text::words(t) =~= text::words(s).map_values(f));
    } else {
        assert forall|k: int| 0 <= k < s.len() implies text::is_white(#[trigger] t[k])
            == text::is_white(s[k]) by {}
        if text::is_white(s[0]) {
            assert(text::is_white(t[0]));
            assert(t.drop_first() =~= ascii_lowered(s.drop_first()));
            lemma_lowered_words(s.drop_first());
        } else {
            assert(!text::is_white(t[0]));
            let n = text::word_len(s) as int;
            text::lemma_word_run(s);
            assert forall|k: int| 0 <= k < n implies !text::is_white(t[k]) by {
                assert(text::is_white(t[k]) == text::is_white(s[k]));
            }
            if n < s.len() {
                assert(text::is_white(t[n]) == text::is_white(s[n]));
            }
            text::lemma_word_len(t, n);
            assert(t.take(n) =~= ascii_lowered(s.take(n)));
            assert(t.skip(n) =~= ascii_lowered(s.skip(n)));
            lemma_lowered_words(s.skip(n));
            assert(text::words(t) =~= text::words(s).map_values(f));
        }
    }
}

} // verus!
