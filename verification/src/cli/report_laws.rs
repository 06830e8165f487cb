//! What holds of the reports on the machine, in terms of what goes in and comes out.
use crate::cli::doctor;
use crate::cli::inspect;
use crate::cli::logs;
use crate::cli::service;
use crate::cli::upgrade;
use crate::config::resolved::RuntimeConfig;
use crate::path;
use crate::text;
use crate::text_laws;
use vstd::prelude::*;

verus! {

/// The home chat is that of the first ready channel that has one, in the order Feishu,
/// Telegram, WeChat, named by its platform.
pub proof fn the_first_home_chat_counts(rt: &RuntimeConfig, r: Option<String>)
    requires
        call_ensures(doctor::config_home_chat, (rt,), r),
    ensures
        ({
            let f = rt.feishu is Ready && rt.feishu->Ready_0.home_chat is Some;
            let t = rt.telegram is Ready && rt.telegram->Ready_0.home_chat is Some;
            let w = rt.wechat is Ready && rt.wechat->Ready_0.home_chat is Some;
            &&& f ==> r is Some && r->0@ == "feishu:"@ + rt.feishu->Ready_0.home_chat->0@
            &&& !f && t ==> r is Some && r->0@ == "telegram:"@
                + rt.telegram->Ready_0.home_chat->0@
            &&& !f && !t && w ==> r is Some && r->0@ == "wechat:"@
                + rt.wechat->Ready_0.home_chat->0@
            &&& r is None <==> !f && !t && !w
        }),
{
}

/// Whether a file is the log of a day: its date stands between the fixed parts of the name.
pub open spec fn is_log_of(name: Seq<char>, date: Seq<char>) -> bool {
    &&& date.len() == 10
    &&& forall|k: int| 0 <= k < 10 ==> '0' <= #[trigger] date[k] <= '9' || date[k] == '-'
    &&& name == "gateway."@ + date + ".log"@
}

proof fn lemma_daily(name: Seq<char>, date: Seq<char>)
    requires
        is_log_of(name, date),
    ensures
        logs::is_daily(name),
{
    let front = "gateway."@;
    let back = ".log"@;
    let rest = date + back;
    assert(name.subrange(0, front.len() as int) =~= front);
    assert(name.skip(front.len() as int) =~= rest);
    assert(rest.subrange(rest.len() - back.len(), rest.len() as int) =~= back);
    assert(rest.take(rest.len() - back.len()) =~= date);
}

proof fn lemma_before(a: Seq<char>, b: Seq<char>, k: int)
    requires
        0 <= k < a.len(),
        k < b.len(),
        a.take(k) == b.take(k),
        a[k] < b[k],
    ensures
        text::before(a, b),
    decreases k,
{
    if k > 0 {
        assert(a[0] == a.take(k)[0] && b[0] == b.take(k)[0]);
        assert(a.skip(1).take(k - 1) =~= a.take(k).skip(1));
        assert(b.skip(1).take(k - 1) =~= b.take(k).skip(1));
        lemma_before(a.skip(1), b.skip(1), k - 1);
    }
}

/// Of the logs of two days the earlier one is not the newest: the dates differ first at a
/// place where its own is the smaller.
pub proof fn the_newest_log_is_chosen(
    names: &Vec<String>,
    i: int,
    j: int,
    early: Seq<char>,
    late: Seq<char>,
    k: int,
    r: Option<String>,
)
    requires
        call_ensures(logs::latest_daily_log, (names,), r),
        0 <= i < names@.len(),
        0 <= j < names@.len(),
        is_log_of(names@[i]@, early),
        is_log_of(names@[j]@, late),
        0 <= k < 10,
        early.take(k) == late.take(k),
        early[k] < late[k],
    ensures
        r is Some,
        r->0@ != names@[i]@,
        exists|m: int| 0 <= m < names@.len() && r->0@ == (#[trigger] names@[m])@,
{
    lemma_daily(names@[i]@, early);
    lemma_daily(names@[j]@, late);
    let a = names@[i]@;
    let b = names@[j]@;
    let front = "gateway."@;
    let n = front.len() as int;
    assert(a[n + k] == early[k] && b[n + k] == late[k]);
    assert(a.take(n + k) =~= front + early.take(k));
    assert(b.take(n + k) =~= front + late.take(k));
    lemma_before(a, b, n + k);
    let v = text::views(names@);
    let m = choose|m: int| 0 <= m < v.len() && v[m] == r->0@;
    assert(names@[m]@ == r->0@);
}

/// The name of a day's log is known for one.
pub proof fn daily_logs_are_known(name: &str, date: Seq<char>, r: bool)
    requires
        call_ensures(logs::is_daily_log_name, (name,), r),
        is_log_of(name@, date),
    ensures
        r,
{
    lemma_daily(name@, date);
}

/// An executable is cargo's exactly where it stands in a directory named bin; the root is
/// the beginning of its path that leads to that directory's parent.
pub proof fn roots_hold_the_bin_directory(exe: &str, r: Option<String>)
    requires
        call_ensures(upgrade::cargo_root_for, (exe,), r),
    ensures
        r is Some <==> {
            let c = path::components(exe@);
            c.len() >= 2 && c[c.len() - 2] == "bin"@
        },
        r matches Some(root) ==> {
            &&& text::has_prefix(exe@, root@)
            &&& path::components(exe@) == path::components(root@) + seq![
                "bin"@,
                path::components(exe@).last(),
            ]
        },
{
    let c = path::components(exe@);
    if let Some(root) = r {
        assert(exe@.subrange(0, root@.len() as int) =~= root@);
        assert(c =~= c.take(c.len() - 2) + seq!["bin"@, c.last()]);
    }
}

/// How a mark of the markup is written in a text.
pub open spec fn written_mark(c: char) -> Seq<char> {
    if c == '&' {
        "&amp;"@
    } else if c == '<' {
        "&lt;"@
    } else if c == '>' {
        "&gt;"@
    } else {
        seq![c]
    }
}

proof fn lemma_escaped_apart(a: Seq<char>, b: Seq<char>)
    ensures
        service::escaped(a + b) == service::escaped(a) + service::escaped(b),
{
    let a1 = text::replaced(a, '&', "&amp;"@);
    let b1 = text::replaced(b, '&', "&amp;"@);
    text_laws::lemma_replaced_apart(a, b, '&', "&amp;"@);
    text_laws::lemma_replaced_apart(a1, b1, '<', "&lt;"@);
    text_laws::lemma_replaced_apart(
        text::replaced(a1, '<', "&lt;"@),
        text::replaced(b1, '<', "&lt;"@),
        '>',
        "&gt;"@,
    );
}

proof fn lemma_replaced_one(c: char, with: Seq<char>)
    ensures
        text::replaced(seq![c], c, with) == with,
{
    let s = seq![c];
    assert(s.drop_last() =~= Seq::empty());
    assert(text::replaced(s.drop_last(), c, with) =~= Seq::empty());
    assert(text::replaced(s, c, with) =~= with);
}

proof fn lemma_escaped_mark(c: char)
    ensures
        service::escaped(seq![c]) == written_mark(c),
{
    reveal_strlit("&amp;");
    reveal_strlit("&lt;");
    let s = seq![c];
    if c == '&' {
        lemma_replaced_one('&', "&amp;"@);
        text_laws::lemma_replaced_none("&amp;"@, '<', "&lt;"@);
        text_laws::lemma_replaced_none("&amp;"@, '>', "&gt;"@);
    } else {
        text_laws::lemma_replaced_none(s, '&', "&amp;"@);
        if c == '<' {
            lemma_replaced_one('<', "&lt;"@);
            text_laws::lemma_replaced_none("&lt;"@, '>', "&gt;"@);
        } else {
            text_laws::lemma_replaced_none(s, '<', "&lt;"@);
            if c == '>' {
                lemma_replaced_one('>', "&gt;"@);
            } else {
                text_laws::lemma_replaced_none(s, '>', "&gt;"@);
            }
        }
    }
}

/// Escaping goes character by character: a mark of the markup is written by its name, any
/// other character as it is.
pub proof fn marks_are_escaped(s: &str, c: char, rest: &str, r: String, q: String)
    requires
        call_ensures(service::xml_escape, (s,), r),
        call_ensures(service::xml_escape, (rest,), q),
        s@ == seq![c] + rest@,
    ensures
        r@ == written_mark(c) + q@,
{
    lemma_escaped_apart(seq![c], rest@);
    lemma_escaped_mark(c);
}

/// Nothing is written for the empty text.
pub proof fn the_empty_text_is_escaped(s: &str, r: String)
    requires
        call_ensures(service::xml_escape, (s,), r),
        s@.len() == 0,
    ensures
        r@.len() == 0,
{
}

/// A text on one line is kept up to a number of characters, with a mark where it is cut.
pub proof fn short_lines_are_kept(s: &str, n: usize, r: String)
    requires
        call_ensures(inspect::oneline, (s, n), r),
        !s@.contains('\n'),
    ensures
        s@.len() <= n ==> r@ == s@,
        s@.len() > n ==> r@ == s@.take(n as int) + "…"@,
{
    text_laws::lemma_replaced_none(s@, '\n', " "@);
}

/// On one line, a line's end reads as a space does.
pub proof fn line_ends_read_as_spaces(
    s: &str,
    t: &str,
    n: usize,
    front: Seq<char>,
    rest: Seq<char>,
    r: String,
    q: String,
)
    requires
        call_ensures(inspect::oneline, (s, n), r),
        call_ensures(inspect::oneline, (t, n), q),
        s@ == front + seq!['\n'] + rest,
        t@ == front + seq![' '] + rest,
    ensures
        r@ == q@,
{
    reveal_strlit(" ");
    let space = " "@;
    assert(space =~= seq![' ']);
    lemma_replaced_one('\n', space);
    text_laws::lemma_replaced_none(space, '\n', space);
    text_laws::lemma_replaced_apart(front + seq!['\n'], rest, '\n', space);
    text_laws::lemma_replaced_apart(front, seq!['\n'], '\n', space);
    text_laws::lemma_replaced_apart(front + seq![' '], rest, '\n', space);
    text_laws::lemma_replaced_apart(front, seq![' '], '\n', space);
}

} // verus!
