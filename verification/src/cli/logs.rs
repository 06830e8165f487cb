//! The gateway's log: which file it is, and which part of it to print.
use crate::path;
use crate::text;
use vstd::prelude::*;

verus! {

/// Whether a file name is that of a daily log, `gateway.YYYY-MM-DD.log`: ten digits and
/// dashes between the fixed parts.
pub open spec fn is_daily(name: Seq<char>) -> bool {
    match text::after_prefix(name, "gateway."@) {
        Some(rest) => match text::before_suffix(rest, ".log"@) {
            Some(date) => is_date(date),
            None => false,
        },
        None => false,
    }
}

/// Whether a text is ten digits and dashes.
pub open spec fn is_date(date: Seq<char>) -> bool {
    &&& date.len() == 10
    &&& forall|i: int| 0 <= i < date.len() ==> '0' <= #[trigger] date[i] <= '9' || date[i] == '-'
}

/// Whether a text is ten digits and dashes.
fn date_like(date: &str) -> (r: bool)
    ensures
        r == is_date(date@),
{
    let v = text::chars_of(date);
    if v.len() != 10 {
        return false;
    }
    let mut i: usize = 0;
    while i < v.len()
        invariant
            i <= v.len() == 10,
            v@ == date@,
            forall|k: int| 0 <= k < i ==> '0' <= #[trigger] v@[k] <= '9' || v@[k] == '-',
        decreases v.len() - i,
    {
        let c = v[i];
        if !(('0' <= c && c <= '9') || c == '-') {
            assert(date@[i as int] == c);
            return false;
        }
        i = i + 1;
    }
    true
}

/// Whether a file name is that of a daily log.
pub fn is_daily_log_name(name: &str) -> (r: bool)
    ensures
        r == is_daily(name@),
{
    match text::strip_prefix(name, "gateway.") {
        Some(rest) => match text::strip_suffix(rest, ".log") {
            Some(date) => date_like(date),
            None => false,
        },
        None => false,
    }
}

/// The newest daily log among file names: date-stamped names sort as their days do.
pub fn latest_daily_log(names: &Vec<String>) -> (r: Option<String>)
    ensures
        match r {
            Some(n) => {
                &&& text::views(names@).contains(n@)
                &&& is_daily(n@)
                &&& forall|i: int|
                    0 <= i < names@.len() && is_daily((#[trigger] names@[i])@) ==> !text::before(
                        n@,
                        names@[i]@,
                    )
            },
            None => forall|i: int| 0 <= i < names@.len() ==> !is_daily((#[trigger] names@[i])@),
        },
{
    let mut best: Option<usize> = None;
    let mut i: usize = 0;
    while i < names.len()
        invariant
            i <= names.len(),
            match best {
                Some(b) => {
                    &&& b < i
                    &&& is_daily(names@[b as int]@)
                    &&& forall|k: int|
                        0 <= k < i && is_daily((#[trigger] names@[k])@) ==> !text::before(
                            names@[b as int]@,
                            names@[k]@,
                        )
                },
                None => forall|k: int| 0 <= k < i ==> !is_daily((#[trigger] names@[k])@),
            },
        decreases names.len() - i,
    {
        if is_daily_log_name(&names[i]) {
            let better = match best {
                Some(b) => text::precedes(&names[b], &names[i]),
                None => true,
            };
            if better {
                proof {
                    let new = names@[i as int]@;
                    text::dictionary_order_is_total(new, new);
                    if let Some(b) = best {
                        let old_best = names@[b as int]@;
                        assert forall|k: int|
                            0 <= k < i && is_daily((#[trigger] names@[k])@) implies !text::before(
                            new,
                            names@[k]@,
                        ) by {
                            if text::before(new, names@[k]@) {
                                text::dictionary_order_is_transitive(old_best, new, names@[k]@);
                            }
                        }
                    }
                }
                best = Some(i);
            }
        }
        i = i + 1;
    }
    match best {
        Some(b) => {
            assert(text::views(names@)[b as int] == names@[b as int]@);
            Some(names[b].clone())
        },
        None => None,
    }
}

/// The log to print: the captured output where that is asked for, else the newest daily
/// log, else the capture of the error output.
pub fn log_path(home: &str, names: &Vec<String>, stdout: bool) -> (r: String)
    ensures
        exists|file: Seq<char>| #[trigger]
            path::joined(path::joined(home@, "logs"@), file) == r@ && is_log_choice(
                names@,
                stdout,
                file,
            ),
{
    let dir = path::join(home, "logs");
    if stdout {
        let r = path::join(&dir, "gateway.log");
        assert(is_log_choice(names@, stdout, "gateway.log"@));
        r
    } else {
        match latest_daily_log(names) {
            Some(n) => {
                let r = path::join(&dir, &n);
                assert(is_log_choice(names@, stdout, n@));
                r
            },
            None => {
                let r = path::join(&dir, "gateway.err.log");
                assert(is_log_choice(names@, stdout, "gateway.err.log"@));
                r
            },
        }
    }
}

/// Whether `file` is the log to print among file names.
pub open spec fn is_log_choice(names: Seq<String>, stdout: bool, file: Seq<char>) -> bool {
    if stdout {
        file == "gateway.log"@
    } else if forall|i: int| 0 <= i < names.len() ==> !is_daily((#[trigger] names[i])@) {
        file == "gateway.err.log"@
    } else {
        &&& text::views(names).contains(file)
        &&& is_daily(file)
        &&& forall|i: int|
            0 <= i < names.len() && is_daily((#[trigger] names[i])@) ==> !text::before(
                file,
                names[i]@,
            )
    }
}

/// What is said where there is no log.
pub fn no_log(path: &str) -> (r: String)
    ensures
        r@ == "no log file at "@ + path@
            + " — has the gateway run yet? (check `shion gateway status`)"@,
{
    let mut out = "no log file at ".to_owned();
    out.push_str(path);
    out.push_str(" — has the gateway run yet? (check `shion gateway status`)");
    out
}

/// The last `n` of some lines.
pub open spec fn last_lines(lines: Seq<Seq<char>>, n: nat) -> Seq<Seq<char>> {
    if lines.len() <= n {
        lines
    } else {
        lines.skip(lines.len() - n)
    }
}

/// The last lines of a log, at most `limit`, held while the log is read.
pub struct Tail {
    limit: usize,
    held: Vec<String>,
    read: Ghost<Seq<Seq<char>>>,
}

impl Tail {
    /// The lines read so far.
    pub closed spec fn seen(self) -> Seq<Seq<char>> {
        self.read@
    }

    /// How many lines are held at most.
    pub closed spec fn cap(self) -> nat {
        self.limit as nat
    }

    #[verifier::type_invariant]
    spec fn well_formed(self) -> bool {
        text::views(self.held@) == last_lines(self.read@, self.limit as nat)
    }

    pub fn new(limit: usize) -> (r: Self)
        ensures
            r.seen() == Seq::<Seq<char>>::empty(),
            r.cap() == limit,
    {
        let held: Vec<String> = Vec::new();
        assert(text::views(held@) =~= last_lines(Seq::empty(), limit as nat));
        Tail { limit, held, read: Ghost(Seq::empty()) }
    }

    /// Takes in the next line.
    pub fn push(self, line: String) -> (r: Self)
        ensures
            r.seen() == self.seen().push(line@),
            r.cap() == self.cap(),
    {
        proof {
            use_type_invariant(&self);
        }
        let ghost read = self.read@;
        let ghost limit = self.limit as nat;
        let mut held = self.held;
        assert(held@.len() == text::views(held@).len());
        if self.limit > 0 {
            if held.len() == self.limit {
                let ghost before = held@;
                let _ = held.remove(0);
                assert(held@ =~= before.skip(1));
                assert(text::views(held@) =~= text::views(before).skip(1));
            }
            text::append_line(&mut held, line);
        }
        assert(text::views(held@) =~= last_lines(read.push(line@), limit));
        Tail { limit: self.limit, held, read: Ghost(read.push(line@)) }
    }

    /// The last lines read.
    pub fn into_lines(self) -> (r: Vec<String>)
        ensures
            text::views(r@) == last_lines(self.seen(), self.cap()),
    {
        proof {
            use_type_invariant(&self);
        }
        self.held
    }
}

/// Where to go on reading a log, and whether there is anything to read: from `pos`, or
/// from the top of a log that was cut or rotated.
pub fn follow(pos: u64, len: u64) -> (r: (u64, bool))
    ensures
        r.0 == if len < pos {
            0
        } else {
            pos
        },
        r.1 == (len > r.0),
{
    let from: u64 = if len < pos {
        0
    } else {
        pos
    };
    (from, len > from)
}

} // verus!
