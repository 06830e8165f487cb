//! What arguments of the command line stand for.
use crate::agent::schedule;
use crate::number;
use crate::text;
use vstd::prelude::*;

verus! {

/// What `chrono::NaiveDate::parse_from_str` says against a text in the form
/// `YYYY-MM-DD`; none for a date.
pub uninterp spec fn date_fault(s: Seq<char>) -> Option<Seq<char>>;

/// How the date that a text names reads.
pub uninterp spec fn date_text(s: Seq<char>) -> Seq<char>;

/// The day of the week of the date that a text names, in English.
pub uninterp spec fn date_weekday(s: Seq<char>) -> Seq<char>;

/// The Unix second of midnight UTC of the date that a text names.
pub uninterp spec fn date_midnight(s: Seq<char>) -> int;

/// `chrono::NaiveDate::parse_from_str` with `%Y-%m-%d`, the date dropped: whether the
/// text is a date, a function of the text.
#[verifier::external_body]
fn check_date(s: &str) -> (r: Result<(), String>)
    ensures
        r is Ok <==> date_fault(s@) is None,
        r is Err ==> date_fault(s@) == Some(r->Err_0@),
{
    chrono::NaiveDate::parse_from_str(s, "%Y-%m-%d").map(|_| ()).map_err(|e| e.to_string())
}

/// The date that a text names as `chrono::NaiveDate` displays it, a function of the text.
#[verifier::external_body]
fn show_date(s: &str) -> (r: String)
    requires
        date_fault(s@) is None,
    ensures
        r@ == date_text(s@),
{
    chrono::NaiveDate::parse_from_str(s, "%Y-%m-%d").unwrap().to_string()
}

/// The day of the week of the date that a text names, from `chrono::NaiveDate::format`
/// with `%A`, a function of the text.
#[verifier::external_body]
fn show_weekday(s: &str) -> (r: String)
    requires
        date_fault(s@) is None,
    ensures
        r@ == date_weekday(s@),
{
    chrono::NaiveDate::parse_from_str(s, "%Y-%m-%d").unwrap().format("%A").to_string()
}

/// The Unix second of midnight UTC of the date that a text names, from
/// `chrono::NaiveDateTime::and_utc`, a function of the text; it lies on the calendar.
#[verifier::external_body]
fn utc_midnight(s: &str) -> (r: i64)
    requires
        date_fault(s@) is None,
    ensures
        r == date_midnight(s@),
        schedule::is_instant(r as int),
{
    let date = chrono::NaiveDate::parse_from_str(s, "%Y-%m-%d").unwrap();
    date.and_time(chrono::NaiveTime::MIN).and_utc().timestamp()
}

/// How many seconds the machine's own wall clock is ahead of UTC at midnight of a date,
/// from `chrono::TimeZone::from_local_datetime`: less than a day either way; none where
/// that midnight comes twice or not at all. Which it is depends on the machine's time
/// zone; where that clock stays a fixed number of seconds ahead of UTC, it is that number.
#[verifier::external_body]
fn midnight_offset(s: &str) -> (r: Option<i32>)
    requires
        date_fault(s@) is None,
    ensures
        r matches Some(o) ==> schedule::is_offset(o as int),
        r matches Some(o) ==> forall|fixed: int| #[trigger]
            schedule::is_fixed_clock(fixed) ==> o == fixed,
{
    let date = chrono::NaiveDate::parse_from_str(s, "%Y-%m-%d").unwrap();
    let midnight = date.and_time(chrono::NaiveTime::MIN);
    let here = chrono::TimeZone::from_local_datetime(&chrono::Local, &midnight).single();
    here.map(|t| t.offset().local_minus_utc())
}

/// Whether midnight of a date can be `offset` seconds ahead of UTC on the machine's own
/// wall clock, or none where it is not one moment: whether [`midnight_offset`] can say so.
pub closed spec fn midnight_says(date: Seq<char>, offset: Option<int>) -> bool {
    exists|d: &str, o: Option<i32>|
        {
            &&& d@ == date
            &&& offset == match o {
                Some(x) => Some(x as int),
                None => None,
            }
            &&& #[trigger] call_ensures(midnight_offset, (d,), o)
        }
}

fn ask_midnight<F: Fn(&str) -> Option<i32>>(f: F, date: &str) -> (r: Option<i32>)
    requires
        call_requires(f, (date,)),
    ensures
        call_ensures(f, (date,), r),
{
    f(date)
}

/// How many seconds the machine's own wall clock is ahead of UTC at midnight of a date.
fn machine_midnight(date: &str) -> (r: Option<i32>)
    requires
        date_fault(date@) is None,
    ensures
        r matches Some(o) ==> schedule::is_offset(o as int),
        r matches Some(o) ==> forall|fixed: int| #[trigger]
            schedule::is_fixed_clock(fixed) ==> o == fixed,
        midnight_says(
            date@,
            match r {
                Some(o) => Some(o as int),
                None => None,
            },
        ),
{
    ask_midnight(midnight_offset, date)
}

/// What is said of a text that is not a date.
pub open spec fn bad_date(s: Seq<char>, fault: Seq<char>) -> Seq<char> {
    "invalid date `"@ + s + "` (expected YYYY-MM-DD): "@ + fault
}

fn require_date(s: &str) -> (r: Result<(), String>)
    ensures
        match date_fault(text::trimmed(s@)) {
            None => r is Ok,
            Some(fault) => r is Err && r->Err_0@ == bad_date(s@, fault),
        },
{
    match check_date(text::trim(s)) {
        Ok(_) => Ok(()),
        Err(e) => {
            let mut out = text::between("invalid date `", s, "` (expected YYYY-MM-DD): ");
            out.push_str(&e);
            Err(out)
        },
    }
}

/// The cutoff that a midnight gives on a clock `offset` seconds ahead of UTC, where
/// `midnight` is the one on UTC; none where the midnight is not one moment.
pub fn cutoff_of(s: &str, midnight: i64, offset: Option<i32>) -> (r: Result<i64, String>)
    requires
        schedule::is_instant(midnight as int),
    ensures
        match offset {
            Some(o) => r matches Ok(t) && t == midnight - o,
            None => r is Err && r->Err_0@ == "ambiguous local time for `"@ + s@ + "`"@,
        },
{
    match offset {
        Some(o) => Ok(midnight - o as i64),
        None => Err(text::between("ambiguous local time for `", s, "`")),
    }
}

/// The Unix second of midnight of a date `YYYY-MM-DD` on the machine's own wall clock.
pub fn parse_local_date(s: &str) -> (r: Result<i64, String>)
    ensures
        match date_fault(text::trimmed(s@)) {
            Some(fault) => r is Err && r->Err_0@ == bad_date(s@, fault),
            None => match r {
                Ok(t) => {
                    let offset = date_midnight(text::trimmed(s@)) - t;
                    &&& schedule::is_offset(offset)
                    &&& midnight_says(text::trimmed(s@), Some(offset))
                    &&& forall|fixed: int| #[trigger]
                        schedule::is_fixed_clock(fixed) ==> offset == fixed
                },
                Err(e) => e@ == "ambiguous local time for `"@ + s@ + "`"@ && midnight_says(
                    text::trimmed(s@),
                    None,
                ),
            },
        },
{
    match require_date(s) {
        Ok(_) => {
            let date = text::trim(s);
            cutoff_of(s, utc_midnight(date), machine_midnight(date))
        },
        Err(e) => Err(e),
    }
}

/// How the runs to prune are chosen.
#[derive(Debug)]
pub enum PruneBy {
    /// Those started before a date.
    Before(String),
    /// All but this many of the most recent.
    Keep(usize),
}

/// How the runs to prune are chosen: exactly one way must be given.
pub fn prune_by(before: Option<String>, keep: Option<usize>) -> (r: Result<PruneBy, String>)
    ensures
        match (before, keep) {
            (Some(date), None) => r matches Ok(PruneBy::Before(d)) && d@ == date@,
            (None, Some(n)) => r matches Ok(PruneBy::Keep(k)) && k == n,
            _ => r is Err && r->Err_0@
                == "pass exactly one of --before <YYYY-MM-DD> or --keep <N>"@,
        },
{
    match (before, keep) {
        (Some(date), None) => Ok(PruneBy::Before(date)),
        (None, Some(n)) => Ok(PruneBy::Keep(n)),
        _ => Err("pass exactly one of --before <YYYY-MM-DD> or --keep <N>".to_owned()),
    }
}

/// What is said where there are not enough runs to drop any.
pub fn nothing_to_prune(keep: usize) -> (r: String)
    requires
        keep < usize::MAX,
    ensures
        r@ == "Fewer than "@ + number::decimal((keep + 1) as nat) + " runs; nothing to prune."@,
{
    text::between("Fewer than ", &number::write_size(keep + 1), " runs; nothing to prune.")
}

/// The day to ask the calendar about, as it reads and with its weekday.
#[derive(Debug)]
pub struct Day {
    pub date: String,
    pub weekday: String,
}

/// The day that an argument names.
pub fn parse_day(s: &str) -> (r: Result<Day, String>)
    ensures
        match date_fault(text::trimmed(s@)) {
            Some(fault) => r is Err && r->Err_0@ == bad_date(s@, fault),
            None => {
                &&& r is Ok
                &&& r->Ok_0.date@ == date_text(text::trimmed(s@))
                &&& r->Ok_0.weekday@ == date_weekday(text::trimmed(s@))
            },
        },
{
    match require_date(s) {
        Ok(_) => {
            let day = text::trim(s);
            Ok(Day { date: show_date(day), weekday: show_weekday(day) })
        },
        Err(e) => Err(e),
    }
}

/// Whether a day is a working day, in words.
pub fn workday_line(day: &Day, workday: bool) -> (r: String)
    ensures
        r@ == day.date@ + " ("@ + day.weekday@ + "): "@ + if workday {
            "workday — 上班"@
        } else {
            "off — 休息"@
        },
{
    let mut out = day.date.clone();
    out.push_str(" (");
    out.push_str(&day.weekday);
    out.push_str("): ");
    if workday {
        out.push_str("workday — 上班");
    } else {
        out.push_str("off — 休息");
    }
    out
}

/// What is said of a resumed run.
pub fn resumed(run: &str, session: &str, steps: usize) -> (r: String)
    ensures
        r@ == "Resumed "@ + run@ + " (session "@ + session@ + ", "@ + number::decimal(
            steps as nat,
        ) + " completed step(s) handed to the model).\n"@,
{
    let mut out = text::between("Resumed ", run, " (session ");
    out.push_str(session);
    out.push_str(", ");
    out.push_str(&number::write_size(steps));
    out.push_str(" completed step(s) handed to the model).\n");
    out
}

} // verus!
