//! Cron schedules: when a unit of work fires next.
use crate::number;
use vstd::prelude::*;

verus! {

/// What `croner::Cron::from_str` says against an expression; none for a good one.
pub uninterp spec fn cron_fault(expr: Seq<char>) -> Option<Seq<char>>;

/// The first whole second after `after` that matches `expr` on a wall clock, or what
/// `croner::Cron::find_next_occurrence` says against the search. A clock is a number: one
/// that stays a fixed number of seconds ahead of UTC goes by that number, and one whose
/// offset changes by some number that is no such offset.
pub uninterp spec fn cron_next(expr: Seq<char>, after: int, clock: int) -> Result<int, Seq<char>>;

/// A Unix second as `%Y-%m-%d %H:%M`, `offset` seconds ahead of UTC, as
/// `chrono::DateTime::format` writes it.
pub uninterp spec fn minute_text(unix: int, offset: int) -> Seq<char>;

/// A Unix second in the RFC 3339 form, `offset` seconds ahead of UTC, as
/// `chrono::DateTime::to_rfc3339` writes it.
pub uninterp spec fn stamp_text(unix: int, offset: int) -> Seq<char>;

/// The day of a Unix second as `%A, %B %-d, %Y`, `offset` seconds ahead of UTC, as
/// `chrono::DateTime::format` writes it.
pub uninterp spec fn day_text(unix: int, offset: int) -> Seq<char>;

/// Earliest Unix second on chrono's calendar: -262143-01-01 00:00:00 UTC.
pub const FIRST_INSTANT: i64 = -8_334_601_228_800;

/// Last Unix second on chrono's calendar: +262142-12-31 23:59:59 UTC.
pub const LAST_INSTANT: i64 = 8_210_266_876_799;

/// Whether a Unix second lies on the calendar.
pub open spec fn is_instant(unix: int) -> bool {
    FIRST_INSTANT <= unix <= LAST_INSTANT
}

/// Whether a Unix second lies on the calendar on every wall clock: chrono panics on
/// a local time that an offset carries off either end.
pub open spec fn is_civil(unix: int) -> bool {
    FIRST_INSTANT + 86_400 <= unix <= LAST_INSTANT - 86_400
}

/// Whether a search from `unix` is refused or safe; only the outermost days of the
/// calendar are neither.
pub open spec fn is_searchable(unix: int) -> bool {
    is_civil(unix) || !is_instant(unix)
}

/// Whether a wall clock can be `offset` seconds ahead of UTC.
pub open spec fn is_offset(offset: int) -> bool {
    -86_400 < offset < 86_400
}

/// Parses an expression with `croner::Cron::from_str` and drops the pattern. The
/// outcome is a function of the expression alone and goes by the name `cron_fault`. A
/// pattern of five fields has the second zero put before it; `0 * * * *`, on the hour, and
/// `* * * * *`, every minute, are two that parse.
#[verifier::external_body]
pub(crate) fn cron_check(expr: &str) -> (r: Result<(), String>)
    ensures
        r is Ok <==> cron_fault(expr@) is None,
        r is Err ==> cron_fault(expr@) == Some(r->Err_0@),
        expr@ == "0 * * * *"@ ==> r is Ok,
        expr@ == "* * * * *"@ ==> r is Ok,
{
    expr.parse::<croner::Cron>().map(|_| ()).map_err(|e| e.to_string())
}

/// `r` as a mathematical value.
pub open spec fn next_view(r: Result<i64, String>) -> Result<int, Seq<char>> {
    match r {
        Ok(t) => Ok(t as int),
        Err(e) => Err(e@),
    }
}

/// `croner::Cron::find_next_occurrence`, exclusive, on a fixed offset from UTC. The
/// outcome goes by the name `cron_next`; an occurrence comes after the start.
#[verifier::external_body]
pub(crate) fn cron_next_fixed(expr: &str, after: i64, offset: i32) -> (r: Result<i64, String>)
    requires
        is_civil(after as int),
        is_offset(offset as int),
        cron_fault(expr@) is None,
    ensures
        next_view(r) == cron_next(expr@, after as int, offset as int),
        r is Ok ==> r->Ok_0 > after,
{
    let zone = chrono::FixedOffset::east_opt(offset).unwrap();
    let start = chrono::DateTime::from_timestamp(after, 0).unwrap().with_timezone(&zone);
    let cron = expr.parse::<croner::Cron>().unwrap();
    cron.find_next_occurrence(&start, false).map(|t| t.timestamp()).map_err(|e| e.to_string())
}

/// Whether the machine's own wall clock can be `offset` seconds ahead of UTC at a Unix
/// second: whether [`local_offset`] can say so.
pub closed spec fn clock_says(unix: int, offset: int) -> bool {
    exists|u: i64, o: i32|
        u == unix && o == offset && #[trigger] call_ensures(local_offset, (u,), o)
}

/// Whether the machine's own wall clock stays `offset` seconds ahead of UTC.
pub open spec fn is_fixed_clock(offset: int) -> bool {
    &&& is_offset(offset)
    &&& forall|u: int, o: int| is_instant(u) ==> (#[trigger] clock_says(u, o) <==> o == offset)
}

/// `croner::Cron::find_next_occurrence`, exclusive, on the machine's own wall clock. The
/// outcome goes by the name `cron_next` on some clock: which one that is depends on the
/// machine's time zone. Where that clock stays a fixed number of seconds ahead of UTC, it is
/// the clock of that number. An occurrence comes after the start.
#[verifier::external_body]
pub(crate) fn cron_next_local(expr: &str, after: i64) -> (r: Result<i64, String>)
    requires
        is_civil(after as int),
        cron_fault(expr@) is None,
    ensures
        exists|clock: int| next_view(r) == #[trigger] cron_next(expr@, after as int, clock),
        forall|offset: int| #[trigger]
            is_fixed_clock(offset) ==> next_view(r) == cron_next(expr@, after as int, offset),
        r is Ok ==> r->Ok_0 > after,
{
    let start = chrono::DateTime::from_timestamp(after, 0).unwrap().with_timezone(&chrono::Local);
    let cron = expr.parse::<croner::Cron>().unwrap();
    cron.find_next_occurrence(&start, false).map(|t| t.timestamp()).map_err(|e| e.to_string())
}

/// A Unix second as `%Y-%m-%d %H:%M` on a fixed offset from UTC, from
/// `chrono::DateTime::format`: a function of the two, by the name `minute_text`.
#[verifier::external_body]
fn write_minute(unix: i64, offset: i32) -> (r: String)
    requires
        is_instant(unix as int),
        is_offset(offset as int),
    ensures
        r@ == minute_text(unix as int, offset as int),
{
    let zone = chrono::FixedOffset::east_opt(offset).unwrap();
    let time = chrono::DateTime::from_timestamp(unix, 0).unwrap().with_timezone(&zone);
    time.format("%Y-%m-%d %H:%M").to_string()
}

/// A Unix second in the RFC 3339 form on a fixed offset from UTC, from
/// `chrono::DateTime::to_rfc3339`: a function of the two, by the name `stamp_text`.
#[verifier::external_body]
fn write_stamp(unix: i64, offset: i32) -> (r: String)
    requires
        is_instant(unix as int),
        is_offset(offset as int),
    ensures
        r@ == stamp_text(unix as int, offset as int),
{
    let zone = chrono::FixedOffset::east_opt(offset).unwrap();
    let time = chrono::DateTime::from_timestamp(unix, 0).unwrap().with_timezone(&zone);
    time.to_rfc3339()
}

/// The day of a Unix second as `%A, %B %-d, %Y` on a fixed offset from UTC, from
/// `chrono::DateTime::format`: a function of the two, by the name `day_text`.
#[verifier::external_body]
fn write_day(unix: i64, offset: i32) -> (r: String)
    requires
        is_instant(unix as int),
        is_offset(offset as int),
    ensures
        r@ == day_text(unix as int, offset as int),
{
    let zone = chrono::FixedOffset::east_opt(offset).unwrap();
    let time = chrono::DateTime::from_timestamp(unix, 0).unwrap().with_timezone(&zone);
    time.format("%A, %B %-d, %Y").to_string()
}

/// How many seconds the machine's own wall clock is ahead of UTC at a Unix second, from
/// `chrono::TimeZone::offset_from_utc_datetime`: less than a day either way. Which offset
/// that is depends on the machine's time zone, and nothing more is claimed of it.
#[verifier::external_body]
fn local_offset(unix: i64) -> (r: i32)
    requires
        is_instant(unix as int),
    ensures
        is_offset(r as int),
{
    let time = chrono::DateTime::from_timestamp(unix, 0).unwrap().naive_utc();
    chrono::TimeZone::offset_from_utc_datetime(&chrono::Local, &time).local_minus_utc()
}

/// Whether a search on the machine's own wall clock can give `r`: whether
/// [`cron_next_local`] can.
pub closed spec fn clock_finds(expr: Seq<char>, after: int, r: Result<i64, String>) -> bool {
    exists|e: &str, a: i64|
        e@ == expr && a == after && #[trigger] call_ensures(cron_next_local, (e, a), r)
}

fn ask_offset<F: Fn(i64) -> i32>(f: F, unix: i64) -> (r: i32)
    requires
        call_requires(f, (unix,)),
    ensures
        call_ensures(f, (unix,), r),
{
    f(unix)
}

/// How many seconds the machine's own wall clock is ahead of UTC at a Unix second.
fn machine_offset(unix: i64) -> (r: i32)
    requires
        is_instant(unix as int),
    ensures
        is_offset(r as int),
        clock_says(unix as int, r as int),
{
    ask_offset(local_offset, unix)
}

fn ask_search<F: Fn(&str, i64) -> Result<i64, String>>(f: F, expr: &str, after: i64) -> (r: Result<
    i64,
    String,
>)
    requires
        call_requires(f, (expr, after)),
    ensures
        call_ensures(f, (expr, after), r),
{
    f(expr, after)
}

/// The first second after `after` that matches `expr` on the machine's own wall clock.
fn machine_search(expr: &str, after: i64) -> (r: Result<i64, String>)
    requires
        is_civil(after as int),
        cron_fault(expr@) is None,
    ensures
        exists|clock: int| next_view(r) == #[trigger] cron_next(expr@, after as int, clock),
        forall|offset: int| #[trigger]
            is_fixed_clock(offset) ==> next_view(r) == cron_next(expr@, after as int, offset),
        r is Ok ==> r->Ok_0 > after,
        clock_finds(expr@, after as int, r),
{
    ask_search(cron_next_local, expr, after)
}

/// What is said of an expression that does not parse.
pub open spec fn bad_cron(expr: Seq<char>, fault: Seq<char>) -> Seq<char> {
    "invalid cron expression `"@ + expr + "`: "@ + fault
}

/// What is said of a time that is off the calendar.
pub open spec fn bad_instant(unix: int) -> Seq<char> {
    "invalid unix timestamp: "@ + number::signed(unix)
}

/// Refuses an expression that does not parse.
pub fn require_cron(expr: &str) -> (r: Result<(), String>)
    ensures
        expr@ == "0 * * * *"@ || expr@ == "* * * * *"@ ==> r is Ok,
        match r {
            Ok(_) => cron_fault(expr@) is None,
            Err(e) => cron_fault(expr@) is Some && e@ == bad_cron(
                expr@,
                cron_fault(expr@)->Some_0,
            ),
        },
{
    match cron_check(expr) {
        Ok(_) => Ok(()),
        Err(e) => {
            let mut out = "invalid cron expression `".to_owned();
            out.push_str(expr);
            out.push_str("`: ");
            out.push_str(&e);
            Err(out)
        },
    }
}

/// A cron expression that parses.
pub struct Schedule {
    expr: String,
}

/// A stretch of time.
#[derive(Debug, Clone, Copy, PartialEq, Eq, Structural)]
pub struct Wait {
    pub secs: u64,
    pub nanos: u32,
}

impl Wait {
    /// The stretch in nanoseconds.
    pub open spec fn total(self) -> int {
        self.secs * 1_000_000_000 + self.nanos
    }
}

impl Schedule {
    /// The expression.
    pub closed spec fn pattern(self) -> Seq<char> {
        self.expr@
    }

    #[verifier::type_invariant]
    spec fn well_formed(self) -> bool {
        cron_fault(self.expr@) is None
    }

    /// Parses a five-field Unix cron expression (`0 * * * *` is hourly).
    pub fn parse(expr: &str) -> (r: Result<Self, String>)
        ensures
            expr@ == "0 * * * *"@ || expr@ == "* * * * *"@ ==> r is Ok,
            match r {
                Ok(s) => s.pattern() == expr@ && cron_fault(expr@) is None,
                Err(e) => cron_fault(expr@) is Some && e@ == bad_cron(
                    expr@,
                    cron_fault(expr@)->Some_0,
                ),
            },
    {
        match require_cron(expr) {
            Ok(_) => Ok(Schedule { expr: expr.to_owned() }),
            Err(e) => Err(e),
        }
    }

    /// The time from `now` (and `nanos` nanoseconds) to the next fire, which comes
    /// strictly after it.
    pub fn next_after(&self, now: i64, nanos: u32) -> (r: Result<Wait, String>)
        requires
            is_civil(now as int),
            nanos < 1_000_000_000,
        ensures
            match r {
                Ok(wait) => {
                    &&& cron_next(self.pattern(), now as int, 0) matches Ok(next)
                    &&& wait.nanos < 1_000_000_000
                    &&& wait.total() == (next - now) * 1_000_000_000 - nanos
                    &&& wait.total() > 0
                },
                Err(e) => cron_next(self.pattern(), now as int, 0) == Err::<int, Seq<char>>(e@),
            },
    {
        proof {
            use_type_invariant(self);
        }
        match cron_next_fixed(&self.expr, now, 0) {
            Ok(next) => {
                let gap: u64 = (next as i128 - now as i128) as u64;
                if nanos == 0 {
                    Ok(Wait { secs: gap, nanos: 0 })
                } else {
                    Ok(Wait { secs: gap - 1, nanos: 1_000_000_000 - nanos })
                }
            },
            Err(e) => Err(e),
        }
    }
}

/// The first second after `after` that matches `expr` on a wall clock `offset`
/// seconds ahead of UTC.
pub fn next_occurrence_in(expr: &str, after: i64, offset: i32) -> (r: Result<i64, String>)
    requires
        is_civil(after as int),
        is_offset(offset as int),
    ensures
        match r {
            Ok(t) => {
                &&& cron_fault(expr@) is None
                &&& cron_next(expr@, after as int, offset as int) == Ok::<int, Seq<char>>(t as int)
                &&& t > after
            },
            Err(e) => if cron_fault(expr@) is Some {
                e@ == bad_cron(expr@, cron_fault(expr@)->Some_0)
            } else {
                cron_next(expr@, after as int, offset as int) == Err::<int, Seq<char>>(e@)
            },
        },
{
    match require_cron(expr) {
        Ok(_) => cron_next_fixed(expr, after, offset),
        Err(e) => Err(e),
    }
}

/// Whether `r` is the outcome of a search on the machine's own wall clock.
pub open spec fn is_local_search(expr: Seq<char>, after: int, r: Result<i64, String>) -> bool {
    if !is_instant(after) {
        r is Err && r->Err_0@ == bad_instant(after)
    } else if cron_fault(expr) is Some {
        r is Err && r->Err_0@ == bad_cron(expr, cron_fault(expr)->Some_0)
    } else {
        &&& exists|clock: int| next_view(r) == #[trigger] cron_next(expr, after, clock)
        &&& forall|offset: int| #[trigger]
            is_fixed_clock(offset) ==> next_view(r) == cron_next(expr, after, offset)
        &&& clock_finds(expr, after, r)
        &&& r is Ok ==> r->Ok_0 > after
    }
}

/// The first second after `after` that matches `expr` on the machine's own wall
/// clock. Counted from the given time, so whoever was away resumes at a future slot.
pub fn next_occurrence_local(expr: &str, after: i64) -> (r: Result<i64, String>)
    requires
        is_searchable(after as int),
    ensures
        is_local_search(expr@, after as int, r),
{
    if after < FIRST_INSTANT || after > LAST_INSTANT {
        let mut out = "invalid unix timestamp: ".to_owned();
        out.push_str(&number::write_signed(after));
        return Err(out);
    }
    match require_cron(expr) {
        Ok(_) => machine_search(expr, after),
        Err(e) => Err(e),
    }
}

/// A Unix second at minute precision on a clock `offset` seconds ahead of UTC, where it
/// lies on the calendar, else the bare number.
pub fn time_at(unix: i64, offset: i32) -> (r: String)
    requires
        is_offset(offset as int),
    ensures
        r@ == if is_instant(unix as int) {
            minute_text(unix as int, offset as int)
        } else {
            number::signed(unix as int)
        },
{
    if unix < FIRST_INSTANT || unix > LAST_INSTANT {
        number::write_signed(unix)
    } else {
        write_minute(unix, offset)
    }
}

/// A Unix second in the RFC 3339 form on a clock `offset` seconds ahead of UTC, where it
/// lies on the calendar, else the bare number.
pub fn stamp_at(unix: i64, offset: i32) -> (r: String)
    requires
        is_offset(offset as int),
    ensures
        r@ == if is_instant(unix as int) {
            stamp_text(unix as int, offset as int)
        } else {
            number::signed(unix as int)
        },
{
    if unix < FIRST_INSTANT || unix > LAST_INSTANT {
        number::write_signed(unix)
    } else {
        write_stamp(unix, offset)
    }
}

/// Whether `s` is a Unix second at minute precision on the machine's own wall clock, or the
/// bare number of one off the calendar.
pub open spec fn is_local_time(unix: i64, s: Seq<char>) -> bool {
    if is_instant(unix as int) {
        exists|offset: int|
            clock_says(unix as int, offset) && is_offset(offset) && s == #[trigger] minute_text(
                unix as int,
                offset,
            )
    } else {
        s == number::signed(unix as int)
    }
}

/// Whether `s` is a Unix second in the RFC 3339 form on the machine's own wall clock, or
/// the bare number of one off the calendar.
pub open spec fn is_local_stamp(unix: i64, s: Seq<char>) -> bool {
    if is_instant(unix as int) {
        exists|offset: int|
            clock_says(unix as int, offset) && is_offset(offset) && s == #[trigger] stamp_text(
                unix as int,
                offset,
            )
    } else {
        s == number::signed(unix as int)
    }
}

/// A Unix second at minute precision on the machine's own wall clock.
pub fn local_time(unix: i64) -> (r: String)
    ensures
        is_local_time(unix, r@),
{
    if unix < FIRST_INSTANT || unix > LAST_INSTANT {
        time_at(unix, 0)
    } else {
        time_at(unix, machine_offset(unix))
    }
}

/// A Unix second in the RFC 3339 form on the machine's own wall clock.
pub fn local_stamp(unix: i64) -> (r: String)
    ensures
        is_local_stamp(unix, r@),
{
    if unix < FIRST_INSTANT || unix > LAST_INSTANT {
        stamp_at(unix, 0)
    } else {
        stamp_at(unix, machine_offset(unix))
    }
}

/// The day of a Unix second on a clock `offset` seconds ahead of UTC.
pub fn day_at(unix: i64, offset: i32) -> (r: String)
    requires
        is_instant(unix as int),
        is_offset(offset as int),
    ensures
        r@ == day_text(unix as int, offset as int),
{
    write_day(unix, offset)
}

/// Whether `s` is the day of a Unix second on the machine's own wall clock.
pub open spec fn is_local_day(unix: int, s: Seq<char>) -> bool {
    exists|offset: int|
        clock_says(unix, offset) && is_offset(offset) && s == #[trigger] day_text(unix, offset)
}

/// The day of a Unix second on the machine's own wall clock.
pub fn local_day(unix: i64) -> (r: String)
    requires
        is_instant(unix as int),
    ensures
        is_local_day(unix as int, r@),
{
    day_at(unix, machine_offset(unix))
}

// ---------------------------------------------------------------------------
// Laws
// ---------------------------------------------------------------------------

/// A local search goes by the machine's own wall clock, whatever its zone: on an
/// expression that parses it gives what a search on that clock gives.
pub proof fn local_searches_go_by_the_machine(expr: &str, after: i64, r: Result<i64, String>)
    requires
        call_ensures(next_occurrence_local, (expr, after), r),
        is_civil(after as int),
        cron_fault(expr@) is None,
    ensures
        clock_finds(expr@, after as int, r),
        r is Ok ==> r->Ok_0 > after,
{
}

/// On a machine whose wall clock stays a fixed number of seconds ahead of UTC, a local
/// search gives what a search on that offset gives, its errors too.
pub proof fn fixed_clocks_search_alike(
    expr: &str,
    after: i64,
    offset: i32,
    local: Result<i64, String>,
    fixed: Result<i64, String>,
)
    requires
        call_ensures(next_occurrence_local, (expr, after), local),
        call_ensures(next_occurrence_in, (expr, after, offset), fixed),
        is_civil(after as int),
        is_fixed_clock(offset as int),
    ensures
        match (local, fixed) {
            (Ok(a), Ok(b)) => a == b,
            (Err(a), Err(b)) => a@ == b@,
            _ => false,
        },
{
}

/// On such a machine local times, stamps and days read as on that offset.
pub proof fn fixed_clocks_read_alike(unix: i64, offset: i32, local: String, fixed: String)
    requires
        is_instant(unix as int),
        is_fixed_clock(offset as int),
        ({
            ||| call_ensures(local_time, (unix,), local) && call_ensures(
                time_at,
                (unix, offset),
                fixed,
            )
            ||| call_ensures(local_stamp, (unix,), local) && call_ensures(
                stamp_at,
                (unix, offset),
                fixed,
            )
            ||| call_ensures(local_day, (unix,), local) && call_ensures(
                day_at,
                (unix, offset),
                fixed,
            )
        }),
    ensures
        local@ == fixed@,
{
}

} // verus!
