//! The clock and the sources of fresh identifiers.
use vstd::prelude::*;

verus! {

/// Seconds since the Unix epoch, from `time::OffsetDateTime::now_utc` and
/// `unix_timestamp`. Nothing is claimed of the value: it is whatever the machine's
/// clock says.
#[verifier::external_body]
fn unix_now() -> i64 {
    time::OffsetDateTime::now_utc().unix_timestamp()
}

/// Nanoseconds since the Unix epoch, from `time::OffsetDateTime::now_utc` and
/// `unix_timestamp_nanos`. Nothing is claimed of the value: it is whatever the
/// machine's clock says.
#[verifier::external_body]
fn unix_now_nanos() -> i128 {
    time::OffsetDateTime::now_utc().unix_timestamp_nanos()
}

/// Whether `c` is a hexadecimal digit with its letter in small.
pub open spec fn is_hex(c: char) -> bool {
    '0' <= c <= '9' || 'a' <= c <= 'f'
}

/// Whether `s` has the plain form of an identifier: 32 hexadecimal digits.
pub open spec fn is_token(s: Seq<char>) -> bool {
    s.len() == 32 && forall|i: int| 0 <= i < 32 ==> is_hex(#[trigger] s[i])
}

/// Whether `s` has the hyphenated form of an identifier: 36 characters, dashes
/// after the 8th, 12th, 16th and 20th hexadecimal digit.
pub open spec fn is_hyphenated(s: Seq<char>) -> bool {
    &&& s.len() == 36
    &&& forall|i: int|
        0 <= i < 36 ==> if i == 8 || i == 13 || i == 18 || i == 23 {
            #[trigger] s[i] == '-'
        } else {
            is_hex(s[i])
        }
}

/// A random token, from `uuid::Uuid::new_v4` in its `simple` form: 32 small
/// hexadecimal digits. Which digits is left to chance.
#[verifier::external_body]
fn random_token() -> (r: String)
    ensures
        is_token(r@),
{
    uuid::Uuid::new_v4().simple().to_string()
}

/// Sixteen bytes from `uuid::Uuid::new_v4`. Which bytes is left to chance.
#[verifier::external_body]
fn random_bytes() -> (r: Vec<u8>)
    ensures
        r@.len() == 16,
{
    uuid::Uuid::new_v4().into_bytes().to_vec()
}

/// A time-ordered identifier, from `uuid::Uuid::now_v7` in its default hyphenated
/// form. Which digits depends on the time and on chance.
#[verifier::external_body]
fn ordered_id() -> (r: String)
    ensures
        is_hyphenated(r@),
{
    uuid::Uuid::now_v7().to_string()
}

/// Whether the machine's clock can read `secs`: whether [`unix_now`] can say so.
pub closed spec fn clock_reads(secs: int) -> bool {
    exists|n: i64| n == secs && #[trigger] call_ensures(unix_now, (), n)
}

/// Whether the machine's clock can read `nanos` nanoseconds: whether [`unix_now_nanos`] can
/// say so.
pub closed spec fn clock_ticks(nanos: int) -> bool {
    exists|n: i128| n == nanos && #[trigger] call_ensures(unix_now_nanos, (), n)
}

/// Whether chance can give a token: whether [`random_token`] can.
pub closed spec fn is_drawn(token: Seq<char>) -> bool {
    exists|t: String| t@ == token && #[trigger] call_ensures(random_token, (), t)
}

/// Whether chance can give the bytes: whether [`random_bytes`] can.
pub closed spec fn are_drawn(bytes: Seq<u8>) -> bool {
    exists|b: Vec<u8>| b@ == bytes && #[trigger] call_ensures(random_bytes, (), b)
}

/// Whether an identifier can be the next one: whether [`ordered_id`] can give it.
pub closed spec fn is_issued(id: Seq<char>) -> bool {
    exists|t: String| t@ == id && #[trigger] call_ensures(ordered_id, (), t)
}

fn ask<T, F: Fn() -> T>(f: F) -> (r: T)
    requires
        call_requires(f, ()),
    ensures
        call_ensures(f, (), r),
{
    f()
}

/// Seconds since the Unix epoch, by the machine's clock.
pub(crate) fn now() -> (r: i64)
    ensures
        clock_reads(r as int),
{
    ask(unix_now)
}

/// Nanoseconds since the Unix epoch, by the machine's clock.
pub(crate) fn now_nanos() -> (r: i128)
    ensures
        clock_ticks(r as int),
{
    ask(unix_now_nanos)
}

/// A token left to chance.
pub(crate) fn draw_token() -> (r: String)
    ensures
        is_token(r@),
        is_drawn(r@),
{
    ask(random_token)
}

/// Sixteen bytes left to chance.
pub(crate) fn draw_bytes() -> (r: Vec<u8>)
    ensures
        r@.len() == 16,
        are_drawn(r@),
{
    ask(random_bytes)
}

/// A time-ordered identifier.
pub(crate) fn issue_id() -> (r: String)
    ensures
        is_hyphenated(r@),
        is_issued(r@),
{
    ask(ordered_id)
}

} // verus!
