//! The monotonic clock, spans of time and the calendar.
use std::time::{Duration, Instant};
use vstd::prelude::*;

verus! {

/// A reading of the monotonic clock.
#[verifier::external_type_specification]
#[verifier::external_body]
pub struct ExInstant(Instant);

/// Where a reading of the monotonic clock lies on the clock's time line, in nanoseconds from an
/// origin that is fixed but not known.
pub uninterp spec fn clock_nanos(t: Instant) -> int;

/// What `Duration::as_nanos` gives for a span of time: its length in nanoseconds.
pub uninterp spec fn span_nanos(d: Duration) -> nat;

/// What `format!("{:.*}", digits, d.as_secs_f64())` makes of a span of time of that many
/// nanoseconds.
pub uninterp spec fn seconds_written(nanos: nat, digits: nat) -> Seq<char>;

/// What `DateTime::format` makes of a moment, given in seconds since 1970, under a pattern.
pub uninterp spec fn utc_written(seconds: int, pattern: Seq<char>) -> Seq<char>;

/// The nanoseconds from `earlier` to `later`; none if `later` comes first.
pub open spec fn nanos_between(earlier: int, later: int) -> nat {
    if earlier <= later {
        (later - earlier) as nat
    } else {
        0
    }
}

/// Where an optional reading lies on the time line.
pub open spec fn opt_clock(t: Option<Instant>) -> Option<int> {
    match t {
        Some(t) => Some(clock_nanos(t)),
        None => None,
    }
}

/// The length of an optional span.
pub open spec fn opt_span(d: Option<Duration>) -> Option<nat> {
    match d {
        Some(d) => Some(span_nanos(d)),
        None => None,
    }
}

/// The lengths of a list of spans.
pub open spec fn spans(list: Seq<Duration>) -> Seq<nat> {
    list.map_values(|d: Duration| span_nanos(d))
}

/// A number of seconds in nanoseconds.
pub open spec fn seconds_nanos(seconds: nat) -> nat {
    seconds * 1_000_000_000
}

/// The moments, in seconds since 1970, that the calendar can hold.
pub open spec fn on_calendar(seconds: int) -> bool {
    -8_334_601_228_800 <= seconds <= 8_210_266_876_799
}

/// The pattern of a run's name.
pub open spec fn run_id_pattern() -> Seq<char> {
    "%Y%m%d_%H%M%S"@
}

/// The pattern of a date and time that people read.
pub open spec fn stamp_pattern() -> Seq<char> {
    "%Y-%m-%d %H:%M:%S UTC"@
}

/// `Instant::now`. Nothing is said of the reading: it depends on when the call is made.
#[verifier::external_body]
fn now() -> (t: Instant) {
    Instant::now()
}

/// The monotonic clock has been read, and gave this.
pub closed spec fn clock_reading(t: Instant) -> bool {
    call_ensures(now, (), t)
}

/// The calendar clock has been read, and gave this moment, in seconds since 1970.
pub closed spec fn utc_reading(seconds: i64) -> bool {
    call_ensures(utc_now, (), seconds)
}

/// Reads the monotonic clock.
pub(crate) fn read_clock() -> (t: Instant)
    ensures
        clock_reading(t),
{
    let clock = now;
    clock()
}

/// Reads the calendar clock.
pub(crate) fn read_utc() -> (seconds: i64)
    ensures
        utc_reading(seconds),
        0 <= seconds && on_calendar(seconds as int),
{
    let clock = utc_now;
    clock()
}

/// `Instant::saturating_duration_since`: the time from `earlier` to `later`, or no time at all
/// if `later` comes first.
#[verifier::external_body]
pub(crate) fn since(later: Instant, earlier: Instant) -> (d: Duration)
    ensures
        span_nanos(d) == nanos_between(clock_nanos(earlier), clock_nanos(later)),
{
    later.saturating_duration_since(earlier)
}

/// `Duration::as_nanos`: the length of the span in nanoseconds, named `span_nanos`.
#[verifier::external_body]
pub(crate) fn as_nanos(d: Duration) -> (n: u128)
    ensures
        n == span_nanos(d),
{
    d.as_nanos()
}

/// `Duration::as_secs_f64`, written with `digits` digits after the point: the result is a
/// function of the length of the span and of the number of digits, named `seconds_written`. A
/// span is told to the nanosecond, so more than nine digits are never asked for.
#[verifier::external_body]
pub(crate) fn seconds_text(d: Duration, digits: usize) -> (r: String)
    requires
        digits <= 9,
    ensures
        r@ == seconds_written(span_nanos(d), digits as nat),
{
    format!("{:.*}", digits, d.as_secs_f64())
}

/// `chrono::Utc::now`, in whole seconds since 1970. The call gives a moment that the calendar
/// holds and that does not lie before 1970, for it stops on a system clock set earlier.
#[verifier::external_body]
fn utc_now() -> (seconds: i64)
    ensures
        0 <= seconds && on_calendar(seconds as int),
{
    chrono::Utc::now().timestamp()
}

/// `chrono::DateTime::format` on the moment that `chrono::DateTime::from_timestamp` makes of
/// `seconds`. `from_timestamp` fails on a moment that the calendar does not hold, and writing
/// out a malformed pattern stops: neither is asked of them. The result is a function of the
/// moment and of the pattern, named `utc_written`.
#[verifier::external_body]
pub(crate) fn utc_text(seconds: i64, pattern: &str) -> (r: String)
    requires
        on_calendar(seconds as int),
        pattern@ == run_id_pattern() || pattern@ == stamp_pattern(),
    ensures
        r@ == utc_written(seconds as int, pattern@),
{
    let moment = chrono::DateTime::from_timestamp(seconds, 0).unwrap();
    moment.format(pattern).to_string()
}

/// Whether a span is longer than a number of seconds.
pub(crate) fn longer_than(d: Duration, seconds: u64) -> (r: bool)
    ensures
        r == (span_nanos(d) > seconds_nanos(seconds as nat)),
{
    as_nanos(d) > seconds as u128 * 1_000_000_000
}

/// Whether a span is at least as long as a number of seconds.
pub(crate) fn at_least(d: Duration, seconds: u64) -> (r: bool)
    ensures
        r == (span_nanos(d) >= seconds_nanos(seconds as nat)),
{
    as_nanos(d) >= seconds as u128 * 1_000_000_000
}

} // verus!
