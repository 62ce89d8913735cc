//! Wall-clock time in milliseconds since the Unix epoch, and its text.
use chrono::{DateTime, Local, Utc};
use std::time::{Duration, SystemTime, UNIX_EPOCH};
use vstd::prelude::*;

verus! {

#[verifier::external_type_specification]
#[verifier::external_body]
pub struct ExSystemTime(SystemTime);

/// Wraps `SystemTime::now`: the current time, which nothing about the
/// arguments fixes.
#[verifier::external_body]
fn system_now() -> SystemTime {
    SystemTime::now()
}

/// Wraps `SystemTime::duration_since` with `UNIX_EPOCH`: the time since the
/// epoch, `None` for a time before it.
#[verifier::external_body]
fn since_unix_epoch(t: &SystemTime) -> Option<Duration> {
    match t.duration_since(UNIX_EPOCH) {
        Ok(d) => Some(d),
        Err(_) => None,
    }
}

/// Wraps `Duration::as_secs`: the whole seconds of the duration.
#[verifier::external_body]
fn duration_secs(d: &Duration) -> u64 {
    d.as_secs()
}

/// Wraps `Duration::subsec_millis`: the milliseconds past the whole seconds,
/// which the documentation bounds below 1000.
#[verifier::external_body]
fn duration_subsec_millis(d: &Duration) -> (res: u32)
    ensures
        res < 1000,
{
    d.subsec_millis()
}

/// `secs * 1000 + millis`, `None` where that does not fit in a `u64`.
pub open spec fn millis_from_parts_spec(secs: u64, millis: u32) -> Option<u64> {
    if secs * 1000 + millis <= u64::MAX {
        Some((secs * 1000 + millis) as u64)
    } else {
        None
    }
}

/// Milliseconds from whole seconds and the milliseconds past them:
/// `secs * 1000 + millis`, `None` where that does not fit in a `u64`.
pub fn millis_from_parts(secs: u64, millis: u32) -> (res: Option<u64>)
    ensures
        res == millis_from_parts_spec(secs, millis),
{
    match secs.checked_mul(1000) {
        Some(m) => m.checked_add(millis as u64),
        None => None,
    }
}

/// True when `res` is what the reading `now` of the clock gives in
/// milliseconds since the Unix epoch: `None` for a time before the epoch,
/// else the whole seconds of the time since the epoch times 1000 plus the
/// milliseconds past them, where that fits in a `u64`.
pub closed spec fn millis_of_reading(now: SystemTime, res: Option<u64>) -> bool {
    ||| call_ensures(since_unix_epoch, (&now,), None) && res is None
    ||| exists|since: Duration, secs: u64, millis: u32|
        call_ensures(since_unix_epoch, (&now,), Some(since))
            && call_ensures(duration_secs, (&since,), secs)
            && call_ensures(duration_subsec_millis, (&since,), millis)
            && res == millis_from_parts_spec(secs, millis)
}

/// True when `res` is what a reading of the clock (`SystemTime::now`)
/// gives in milliseconds since the Unix epoch. Readings are not named, so
/// the only way to such a value is to read the clock.
pub closed spec fn is_clock_reading(res: Option<u64>) -> bool {
    exists|now: SystemTime| call_ensures(system_now, (), now) && millis_of_reading(now, res)
}

/// The current time in milliseconds since the Unix epoch; `None` where the
/// clock reads a time before the epoch or one whose milliseconds do not fit
/// in a `u64`, where `as_secs() * 1000 + subsec_millis()` would panic.
pub fn current_time_millis() -> (res: Option<u64>)
    ensures
        is_clock_reading(res),
{
    let now = system_now();
    match since_unix_epoch(&now) {
        Some(d) => {
            let secs = duration_secs(&d);
            let millis = duration_subsec_millis(&d);
            let res = millis_from_parts(secs, millis);
            assert(millis_of_reading(now, res));
            res
        },
        None => {
            assert(millis_of_reading(now, None));
            None
        },
    }
}

/// The first millisecond of the last day that `chrono` represents. Times on
/// that day still convert to UTC, but their local time can fall past the
/// last representable date, where the local conversion panics; this bound
/// keeps both conversions in range for every time zone.
pub const MAX_FORMATTED_MILLIS: u64 = 8_210_266_790_400_000;

/// The decimal digit `n` (`n < 10`).
pub open spec fn digit_char(n: int) -> char {
    (48 + n) as char
}

/// The fraction of the second of the time `unix_millis`, as `.%3f` writes
/// it: a point and the three digits of the milliseconds past the second.
pub open spec fn millis_field(unix_millis: u64) -> Seq<char> {
    seq![
        '.',
        digit_char(((unix_millis % 1000) / 100) as int),
        digit_char(((unix_millis % 100) / 10) as int),
        digit_char((unix_millis % 10) as int),
    ]
}

/// How the UTC text of the time `unix_millis` ends: its fraction of the
/// second and ` UTC`.
pub open spec fn utc_text_end(unix_millis: u64) -> Seq<char> {
    millis_field(unix_millis) + seq![' ', 'U', 'T', 'C']
}

/// How the local text of the time `unix_millis` ends: its fraction of the
/// second and ` Local`. Time-zone offsets are whole seconds, so the local
/// time has the same fraction of the second as the UTC time.
pub open spec fn local_text_end(unix_millis: u64) -> Seq<char> {
    millis_field(unix_millis) + seq![' ', 'L', 'o', 'c', 'a', 'l']
}

/// True when `text` ends with `end`.
pub open spec fn ends_with(text: Seq<char>, end: Seq<char>) -> bool {
    text.len() >= end.len() && text.subrange(text.len() - end.len(), text.len() as int) == end
}

/// A text that ends with `end` still ends with it after text is put in
/// front of it.
pub proof fn lemma_ends_with_concat(front: Seq<char>, text: Seq<char>, end: Seq<char>)
    requires
        ends_with(text, end),
    ensures
        ends_with(front + text, end),
{
    let whole = front + text;
    assert(whole.subrange(whole.len() - end.len(), whole.len() as int) =~= text.subrange(
        text.len() - end.len(),
        text.len() as int,
    ));
}

/// The text of `UTC` time at `unix_millis` milliseconds after the epoch in
/// the form `%Y-%m-%d %H:%M:%S.%3f UTC`.
pub uninterp spec fn utc_time_text(unix_millis: u64) -> Seq<char>;

/// The milliseconds in a day.
pub const MILLIS_PER_DAY: u64 = 86_400_000;

/// The local text of the time `unix_millis` where the time zone is ahead of
/// UTC by `offset_secs` seconds: the UTC text of the moved time with its
/// closing ` UTC` replaced by ` Local`.
pub open spec fn local_time_text(unix_millis: u64, offset_secs: int) -> Seq<char> {
    let utc = utc_time_text((unix_millis + 1000 * offset_secs) as u64);
    utc.take(utc.len() - 4) + seq![' ', 'L', 'o', 'c', 'a', 'l']
}

/// True when `text` is a local text of the time `unix_millis`: it ends with
/// the milliseconds of that time and ` Local`, and (for a time at least a
/// day after the epoch) it is the text of that instant in a time zone whose
/// offset from UTC is some whole number of seconds under a day.
pub open spec fn is_local_text(unix_millis: u64, text: Seq<char>) -> bool {
    &&& ends_with(text, local_text_end(unix_millis))
    &&& unix_millis >= MILLIS_PER_DAY ==> exists|offset_secs: int|
        -86_400 < offset_secs < 86_400 && text == #[trigger] local_time_text(unix_millis, offset_secs)
}

/// Wraps `DateTime::<Utc>::from(SystemTime)` and `format` (chrono 0.4) on
/// `UNIX_EPOCH + Duration::from_millis(unix_millis)`, formatted as
/// `%Y-%m-%d %H:%M:%S.%3f UTC`: a function of the time alone, named
/// `utc_time_text`. The text ends with `%3f` (the milliseconds past the
/// second, three digits) and ` UTC`. The conversion panics past the last
/// representable date, which the precondition keeps out.
#[verifier::external_body]
fn format_utc(unix_millis: u64) -> (res: String)
    requires
        unix_millis < MAX_FORMATTED_MILLIS,
    ensures
        res@ == utc_time_text(unix_millis),
        ends_with(res@, utc_text_end(unix_millis)),
{
    let t = UNIX_EPOCH + Duration::from_millis(unix_millis);
    let dt: DateTime<Utc> = t.into();
    dt.format("%Y-%m-%d %H:%M:%S.%3f UTC").to_string()
}

/// Wraps `DateTime::<Local>::from(SystemTime)` and `format` (chrono 0.4),
/// formatted as `%Y-%m-%d %H:%M:%S.%3f Local`. The conversion is
/// `with_timezone(&Local)` of the UTC time: the local date and time are the
/// UTC ones moved by the machine's offset at that instant, a `FixedOffset`
/// of whole seconds under a day, which is not stated. So the text is the UTC
/// text of the time moved by that offset, ending in ` Local` for ` UTC`, and
/// ends with the milliseconds of `unix_millis` past the second (`%3f`, three
/// digits) and ` Local`. The precondition keeps the local time within the
/// representable dates.
#[verifier::external_body]
fn format_local(unix_millis: u64) -> (res: String)
    requires
        unix_millis < MAX_FORMATTED_MILLIS,
    ensures
        ends_with(res@, local_text_end(unix_millis)),
        is_local_text(unix_millis, res@),
{
    let t = UNIX_EPOCH + Duration::from_millis(unix_millis);
    let dt: DateTime<Local> = t.into();
    dt.format("%Y-%m-%d %H:%M:%S.%3f Local").to_string()
}

/// `UTC: <utc text>, Local: <local text>` for the time `unix_millis`
/// milliseconds after the epoch: both texts are of the same instant (the
/// local one in the machine's time zone), and both end with its milliseconds
/// past the second.
pub fn format_unix_millis(unix_millis: u64) -> (res: String)
    requires
        unix_millis < MAX_FORMATTED_MILLIS,
    ensures
        exists|local: Seq<char>|
            res@ == "UTC: "@ + utc_time_text(unix_millis) + ", Local: "@ + local && ends_with(
                local,
                local_text_end(unix_millis),
            ),
        ends_with(utc_time_text(unix_millis), utc_text_end(unix_millis)),
        ends_with(res@, local_text_end(unix_millis)),
        exists|local: Seq<char>|
            res@ == "UTC: "@ + utc_time_text(unix_millis) + ", Local: "@ + local && is_local_text(
                unix_millis,
                local,
            ),
{
    let utc = format_utc(unix_millis);
    let local = format_local(unix_millis);
    let mut res = String::from_str("UTC: ");
    res.append(utc.as_str());
    res.append(", Local: ");
    res.append(local.as_str());
    assert(res@ == "UTC: "@ + utc_time_text(unix_millis) + ", Local: "@ + local@);
    proof {
        lemma_ends_with_concat("UTC: "@ + utc_time_text(unix_millis) + ", Local: "@, local@, local_text_end(unix_millis));
    }
    res
}

} // verus!
