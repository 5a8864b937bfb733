//! The clock and the identifier source, the two inputs that depend on the machine.
use chrono::{Datelike, TimeZone, Timelike};
use vstd::prelude::*;

verus! {

/// Calendar fields of the local wall-clock time.
pub struct LocalTime {
    pub year: i32,
    pub month: u32,
    pub day: u32,
    pub hour: u32,
    pub minute: u32,
    pub second: u32,
    /// Day of the week, Monday = 1 … Sunday = 7.
    pub weekday: u32,
}

/// The system clock's time, declared so that it can be carried through verified code.
#[verifier::external_type_specification]
#[verifier::external_body]
pub struct ExSystemTime(std::time::SystemTime);

/// `std::time::SystemTime::now`: the system clock's current time. Nothing is stated of it,
/// as it depends on the time.
#[verifier::external_body]
fn system_now() -> (t: std::time::SystemTime) {
    std::time::SystemTime::now()
}

/// `SystemTime::duration_since(UNIX_EPOCH)`: how long after the Unix epoch `t` lies, or
/// `None` (std's error) when `t` lies before it. Nothing more is stated, as it depends on `t`,
/// which the library only carries.
#[verifier::external_body]
fn since_unix_epoch(t: &std::time::SystemTime) -> (d: Option<std::time::Duration>) {
    match t.duration_since(std::time::UNIX_EPOCH) {
        Ok(d) => Some(d),
        Err(_) => None,
    }
}

/// `Duration::as_secs`: the whole seconds of `d`. Nothing is stated of the value, as the
/// library does not look inside a `Duration`.
#[verifier::external_body]
fn whole_seconds(d: &std::time::Duration) -> (s: u64) {
    d.as_secs()
}

/// `Duration::subsec_millis`: the whole milliseconds of `d`'s fraction of a second, which
/// std documents to be less than one thousand.
#[verifier::external_body]
fn subsec_millis(d: &std::time::Duration) -> (ms: u32)
    ensures
        ms < 1000,
{
    d.subsec_millis()
}

/// Milliseconds for `secs` whole seconds and `sub_ms` further milliseconds, capped at
/// `i64::MAX`.
pub open spec fn epoch_millis(secs: u64, sub_ms: u32) -> int {
    if secs * 1000 + sub_ms <= i64::MAX {
        secs * 1000 + sub_ms
    } else {
        i64::MAX as int
    }
}

/// Milliseconds for `secs` whole seconds and `sub_ms` further milliseconds, capped at
/// `i64::MAX`.
pub fn millis_from_parts(secs: u64, sub_ms: u32) -> (t: i64)
    ensures
        t == epoch_millis(secs, sub_ms),
{
    if secs <= (i64::MAX as u64 - sub_ms as u64) / 1000 {
        (secs * 1000 + sub_ms as u64) as i64
    } else {
        i64::MAX
    }
}

/// Milliseconds since the Unix epoch on the system clock; 0 when the clock stands before
/// 1970. Nothing more is stated, as the value depends on the time.
pub fn utc_now_millis() -> (t: i64)
    ensures
        t >= 0,
{
    let now = system_now();
    match since_unix_epoch(&now) {
        Some(d) => {
            let secs = whole_seconds(&d);
            let ms = subsec_millis(&d);
            millis_from_parts(secs, ms)
        },
        None => 0,
    }
}

/// The fields are in their ranges: month 1–12, day 1–31, hour 0–23, minute and second
/// 0–59, weekday 1–7.
pub open spec fn in_calendar_ranges(t: LocalTime) -> bool {
    &&& 1 <= t.month <= 12
    &&& 1 <= t.day <= 31
    &&& t.hour <= 23
    &&& t.minute <= 59
    &&& t.second <= 59
    &&& 1 <= t.weekday <= 7
}

/// The local date and time at `ms` milliseconds since the Unix epoch, from
/// `chrono::Local.timestamp_millis_opt(ms).single()` read through `Datelike` and `Timelike`;
/// `None` when chrono gives no single local time (`ms` beyond the dates it can represent).
/// chrono documents the ranges stated here (month 1–12, day 1–31, hour 0–23, minute 0–59,
/// second 0–59, `number_from_monday` 1–7); the values depend on the machine's time zone,
/// so nothing more is stated. chrono panics only when the time-zone data of the machine
/// cannot be read.
#[verifier::external_body]
fn local_time_at(ms: i64) -> (r: Option<LocalTime>)
    ensures
        r matches Some(t) ==> in_calendar_ranges(t),
{
    match chrono::Local.timestamp_millis_opt(ms).single() {
        Some(d) => Some(LocalTime {
            year: d.year(),
            month: d.month(),
            day: d.day(),
            hour: d.hour(),
            minute: d.minute(),
            second: d.second(),
            weekday: d.weekday().number_from_monday(),
        }),
        None => None,
    }
}

/// The local date and time now: the system clock's time in the machine's time zone, or the
/// epoch's calendar where chrono gives none.
pub fn local_now() -> (t: LocalTime)
    ensures
        in_calendar_ranges(t),
{
    let ms = utc_now_millis();
    match local_time_at(ms) {
        Some(t) => t,
        None => LocalTime { year: 1970, month: 1, day: 1, hour: 0, minute: 0, second: 0, weekday: 4 },
    }
}

/// A fresh random identifier: `uuid::Uuid::new_v4().to_string()`. Nothing is stated of
/// it, as it is random.
#[verifier::external_body]
pub(crate) fn new_entry_id() -> (id: String) {
    uuid::Uuid::new_v4().to_string()
}

/// Milliseconds since the Unix epoch as an unsigned number: the clock's non-negative `i64`
/// count, so it never exceeds `i64::MAX`.
pub fn now_millis() -> (t: u64)
    ensures
        t <= i64::MAX,
{
    let t = utc_now_millis();
    t as u64
}

} // verus!
