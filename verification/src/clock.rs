//! The wall clock.

use vstd::prelude::*;

verus! {

/// Milliseconds since the Unix epoch, from
/// `chrono::Utc::now().timestamp_millis()`. Nothing is claimed of the value.
/// `chrono` panics where the system clock stands before the epoch.
#[verifier::external_body]
pub(crate) fn now_millis() -> i64 {
    chrono::Utc::now().timestamp_millis()
}

/// The whole seconds in `millis` milliseconds, rounded down: the second
/// that holds the instant, before the epoch too.
pub open spec fn whole_seconds(millis: int) -> int {
    millis / 1000
}

/// The whole seconds in `millis` milliseconds, rounded down.
pub fn seconds_of(millis: i64) -> (r: i64)
    ensures
        r == whole_seconds(millis as int),
        r * 1000 <= millis < r * 1000 + 1000,
{
    if millis >= 0 {
        millis / 1000
    } else {
        (millis + 1) / 1000 - 1
    }
}

/// Seconds since the Unix epoch, by the same clock as `now_millis`: the
/// whole seconds of its milliseconds. Which instant the clock gives is not
/// claimed.
pub(crate) fn now_seconds() -> (r: i64)
    ensures
        exists|millis: i64| r == #[trigger] whole_seconds(millis as int),
{
    seconds_of(now_millis())
}

/// The day that a text of the form `2024-05-17` names, counted from the
/// first day of the year 1, as `chrono` reads and counts it.
pub uninterp spec fn day_number(text: Seq<char>) -> Option<i32>;

/// The day that a text names, from `chrono::NaiveDate::parse_from_str`
/// with the format `%Y-%m-%d` and `Datelike::num_days_from_ce`. The result
/// is a function of the text alone.
#[verifier::external_body]
pub(crate) fn day_of(text: &str) -> (r: Option<i32>)
    ensures
        r == day_number(text@),
{
    chrono::NaiveDate::parse_from_str(text, "%Y-%m-%d").ok().map(
        |d| chrono::Datelike::num_days_from_ce(&d),
    )
}

} // verus!
