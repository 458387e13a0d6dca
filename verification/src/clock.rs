//! Points in time.

use vstd::prelude::*;

verus! {

/// A point in time: nanoseconds since the Unix epoch, in UTC.
pub type Timestamp = i128;

/// The earliest value that the clock can report.
pub open spec fn clock_min() -> int {
    -9_223_372_036_854_775_808int * 1_000_000_000
}

/// The latest value that the clock can report.
pub open spec fn clock_max() -> int {
    9_223_372_036_854_775_807int * 1_000_000_000 + 999_999_999
}

/// Reads the clock with `time::OffsetDateTime::now_utc` and hands back its
/// `unix_timestamp_nanos`: a 64-bit count of seconds times 10^9, plus less
/// than 10^9 nanoseconds. Only that range is claimed.
#[verifier::external_body]
pub(crate) fn now_utc() -> (now: Timestamp)
    ensures
        clock_min() <= now <= clock_max(),
{
    time::OffsetDateTime::now_utc().unix_timestamp_nanos()
}

/// Whether `at` is a time that the clock can report.
pub fn is_clock_time(at: Timestamp) -> (ok: bool)
    ensures
        ok == (clock_min() <= at <= clock_max()),
{
    -9_223_372_036_854_775_808_000_000_000 <= at && at <= 9_223_372_036_854_775_807_999_999_999
}

/// How `time::OffsetDateTime` prints the point in time `at`, in UTC, or
/// `None` where it cannot hold `at`.
pub uninterp spec fn timestamp_display(at: Timestamp) -> Option<Seq<char>>;

/// Prints `at` as a date and time in UTC: builds the value with
/// `time::OffsetDateTime::from_unix_timestamp_nanos` and prints it with its
/// `Display` impl. Gives `None` where `at` is out of that type's range. The
/// result is named by `timestamp_display`.
#[verifier::external_body]
pub(crate) fn timestamp_text(at: Timestamp) -> (text: Option<String>)
    ensures
        crate::text::text_of(text) == timestamp_display(at),
{
    match time::OffsetDateTime::from_unix_timestamp_nanos(at) {
        Ok(moment) => Some(moment.to_string()),
        Err(_) => None,
    }
}

/// The point in time `at` as a date and time in UTC, or nothing where it
/// cannot be printed as one.
pub fn format_timestamp(at: Timestamp) -> (text: String)
    ensures
        text@ == match timestamp_display(at) {
            Some(shown) => shown,
            None => Seq::empty(),
        },
{
    match timestamp_text(at) {
        Some(text) => text,
        None => String::new(),
    }
}

} // verus!
