//! Points in time as plain seconds and nanoseconds, the system clock, and
//! the arithmetic on instants that pause detection needs.

use crate::text::optional_text;
use vstd::prelude::*;

verus! {

/// An instant on the UTC time line: whole seconds since 1970-01-01T00:00:00Z
/// and the nanoseconds that follow them.
#[derive(Clone, Copy, Debug, PartialEq, Eq, Structural)]
pub struct Timestamp {
    pub secs: i64,
    pub nanos: u32,
}

/// Nanoseconds from the epoch to `t`.
pub open spec fn total_nanos(t: Timestamp) -> int {
    t.secs * 1_000_000_000 + t.nanos
}

/// Whole milliseconds that passed from `earlier` to `later`: zero when
/// `later` is not after `earlier`, and capped at `u64::MAX`.
pub open spec fn elapsed_millis(earlier: Timestamp, later: Timestamp) -> nat {
    let span: int = total_nanos(later) - total_nanos(earlier);
    if span <= 0 {
        0
    } else if span / 1_000_000 > u64::MAX {
        u64::MAX as nat
    } else {
        (span / 1_000_000) as nat
    }
}

/// The text of an instant in the form `YYYYMMDD_HHMMSS`, as the calendar
/// library renders it; `None` for an instant outside the calendar's range.
pub uninterp spec fn utc_stamp_text(secs: i64, nanos: u32) -> Option<Seq<char>>;

/// Reads the system clock with `chrono::Utc::now` and hands back the
/// reading's `timestamp()` and `timestamp_subsec_nanos()`. Nothing is
/// claimed of the value: it is whatever the clock showed. The call panics
/// where the system clock stands before 1970.
#[verifier::external_body]
pub(crate) fn now() -> (t: Timestamp) {
    let reading = chrono::Utc::now();
    Timestamp { secs: reading.timestamp(), nanos: reading.timestamp_subsec_nanos() }
}

/// Renders an instant with `chrono::DateTime::from_timestamp` followed by
/// `format("%Y%m%d_%H%M%S")`. The contract only gives the outcome its name,
/// `utc_stamp_text`: the same seconds and nanoseconds always give the same
/// text, and `None` is what `from_timestamp` answers for values it rejects.
#[verifier::external_body]
fn format_utc_stamp(secs: i64, nanos: u32) -> (text: Option<String>)
    ensures
        optional_text(text) == utc_stamp_text(secs, nanos),
{
    match chrono::DateTime::from_timestamp(secs, nanos) {
        Some(moment) => Some(moment.format("%Y%m%d_%H%M%S").to_string()),
        None => None,
    }
}

impl Timestamp {
    /// Whole milliseconds from `earlier` to `self`.
    pub fn millis_since(&self, earlier: &Timestamp) -> (millis: u64)
        ensures
            millis == elapsed_millis(*earlier, *self),
    {
        let later_nanos: i128 = (self.secs as i128) * 1_000_000_000 + (self.nanos as i128);
        let earlier_nanos: i128 = (earlier.secs as i128) * 1_000_000_000 + (earlier.nanos as i128);
        if later_nanos <= earlier_nanos {
            return 0;
        }
        let span: u128 = (later_nanos - earlier_nanos) as u128;
        let millis: u128 = span / 1_000_000;
        if millis > u64::MAX as u128 {
            u64::MAX
        } else {
            millis as u64
        }
    }

    /// The instant as `YYYYMMDD_HHMMSS` in UTC, if the calendar can hold it.
    pub fn compact_stamp(&self) -> (text: Option<String>)
        ensures
            optional_text(text) == utc_stamp_text(self.secs, self.nanos),
    {
        format_utc_stamp(self.secs, self.nanos)
    }
}

} // verus!
