use vstd::prelude::*;

verus! {

/// Seconds in a day.
pub const SECONDS_PER_DAY: i64 = 86400;

/// The clock shows the time of day at this offset from UTC, in seconds.
pub const CLOCK_OFFSET_SECONDS: i32 = 3600;

/// Earliest Unix timestamp for which a reading is promised.
pub const EARLIEST_READING: i64 = -377_000_000_000;

/// Latest Unix timestamp for which a reading is promised.
pub const LATEST_READING: i64 = 253_000_000_000;

/// A time of day, to the second.
#[derive(Debug, Clone, Copy, PartialEq, Eq, Structural)]
pub struct TimeOfDay {
    pub hour: u8,
    pub minute: u8,
    pub second: u8,
}

impl TimeOfDay {
    pub open spec fn wf(&self) -> bool {
        self.hour < 24 && self.minute < 60 && self.second < 60
    }

    /// Seconds since midnight.
    pub open spec fn seconds(&self) -> int {
        self.hour * 3600 + self.minute * 60 + self.second
    }
}

/// Seconds since local midnight, at `offset` seconds from UTC, of the
/// instant `timestamp` seconds after the Unix epoch.
pub open spec fn seconds_of_day(timestamp: int, offset: int) -> int {
    (timestamp + offset) % (SECONDS_PER_DAY as int)
}

/// Instants and offsets for which a reading is owed: the local date stays
/// well inside the years -9999 to 9999, and the offset is under a day.
pub open spec fn readable(timestamp: int, offset: int) -> bool {
    &&& EARLIEST_READING <= timestamp <= LATEST_READING
    &&& -SECONDS_PER_DAY < offset < SECONDS_PER_DAY
}

/// Relies on the `time` crate: `UtcOffset::from_whole_seconds` builds the
/// offset, `OffsetDateTime::from_unix_timestamp` the instant (in UTC),
/// `OffsetDateTime::checked_to_offset` moves it to the offset, and
/// `OffsetDateTime::to_hms` reads the local hour, minute and second. Each
/// step fails only outside the ranges that the crate supports.
#[verifier::external_body]
fn hms_at_offset(timestamp: i64, offset_seconds: i32) -> (r: Option<(u8, u8, u8)>)
    ensures
        match r {
            Some((h, m, s)) => {
                &&& h < 24 && m < 60 && s < 60
                &&& h * 3600 + m * 60 + s == seconds_of_day(timestamp as int, offset_seconds as int)
            },
            None => true,
        },
        readable(timestamp as int, offset_seconds as int) ==> r.is_some(),
{
    let offset = time::UtcOffset::from_whole_seconds(offset_seconds).ok()?;
    let utc = time::OffsetDateTime::from_unix_timestamp(timestamp).ok()?;
    Some(utc.checked_to_offset(offset)?.to_hms())
}

/// The local time of day at `offset_seconds` from UTC of the instant
/// `timestamp` seconds after the Unix epoch, or `None` where the instant or
/// the offset lies outside what the calendar supports.
pub fn local_time(timestamp: i64, offset_seconds: i32) -> (r: Option<TimeOfDay>)
    ensures
        match r {
            Some(t) => t.wf() && t.seconds() == seconds_of_day(timestamp as int, offset_seconds as int),
            None => !readable(timestamp as int, offset_seconds as int),
        },
{
    match hms_at_offset(timestamp, offset_seconds) {
        Some((hour, minute, second)) => Some(TimeOfDay { hour, minute, second }),
        None => None,
    }
}

} // verus!
