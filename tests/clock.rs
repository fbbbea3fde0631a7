use tock::clock::{local_time, TimeOfDay, CLOCK_OFFSET_SECONDS};

fn hms(hour: u8, minute: u8, second: u8) -> TimeOfDay {
    TimeOfDay { hour, minute, second }
}

#[test]
fn epoch_at_clock_offset() {
    assert_eq!(local_time(0, CLOCK_OFFSET_SECONDS), Some(hms(1, 0, 0)));
}

#[test]
fn offset_wraps_past_midnight() {
    assert_eq!(local_time(86399, 3600), Some(hms(0, 59, 59)));
}

#[test]
fn before_epoch() {
    assert_eq!(local_time(-1, 0), Some(hms(23, 59, 59)));
}

#[test]
fn negative_offset() {
    assert_eq!(local_time(3600, -7200), Some(hms(23, 0, 0)));
}

#[test]
fn recent_instant() {
    assert_eq!(local_time(1_700_000_000, 3600), Some(hms(23, 13, 20)));
}

#[test]
fn offset_out_of_range_gives_none() {
    assert_eq!(local_time(0, 93600), None);
}

#[test]
fn timestamp_out_of_range_gives_none() {
    assert_eq!(local_time(i64::MAX, 0), None);
    assert_eq!(local_time(i64::MIN, 0), None);
}
