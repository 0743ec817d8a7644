use std::time::{SystemTime, UNIX_EPOCH};

use rapl_lib::clock::{get_timestamp_millis, timestamp_millis, SinceEpoch};
use rapl_lib::error::RaplError;

#[test]
fn the_clock_shows_a_time_after_the_epoch() {
    let first = get_timestamp_millis().expect("the clock is past the epoch");
    // 2020-01-01 in milliseconds since the epoch
    assert!(first > 1_577_836_800_000);
    let second = get_timestamp_millis().unwrap();
    assert!(second + 60_000 > first);
}

#[test]
fn the_clock_agrees_with_the_whole_milliseconds_of_the_span() {
    let before = SystemTime::now().duration_since(UNIX_EPOCH).unwrap().as_millis();
    let stamp = get_timestamp_millis().unwrap();
    let after = SystemTime::now().duration_since(UNIX_EPOCH).unwrap().as_millis();
    // The wall clock may be set back between two readings, but not by a minute.
    assert!(before <= stamp + 60_000);
    assert!(stamp <= after + 60_000);
}

#[test]
fn a_timestamp_is_a_thousand_for_each_second_and_the_milliseconds() {
    assert_eq!(timestamp_millis(Some(SinceEpoch { secs: 0, subsec_millis: 0 })), Some(0));
    assert_eq!(timestamp_millis(Some(SinceEpoch { secs: 0, subsec_millis: 999 })), Some(999));
    assert_eq!(timestamp_millis(Some(SinceEpoch { secs: 1, subsec_millis: 5 })), Some(1005));
    assert_eq!(
        timestamp_millis(Some(SinceEpoch { secs: 1_700_000_000, subsec_millis: 250 })),
        Some(1_700_000_000_250)
    );
    assert_eq!(
        timestamp_millis(Some(SinceEpoch { secs: u64::MAX, subsec_millis: 999 })),
        Some(18_446_744_073_709_551_615_999)
    );
    assert_eq!(
        timestamp_millis(Some(SinceEpoch { secs: u64::MAX, subsec_millis: u32::MAX })),
        Some(18_446_744_073_709_551_615_000 + 4_294_967_295)
    );
}

#[test]
fn a_clock_before_the_epoch_has_no_timestamp() {
    assert_eq!(timestamp_millis(None), None);
}

#[test]
fn errors_have_a_text() {
    assert_eq!(RaplError::Access.describe(), "hardware access error");
    assert_eq!(RaplError::Privilege.describe(), "not running with elevated privilege");
    assert_eq!(RaplError::Persistence.describe(), "io error");
    assert_eq!(RaplError::ContractViolation.describe(), "start and stop called out of order");
}
