use rumbex_smb_native::time::{filetime_to_unix_seconds, EPOCH_DELTA_SECS, TICKS_PER_SECOND};

const UNIX_EPOCH_TICKS: u64 = 116_444_736_000_000_000;

#[test]
fn unset_timestamp_is_zero() {
    assert_eq!(filetime_to_unix_seconds(0), 0);
}

#[test]
fn unix_epoch_is_zero() {
    assert_eq!(UNIX_EPOCH_TICKS, EPOCH_DELTA_SECS * TICKS_PER_SECOND);
    assert_eq!(filetime_to_unix_seconds(UNIX_EPOCH_TICKS), 0);
}

#[test]
fn one_second_after_the_epoch_is_one() {
    assert_eq!(filetime_to_unix_seconds(UNIX_EPOCH_TICKS + 10_000_000), 1);
}

#[test]
fn fractions_of_a_second_are_dropped() {
    assert_eq!(filetime_to_unix_seconds(UNIX_EPOCH_TICKS + 9_999_999), 0);
    assert_eq!(filetime_to_unix_seconds(UNIX_EPOCH_TICKS + 19_999_999), 1);
    assert_eq!(filetime_to_unix_seconds(UNIX_EPOCH_TICKS - 1), 0);
}

#[test]
fn instants_before_1970_are_zero() {
    assert_eq!(filetime_to_unix_seconds(1), 0);
    assert_eq!(filetime_to_unix_seconds(10_000_000), 0);
    assert_eq!(filetime_to_unix_seconds(UNIX_EPOCH_TICKS - 10_000_000), 0);
}

#[test]
fn a_known_date_converts() {
    // 2001-09-09T01:46:40Z is 1_000_000_000 seconds after the epoch.
    let ticks = UNIX_EPOCH_TICKS + 1_000_000_000 * 10_000_000;
    assert_eq!(filetime_to_unix_seconds(ticks), 1_000_000_000);
}

#[test]
fn the_largest_tick_count_converts() {
    assert_eq!(
        filetime_to_unix_seconds(u64::MAX),
        u64::MAX / 10_000_000 - 11_644_473_600
    );
}
