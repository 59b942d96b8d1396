use grindstone::clock::SystemClock;
use grindstone::models::Timestamp;

#[test]
fn test_system_clock_now_timestamp() {
    let clock = SystemClock;
    let ts = clock.now_timestamp();
    // Timestamp should be positive and reasonable (after year 2000)
    assert!(ts > 946684800); // Jan 1, 2000
}

#[test]
fn test_timestamp_now_is_reasonable() {
    let ts = Timestamp::now();
    assert!(ts.seconds() > 946684800);
}
