use spiderweb::time::system_time::unix_epoch;
use spiderweb::time::{max_duration, sleep_plan, timeout2millis, Instant, SystemTime};
use std::time::Duration;

#[test]
fn instant_measures_the_time_between_two_instants() {
    let early = Instant::new(Duration::new(5, 250));
    let late = Instant::new(Duration::new(8, 100));
    assert_eq!(late.duration_since(early), Duration::new(2, 999_999_850));
    assert_eq!(late.checked_duration_since(early), Some(Duration::new(2, 999_999_850)));
    assert_eq!(late.saturating_duration_since(early), Duration::new(2, 999_999_850));
    assert_eq!(early.elapsed(late), Duration::new(2, 999_999_850));
}

#[test]
fn instant_saturates_when_the_order_is_reversed() {
    let early = Instant::new(Duration::new(5, 0));
    let late = Instant::new(Duration::new(8, 0));
    assert_eq!(early.duration_since(late), Duration::ZERO);
    assert_eq!(early.saturating_duration_since(late), Duration::ZERO);
    assert_eq!(early.checked_duration_since(late), None);
    assert_eq!(late.elapsed(early), Duration::ZERO);
    assert_eq!(early.duration_since(early), Duration::ZERO);
    assert_eq!(early.checked_duration_since(early), Some(Duration::ZERO));
}

#[test]
fn instant_checked_add_and_sub_move_along_the_clock() {
    let t = Instant::new(Duration::new(10, 900_000_000));
    assert_eq!(
        t.checked_add(Duration::new(1, 200_000_000)),
        Some(Instant::new(Duration::new(12, 100_000_000)))
    );
    assert_eq!(
        t.checked_sub(Duration::new(1, 950_000_000)),
        Some(Instant::new(Duration::new(8, 950_000_000)))
    );
    assert_eq!(t.checked_sub(Duration::new(10, 900_000_000)), Some(Instant::new(Duration::ZERO)));
    assert_eq!(t.checked_sub(Duration::new(10, 900_000_001)), None);
}

#[test]
fn instant_checked_add_refuses_what_cannot_be_held() {
    let t = Instant::new(Duration::new(u64::MAX, 999_999_999));
    assert_eq!(t.checked_add(Duration::new(0, 1)), None);
    assert_eq!(t.checked_add(Duration::ZERO), Some(t));
    let almost = Instant::new(Duration::new(u64::MAX, 999_999_998));
    assert_eq!(almost.checked_add(Duration::new(0, 1)), Some(t));
}

#[test]
fn instant_keeps_what_it_was_made_of() {
    let d = Duration::new(3, 14);
    assert_eq!(Instant::new(d).since_origin(), d);
    assert!(Instant::new(Duration::new(1, 0)) < Instant::new(Duration::new(1, 1)));
}

#[test]
fn system_time_measures_forwards_and_reports_backwards() {
    let early = SystemTime::new(Duration::new(100, 0));
    let late = SystemTime::new(Duration::new(130, 500));
    assert_eq!(late.duration_since(early).unwrap(), Duration::new(30, 500));
    assert_eq!(early.elapsed(late).unwrap(), Duration::new(30, 500));
    let error = early.duration_since(late).unwrap_err();
    assert_eq!(error.duration(), Duration::new(30, 500));
    let error = late.elapsed(early).unwrap_err();
    assert_eq!(error.duration(), Duration::new(30, 500));
    assert_eq!(early.duration_since(early).unwrap(), Duration::ZERO);
}

#[test]
fn system_time_checked_add_and_sub() {
    let t = SystemTime::new(Duration::new(100, 0));
    assert_eq!(t.checked_add(Duration::new(1, 5)), Some(SystemTime::new(Duration::new(101, 5))));
    assert_eq!(t.checked_sub(Duration::new(1, 5)), Some(SystemTime::new(Duration::new(98, 999_999_995))));
    assert_eq!(t.checked_sub(Duration::new(100, 1)), None);
    assert_eq!(t.checked_add(Duration::new(u64::MAX, 0)), None);
    assert_eq!(t.since_epoch(), Duration::new(100, 0));
}

#[test]
fn unix_epoch_is_the_anchor() {
    let epoch = unix_epoch();
    assert_eq!(epoch.since_epoch(), Duration::ZERO);
    let t = SystemTime::new(Duration::new(7, 0));
    assert_eq!(t.duration_since(epoch).unwrap(), Duration::new(7, 0));
    assert_eq!(epoch.duration_since(t).unwrap_err().duration(), Duration::new(7, 0));
}

#[test]
fn timeout_millis_are_whole_milliseconds() {
    assert_eq!(timeout2millis(Duration::ZERO), 0);
    assert_eq!(timeout2millis(Duration::new(0, 999_999)), 0);
    assert_eq!(timeout2millis(Duration::new(0, 1_000_000)), 1);
    assert_eq!(timeout2millis(Duration::new(2, 500_999_999)), 2500);
    assert_eq!(timeout2millis(Duration::from_millis(2_147_483_646)), 2_147_483_646);
    assert_eq!(timeout2millis(Duration::from_millis(2_147_483_647)), i32::MAX);
}

#[test]
fn timeout_millis_saturate_at_the_limit_of_the_host() {
    assert_eq!(timeout2millis(Duration::from_millis(2_147_483_648)), i32::MAX);
    assert_eq!(timeout2millis(Duration::new(u64::MAX, 999_999_999)), i32::MAX);
    assert_eq!(timeout2millis(max_duration()), i32::MAX);
}

#[test]
fn max_duration_is_the_longest_delay_of_the_host() {
    assert_eq!(max_duration(), Duration::from_millis(2_147_483_647));
    assert_eq!(max_duration().as_millis(), 2_147_483_647);
}

#[test]
fn sleep_plan_covers_the_whole_sleep() {
    assert_eq!(sleep_plan(Duration::ZERO), (0, 0));
    assert_eq!(sleep_plan(Duration::from_millis(1500)), (0, 1500));
    assert_eq!(sleep_plan(Duration::from_millis(2_147_483_646)), (0, 2_147_483_646));
    assert_eq!(sleep_plan(Duration::from_millis(2_147_483_647)), (1, 0));
    assert_eq!(sleep_plan(Duration::from_millis(2_147_483_648)), (1, 1));
    assert_eq!(sleep_plan(Duration::from_millis(3 * 2_147_483_647 + 12)), (3, 12));
    let (rounds, rest) = sleep_plan(Duration::new(u64::MAX, 999_999_999));
    assert_eq!(
        rounds * 2_147_483_647 + u128::try_from(rest).unwrap(),
        Duration::new(u64::MAX, 999_999_999).as_millis()
    );
}
