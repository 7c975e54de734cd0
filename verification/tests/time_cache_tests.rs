use chrono::TimeZone;
use spdlog::local_time_cacher::LocalTimeCacher;
use spdlog::record::Timestamp;

#[test]
fn same_second_reads_agree() {
    let local = chrono::Local.with_ymd_and_hms(2012, 3, 4, 5, 6, 7).unwrap();
    let secs = local.timestamp();
    let mut cacher = LocalTimeCacher::new();
    let a = cacher.get(Timestamp::new(secs, 1_000)).unwrap();
    let b = cacher.get(Timestamp::new(secs, 999_999_999)).unwrap();

    assert_eq!(a.full_second_str(), b.full_second_str());
    assert_eq!(a.full_second_str(), "2012-03-04 05:06:07");
    assert_eq!(a.year_str(), b.year_str());
    assert_eq!(a.month_str(), b.month_str());
    assert_eq!(a.day_str(), b.day_str());
    assert_eq!(a.hour_str(), b.hour_str());
    assert_eq!(a.minute_str(), b.minute_str());
    assert_eq!(a.second_str(), b.second_str());
    assert_eq!(a.tz_offset_str(), b.tz_offset_str());
    assert_eq!(a.unix_timestamp_str(), b.unix_timestamp_str());
    assert_eq!(a.weekday_name_short(), b.weekday_name_short());
    // only the subsecond part differs
    assert_eq!(a.nanosecond(), 1_000);
    assert_eq!(b.nanosecond(), 999_999_999);
}

#[test]
fn second_boundary_rolls_over() {
    let local = chrono::Local.with_ymd_and_hms(2012, 12, 31, 23, 59, 59).unwrap();
    let secs = local.timestamp();
    let mut cacher = LocalTimeCacher::new();

    let before = cacher.get(Timestamp::new(secs, 500)).unwrap();
    assert_eq!(before.full_second_str(), "2012-12-31 23:59:59");

    let after = cacher.get(Timestamp::new(secs + 1, 0)).unwrap();
    assert_eq!(after.full_second_str(), "2013-01-01 00:00:00");

    // a backward jump across the boundary must refresh the cache again
    let back = cacher.get(Timestamp::new(secs, 0)).unwrap();
    assert_eq!(back.full_second_str(), "2012-12-31 23:59:59");
}

#[test]
fn out_of_range_fails_gracefully() {
    let mut cacher = LocalTimeCacher::new();
    let result = cacher.get(Timestamp::new(i64::MAX - 10_000, 0));
    assert!(result.is_err());
}

#[test]
fn twelve_hour_clock() {
    let mut cacher = LocalTimeCacher::new();
    let cases: [(u32, &str, &str); 5] = [
        (0, "12", "AM"),
        (1, "01", "AM"),
        (11, "11", "AM"),
        (12, "12", "PM"),
        (23, "11", "PM"),
    ];
    for (hour, hour12, am_pm) in cases {
        let local = chrono::Local.with_ymd_and_hms(2020, 6, 15, hour, 0, 0).unwrap();
        let td = cacher.get(Timestamp::new(local.timestamp(), 0)).unwrap();
        assert_eq!(td.hour12_str(), hour12);
        assert_eq!(td.am_pm_str(), am_pm);
    }
}
