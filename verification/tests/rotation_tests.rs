use chrono::TimeZone;
use spdlog::local_time_cacher::LocalTimeCacher;
use spdlog::record::Timestamp;
use spdlog::rotation::{next_rotation_time_point, RotatorTimePoint};

#[test]
fn calc_file_path() {
    let local = chrono::Local.with_ymd_and_hms(2012, 3, 4, 5, 6, 7).unwrap();
    let mut cacher = LocalTimeCacher::new();
    let td = cacher.get(Timestamp::new(local.timestamp(), 0)).unwrap();

    let calc_date_and_hour = |base_path: &str| spdlog::rotation::calc_file_path(base_path, &td);

    assert_eq!(calc_date_and_hour("/tmp/test.log"), "/tmp/20120304/test_05.log");
    assert_eq!(calc_date_and_hour("/tmp/test"), "/tmp/20120304/test_05");
}

#[test]
fn calc_file_path_edge_names() {
    let local = chrono::Local.with_ymd_and_hms(2012, 3, 4, 5, 6, 7).unwrap();
    let mut cacher = LocalTimeCacher::new();
    let td = cacher.get(Timestamp::new(local.timestamp(), 0)).unwrap();

    // a name that starts with a dot has no extension
    assert_eq!(
        spdlog::rotation::calc_file_path("/var/.hidden", &td),
        "/var/20120304/.hidden_05"
    );
    // a relative path without a directory
    assert_eq!(spdlog::rotation::calc_file_path("test.log", &td), "20120304/test_05.log");
    // several dots: only the last starts the extension
    assert_eq!(
        spdlog::rotation::calc_file_path("/a/b.tar.gz", &td),
        "/a/20120304/b.tar_05.gz"
    );
}

#[test]
fn next_rotation_is_next_whole_hour() {
    assert_eq!(next_rotation_time_point(0), 3600);
    assert_eq!(next_rotation_time_point(1), 3600);
    assert_eq!(next_rotation_time_point(3599), 3600);
    assert_eq!(next_rotation_time_point(3600), 7200);
    assert_eq!(next_rotation_time_point(5000), 7200);
}

#[test]
fn rotation_decisions() {
    let start = Timestamp::new(10_000, 0);
    let mut point = RotatorTimePoint::new(start);
    assert_eq!(point.rotation_time_point, 10_800);

    // within the same hour: no rotation
    assert!(!point.check(Timestamp::new(10_500, 999_999_999)));
    assert_eq!(point.rotation_time_point, 10_800);

    // crossing the hour: rotate and advance
    assert!(point.check(Timestamp::new(10_800, 0)));
    assert_eq!(point.rotation_time_point, 14_400);

    // a jump far forward rotates once and lands in the right hour
    assert!(point.check(Timestamp::new(100_000, 0)));
    assert_eq!(point.rotation_time_point, created_hour_after(100_000));
}

fn created_hour_after(secs: i64) -> i64 {
    (secs / 3600) * 3600 + 3600
}
