use chrono::TimeZone;
use spdlog::formatter::Formatter;
use spdlog::full_formatter::FullFormatter;
use spdlog::iso8601_datetime_formatter::CommlibFormatter;
use spdlog::journald_formatter::JournaldFormatter;
use spdlog::level::Level;
use spdlog::local_time_cacher::LocalTimeCacher;
use spdlog::record::{Record, Timestamp};
use spdlog::EOL;

fn local_of(t: Timestamp) -> chrono::DateTime<chrono::Local> {
    chrono::Local.timestamp_opt(t.secs, t.nanos).unwrap()
}

#[test]
fn full_formatter_format() {
    let record = Record::new(Level::Warn, "test log content");
    let mut buf = String::new();
    let mut cacher = LocalTimeCacher::new();
    let extra_info = FullFormatter::new().format(&record, &mut buf, &mut cacher).unwrap();

    let local_time = local_of(record.time());
    assert_eq!(
        format!(
            "[{}] [warn] test log content{}",
            local_time.format("%Y-%m-%d %H:%M:%S.%3f"),
            EOL
        ),
        buf
    );
    assert_eq!(Some((27, 31)), extra_info.style_range());
}

#[test]
fn iso8601_datetime_formatter_format() {
    let record = Record::new(Level::Warn, "test log content");
    let mut buf = String::new();
    let mut cacher = LocalTimeCacher::new();
    let extra_info = CommlibFormatter::new().format(&record, &mut buf, &mut cacher).unwrap();

    let local_time = local_of(record.time());
    // ISO 8601 / RFC 3339 %+: same as %Y-%m-%dT%H:%M:%S.%9f%:z
    assert_eq!(
        format!(
            "[{}] warn: test log content {}{}",
            local_time.format("%Y-%m-%dT%H:%M:%S.%9f%:z"),
            record.tid(),
            EOL
        ),
        buf
    );
    assert_eq!(Some((38, 42)), extra_info.style_range());
}

#[test]
fn full_formatter_with_logger_name() {
    let record = Record::new(Level::Info, "hello, world!").with_logger_name("logger-name");
    let mut buf = String::new();
    let mut cacher = LocalTimeCacher::new();
    let extra_info = FullFormatter::new().format(&record, &mut buf, &mut cacher).unwrap();

    let local_time = local_of(record.time());
    assert_eq!(
        format!(
            "[{}] [logger-name] [info] hello, world!{}",
            local_time.format("%Y-%m-%d %H:%M:%S.%3f"),
            EOL
        ),
        buf
    );
    assert_eq!(Some((41, 45)), extra_info.style_range());
}

#[test]
fn journald_formatter_format() {
    let record = Record::new(Level::Warn, "test log content").with_logger_name("my-logger");
    let mut buf = String::new();
    let mut cacher = LocalTimeCacher::new();
    let extra_info = JournaldFormatter::new().format(&record, &mut buf, &mut cacher).unwrap();
    assert_eq!(format!("[my-logger] [warn] test log content{}", EOL), buf);
    assert_eq!(Some((13, 17)), extra_info.style_range());
}

#[test]
fn format_twice_identical() {
    let record = Record::new(Level::Error, "the same record");
    let formatter = FullFormatter::new();
    let mut cacher = LocalTimeCacher::new();
    let mut first = String::new();
    let mut second = String::new();
    formatter.format(&record, &mut first, &mut cacher).unwrap();
    formatter.format(&record, &mut second, &mut cacher).unwrap();
    assert_eq!(first, second);
}

#[test]
fn without_eol_leaves_line_open() {
    let record = Record::new(Level::Debug, "open line");
    let mut with_eol = String::new();
    let mut without = String::new();
    let mut cacher = LocalTimeCacher::new();
    FullFormatter::new().format(&record, &mut with_eol, &mut cacher).unwrap();
    FullFormatter::without_eol().format(&record, &mut without, &mut cacher).unwrap();
    assert_eq!(format!("{}{}", without, EOL), with_eol);

    let mut with_eol = String::new();
    let mut without = String::new();
    CommlibFormatter::new().format(&record, &mut with_eol, &mut cacher).unwrap();
    CommlibFormatter::without_eol().format(&record, &mut without, &mut cacher).unwrap();
    assert_eq!(format!("{}{}", without, EOL), with_eol);
}

#[test]
fn time_out_of_range_is_rejected() {
    let mut record = Record::new(Level::Warn, "never rendered");
    record.set_time(Timestamp::new(i64::MAX - 10_000, 0));
    let mut buf = String::new();
    let mut cacher = LocalTimeCacher::new();
    let result = FullFormatter::new().format(&record, &mut buf, &mut cacher);
    assert_eq!(result, Err(spdlog::FormatError::TimeOutOfRange));
    assert_eq!(buf, "");
}
