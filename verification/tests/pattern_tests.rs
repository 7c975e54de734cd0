use chrono::TimeZone;
use spdlog::error::TemplateError;
use spdlog::formatter::Formatter;
use spdlog::level::Level;
use spdlog::local_time_cacher::LocalTimeCacher;
use spdlog::pattern::datetime::Year;
use spdlog::pattern::level::ShortLevel;
use spdlog::pattern::payload::Payload;
use spdlog::pattern_formatter::{Pattern, PatternContext, PatternFormatter};
use spdlog::record::{Record, SourceLocation, Timestamp};

// 2012-03-04 05:06:07 in the local calendar (a Sunday), with 8 ms of
// subsecond time.
fn fixed_record() -> Record {
    let local = chrono::Local.with_ymd_and_hms(2012, 3, 4, 5, 6, 7).unwrap();
    let mut record = Record::new(Level::Warn, "test log content").with_tid(42);
    record.set_time(Timestamp::new(local.timestamp(), 8_000_000));
    record
}

fn render(template: &str, record: &Record) -> String {
    let formatter = PatternFormatter::new(template).unwrap();
    let mut buf = String::new();
    let mut cacher = LocalTimeCacher::new();
    formatter.format(record, &mut buf, &mut cacher).unwrap();
    buf
}

#[test]
fn date_fields_render_exactly() {
    let record = fixed_record();
    assert_eq!(render("{year}", &record), "2012");
    assert_eq!(render("{year_short}", &record), "12");
    assert_eq!(render("{month}", &record), "03");
    assert_eq!(render("{day}", &record), "04");
    assert_eq!(render("{date}", &record), "2012-03-04");
    assert_eq!(render("{date_short}", &record), "03/04/12");
    assert_eq!(render("{weekday_name}", &record), "Sun");
    assert_eq!(render("{weekday_name_full}", &record), "Sunday");
    assert_eq!(render("{month_name}", &record), "Mar");
    assert_eq!(render("{month_name_full}", &record), "March");
    assert_eq!(render("{datetime}", &record), "Sun Mar 04 05:06:07 2012");
}

#[test]
fn time_fields_render_exactly() {
    let record = fixed_record();
    assert_eq!(render("{hour}", &record), "05");
    assert_eq!(render("{hour_12}", &record), "05");
    assert_eq!(render("{minute}", &record), "06");
    assert_eq!(render("{second}", &record), "07");
    assert_eq!(render("{am_pm}", &record), "AM");
    assert_eq!(render("{time}", &record), "05:06:07");
    assert_eq!(render("{time_short}", &record), "05:06");
    assert_eq!(render("{time_12}", &record), "05:06:07 AM");
    assert_eq!(render("{millisecond}", &record), "008");
    assert_eq!(render("{microsecond}", &record), "008000");
    assert_eq!(render("{nanosecond}", &record), "008000000");
    assert_eq!(
        render("{unix_timestamp}", &record),
        format!("{}", record.time().secs)
    );
    let local = chrono::Local.timestamp_opt(record.time().secs, 0).unwrap();
    assert_eq!(render("{tz_offset}", &record), local.format("%:z").to_string());
}

#[test]
fn record_fields_render_exactly() {
    let record = fixed_record();
    assert_eq!(render("{level}", &record), "warn");
    assert_eq!(render("{level_short}", &record), "W");
    assert_eq!(render("{payload}", &record), "test log content");
    assert_eq!(render("{logger}", &record), "");
    assert_eq!(render("{tid}", &record), "42");
    assert_eq!(render("{eol}", &record), spdlog::EOL);

    let named = record.clone().with_logger_name("my-logger");
    assert_eq!(render("{logger}", &named), "my-logger");
}

#[test]
fn source_location_fields_render_exactly() {
    let record = fixed_record();
    assert_eq!(render("{source}", &record), "");
    assert_eq!(render("{file_name}", &record), "");
    assert_eq!(render("{file}", &record), "");
    assert_eq!(render("{line}", &record), "");
    assert_eq!(render("{column}", &record), "");
    assert_eq!(render("{module}", &record), "");

    let located = record.with_source_location(SourceLocation::new(
        "the_mod::path",
        "src/dir/main.rs",
        30,
        12,
    ));
    assert_eq!(render("{source}", &located), "src/dir/main.rs:30");
    assert_eq!(render("{file_name}", &located), "main.rs");
    assert_eq!(render("{file}", &located), "src/dir/main.rs");
    assert_eq!(render("{line}", &located), "30");
    assert_eq!(render("{column}", &located), "12");
    assert_eq!(render("{module}", &located), "the_mod::path");
}

#[test]
fn literal_runs_and_escapes() {
    let record = fixed_record();
    assert_eq!(render("", &record), "");
    assert_eq!(render("plain text", &record), "plain text");
    assert_eq!(render("{{literal}}", &record), "{literal}");
    assert_eq!(
        render("[{time}] {payload}", &record),
        "[05:06:07] test log content"
    );
}

#[test]
fn unknown_field_is_named() {
    let err = PatternFormatter::new("{unknown_field}").unwrap_err();
    match err {
        TemplateError::UnknownField { name, pos } => {
            assert_eq!(name, "unknown_field");
            assert_eq!(pos, 0);
        }
        other => panic!("unexpected error {:?}", other),
    }
}

#[test]
fn malformed_templates_are_refused() {
    assert!(matches!(
        PatternFormatter::new("}"),
        Err(TemplateError::Malformed { pos: 0 })
    ));
    assert!(matches!(
        PatternFormatter::new("abc{"),
        Err(TemplateError::Malformed { pos: 3 })
    ));
    assert!(matches!(
        PatternFormatter::new("{year"),
        Err(TemplateError::Malformed { pos: 0 })
    ));
    assert!(matches!(
        PatternFormatter::new("{^{level}"),
        Err(TemplateError::Malformed { pos: 0 })
    ));
    assert!(matches!(
        PatternFormatter::new("{^a{^b}}"),
        Err(TemplateError::NestedStyle { .. })
    ));
    assert!(matches!(
        PatternFormatter::new("{^{level}}{^{payload}}"),
        Err(TemplateError::SecondStyle { .. })
    ));
}

#[test]
fn styled_span_reports_range() {
    let record = fixed_record();
    let formatter = PatternFormatter::new("{^{level}}").unwrap();
    let mut buf = String::new();
    let mut cacher = LocalTimeCacher::new();
    let info = formatter.format(&record, &mut buf, &mut cacher).unwrap();
    assert_eq!(buf, "warn");
    assert_eq!(info.style_range(), Some((0, 4)));

    let formatter = PatternFormatter::new("<{^[{level}]}> {payload}").unwrap();
    let mut buf = String::new();
    let info = formatter.format(&record, &mut buf, &mut cacher).unwrap();
    assert_eq!(buf, "<[warn]> test log content");
    assert_eq!(info.style_range(), Some((1, 7)));

    let formatter = PatternFormatter::new("{level}").unwrap();
    let mut buf = String::new();
    let info = formatter.format(&record, &mut buf, &mut cacher).unwrap();
    assert_eq!(buf, "warn");
    assert_eq!(info.style_range(), None);

    // escaped braces inside the styled span belong to it
    let formatter = PatternFormatter::new("{^a}}b}").unwrap();
    let mut buf = String::new();
    let info = formatter.format(&record, &mut buf, &mut cacher).unwrap();
    assert_eq!(buf, "a}b");
    assert_eq!(info.style_range(), Some((0, 3)));
}

#[test]
fn pattern_items_format_directly() {
    let record = fixed_record();
    let mut cacher = LocalTimeCacher::new();

    let mut buf = String::new();
    let mut ctx = PatternContext::new();
    (Year {}).format(&record, &mut buf, &mut ctx, &mut cacher).unwrap();
    (ShortLevel {}).format(&record, &mut buf, &mut ctx, &mut cacher).unwrap();
    (Payload {}).format(&record, &mut buf, &mut ctx, &mut cacher).unwrap();
    assert_eq!(buf, "2012Wtest log content");
    assert_eq!(ctx.style_range, None);
}

#[test]
fn duplicates_render_identically() {
    let record = fixed_record();
    let original = PatternFormatter::new("[{date} {time}.{millisecond}] {level}: {payload}{eol}")
        .unwrap();
    let copy_a = original.duplicate();
    let copy_b = original.duplicate();

    let mut cacher = LocalTimeCacher::new();
    let mut reference = String::new();
    original.format(&record, &mut reference, &mut cacher).unwrap();

    for copy in [&copy_a, &copy_b] {
        for _ in 0..3 {
            let mut buf = String::new();
            let mut own_cacher = LocalTimeCacher::new();
            copy.format(&record, &mut buf, &mut own_cacher).unwrap();
            assert_eq!(buf, reference);
        }
    }
}
