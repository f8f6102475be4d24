use enturion::banner::get_banner;
use enturion::level::{Level, LevelFilter};
use enturion::log_configuration::{
    hashmap_to_appender, AppenderConfig, ConfMap, ConfValue, FilePolicy,
};
use enturion::log_console::{ConsoleAppender, Target};
use enturion::log_mgr::{LogMgr, SectionValue};

fn s(x: &str) -> String {
    x.to_string()
}

#[test]
fn level_names_parse_case_insensitively() {
    assert_eq!(Level::from_str("WaRn"), Some(Level::Warn));
    assert_eq!(Level::from_str("error"), Some(Level::Error));
    assert_eq!(Level::from_str("TRACE"), Some(Level::Trace));
    assert_eq!(Level::from_str("off"), None);
    assert_eq!(Level::from_str("12"), None);

    assert_eq!(LevelFilter::from_str("OFF"), Some(LevelFilter::Off));
    assert_eq!(LevelFilter::from_str("info"), Some(LevelFilter::Info));
    assert_eq!(LevelFilter::from_str("nope"), None);
}

#[test]
fn write_codes_map_to_levels() {
    assert_eq!(Level::from_code(1), Some(Level::Trace));
    assert_eq!(Level::from_code(2), Some(Level::Debug));
    assert_eq!(Level::from_code(3), Some(Level::Info));
    assert_eq!(Level::from_code(4), Some(Level::Warn));
    assert_eq!(Level::from_code(5), Some(Level::Error));
    assert_eq!(Level::from_code(0), None);
    assert_eq!(Level::from_code(6), None);
}

#[test]
fn console_appender_writes_by_threshold_and_styles_by_last_assignment() {
    let appender = ConsoleAppender::builder()
        .log_level(Level::Warn)
        .target(Target::Stderr)
        .set_level_style(Level::Error, 9)
        .set_level_style(Level::Error, 10)
        .build(true);
    assert!(appender.should_write(Level::Error));
    assert!(appender.should_write(Level::Warn));
    assert!(!appender.should_write(Level::Info));
    assert_eq!(appender.style_for(Level::Error), Some(10));
    assert_eq!(appender.style_for(Level::Warn), None);

    // Terminal-only output stays silent without a terminal.
    let silent = ConsoleAppender::builder().tty_only(true).build(false);
    assert!(!silent.should_write(Level::Error));
}

#[test]
fn file_appender_rolls_by_size_with_a_numbered_pattern() {
    let mut config = ConfMap::new();
    config.insert(s("type"), ConfValue::Str(s("file")));
    config.insert(s("filename"), ConfValue::Str(s("logs/file_error.log")));
    config.insert(s("max_file_size"), ConfValue::Int(1024000));
    let built = hashmap_to_appender(&config).unwrap();
    match built {
        AppenderConfig::File(f) => {
            assert_eq!(f.filename, "logs/file_error.log");
            assert!(f.append);
            assert_eq!(
                f.policy,
                FilePolicy::SizeRolled {
                    trigger: 1024000,
                    pattern: s("file_error.{}.log"),
                    window: 10,
                }
            );
        },
        AppenderConfig::Console(_) => panic!("a file section must build a file appender"),
    }

    // A negative size bound rolls nothing.
    let mut config = ConfMap::new();
    config.insert(s("type"), ConfValue::Str(s("file")));
    config.insert(s("filename"), ConfValue::Str(s("file.log")));
    config.insert(s("max_file_size"), ConfValue::Int(-5));
    match hashmap_to_appender(&config).unwrap() {
        AppenderConfig::File(f) => assert_eq!(f.policy, FilePolicy::Nop),
        AppenderConfig::Console(_) => panic!("a file section must build a file appender"),
    }

    // A name without a last component cannot be rolled.
    let mut config = ConfMap::new();
    config.insert(s("type"), ConfValue::Str(s("file")));
    config.insert(s("filename"), ConfValue::Str(s("..")));
    config.insert(s("max_file_size"), ConfValue::Int(1));
    let e = hashmap_to_appender(&config).expect_err("Expected error");
    assert_eq!(e.to_string(), "Invalid filename provided");
}

#[test]
fn log_manager_assembles_sections_and_keeps_rejections_aside() {
    let appender_section = vec![
        (s("console"), SectionValue::Text(s("1,3"))),
        (s("broken"), SectionValue::Text(s("9,3"))),
        (s("ignored"), SectionValue::Other),
    ];
    let logger_section = vec![
        (s("root"), SectionValue::Text(s("3,console"))),
        (s("net"), SectionValue::Text(s("4,console"))),
        (s("bad"), SectionValue::Text(s("12"))),
    ];
    let mgr = LogMgr::new(&appender_section, &logger_section);

    assert_eq!(mgr.appenders.len(), 1);
    assert_eq!(mgr.appenders[0].0, "console");
    assert!(matches!(mgr.appenders[0].1, AppenderConfig::Console(_)));

    assert_eq!(mgr.loggers.len(), 1);
    assert_eq!(mgr.loggers[0].name, "net");
    assert_eq!(mgr.loggers[0].level, LevelFilter::Warn);
    assert_eq!(mgr.loggers[0].appenders, vec![s("console")]);

    assert_eq!(mgr.root.level, LevelFilter::Info);
    assert_eq!(mgr.root.appenders, vec![s("console")]);

    assert_eq!(mgr.skipped.len(), 2);
    assert_eq!(mgr.skipped[0].0, "broken");
    assert_eq!(mgr.skipped[0].1.to_string(), "Invalid appender type 9");
    assert_eq!(mgr.skipped[1].0, "bad");
    assert_eq!(mgr.skipped[1].1.to_string(), r#"Invalid level "12" specified"#);
}

#[test]
fn log_manager_defaults_its_root() {
    let mgr = LogMgr::new(&vec![], &vec![]);
    assert_eq!(mgr.root.level, LevelFilter::Warn);
    assert!(mgr.root.appenders.is_empty());
    assert!(mgr.appenders.is_empty());
    assert!(mgr.loggers.is_empty());
    assert!(mgr.skipped.is_empty());
}

#[test]
fn write_entry_decodes_levels_and_rescopes_targets() {
    let mgr = LogMgr::new(&vec![], &vec![]);

    let w = mgr.LogMgr_Write("server.loading", 3, "ready").unwrap();
    assert_eq!(w.level, Level::Info);
    assert_eq!(w.target, "server::loading");
    assert_eq!(w.message, "ready");
    assert!(w.flush);

    let w = mgr.LogMgr_Write("session", 1, "hello").unwrap();
    assert_eq!(w.level, Level::Trace);
    assert_eq!(w.target, "session");
    assert!(!w.flush);

    assert!(mgr.LogMgr_Write("session", 0, "x").is_none());
    assert!(mgr.LogMgr_Write("session", 6, "x").is_none());
}

#[test]
fn banner_is_available() {
    let banner = get_banner();
    assert!(!banner.is_empty());
    assert!(banner.contains("__"));
}
