use enturion::log_configuration::{
    appender_str_to_hashmap, hashmap_to_appender, hashmap_to_logger, ConfMap, ConfValue,
};

fn s(x: &str) -> String {
    x.to_string()
}

#[test]
fn missing_kind_is_named() {
    let config = ConfMap::new();
    let e = hashmap_to_appender(&config).expect_err("Expected error");
    assert_eq!(e.to_string(), r#"Missing mandatory config key "type" in appender"#);
}

#[test]
fn unknown_kind_is_named() {
    let mut config = ConfMap::new();
    config.insert(s("type"), ConfValue::Str(s("Socket")));
    let e = hashmap_to_appender(&config).expect_err("Expected error");
    assert_eq!(
        e.to_string(),
        r#"Invalid config value for key "type" in appender. Accepted values are "file" and "console", "socket" passed."#
    );
}

#[test]
fn non_text_kind_is_rejected() {
    let mut config = ConfMap::new();
    config.insert(s("type"), ConfValue::Int(1));
    let e = hashmap_to_appender(&config).expect_err("Expected error");
    assert_eq!(e.to_string(), "Config value is not text");
}

#[test]
fn unknown_console_level_is_rejected() {
    let mut config = ConfMap::new();
    config.insert(s("type"), ConfValue::Str(s("console")));
    config.insert(s("level"), ConfValue::Str(s("LOUD")));
    let e = hashmap_to_appender(&config).expect_err("Expected error");
    assert_eq!(
        e.to_string(),
        "attempted to convert a string that doesn't match an existing log level"
    );
}

#[test]
fn unknown_console_target_is_named() {
    let mut config = ConfMap::new();
    config.insert(s("type"), ConfValue::Str(s("console")));
    config.insert(s("target"), ConfValue::Str(s("Printer")));
    let e = hashmap_to_appender(&config).expect_err("Expected error");
    assert_eq!(
        e.to_string(),
        r#"Invalid target provided. Accepted values are "stdout" and "stderr". "printer" passed."#
    );
}

#[test]
fn non_truth_append_mode_is_rejected() {
    let mut config = ConfMap::new();
    config.insert(s("type"), ConfValue::Str(s("file")));
    config.insert(s("filename"), ConfValue::Str(s("a.log")));
    config.insert(s("append"), ConfValue::Str(s("yes")));
    let e = hashmap_to_appender(&config).expect_err("Expected error");
    assert_eq!(e.to_string(), "Config value is not a truth value");
}

#[test]
fn missing_file_name_is_named() {
    let mut config = ConfMap::new();
    config.insert(s("type"), ConfValue::Str(s("file")));
    let e = hashmap_to_appender(&config).expect_err("Expected error");
    assert_eq!(e.to_string(), "No filename has been provided for appender");
}

#[test]
fn missing_logger_appenders_is_named() {
    let mut config = ConfMap::new();
    config.insert(s("level"), ConfValue::Str(s("INFO")));
    let e = hashmap_to_logger("test", &config).expect_err("Expected error");
    assert_eq!(e.to_string(), "Missing mandatory appenders");
}

#[test]
fn non_list_logger_appenders_is_rejected() {
    let mut config = ConfMap::new();
    config.insert(s("appenders"), ConfValue::Str(s("console")));
    let e = hashmap_to_logger("test", &config).expect_err("Expected error");
    assert_eq!(e.to_string(), "Config value is not a list");
}

#[test]
fn appender_names_are_trimmed_and_lowered() {
    let mut config = ConfMap::new();
    config.insert(s("appenders"), ConfValue::List(vec![s("  Console "), s("AUTH")]));
    let logger = hashmap_to_logger("net", &config).unwrap();
    assert_eq!(logger.appenders, vec![s("console"), s("auth")]);
    assert_eq!(logger.name, "net");
}

#[test]
fn unknown_appender_kind_field_is_named() {
    let e = appender_str_to_hashmap("9", None).expect_err("Expected error");
    assert_eq!(e.to_string(), "Invalid appender type 9");

    let e = appender_str_to_hashmap("", None).expect_err("Expected error");
    assert_eq!(e.to_string(), "Invalid appender type ");
}
