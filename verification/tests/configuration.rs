use enturion::log_configuration::{
    appender_str_to_hashmap, hashmap_to_appender, hashmap_to_logger, logger_str_to_hashmap,
    ConfMap, ConfValue,
};

fn s(x: &str) -> String {
    x.to_string()
}

fn map_of(entries: Vec<(&str, ConfValue)>) -> ConfMap {
    let mut m = ConfMap::new();
    for (k, v) in entries {
        m.insert(s(k), v);
    }
    m
}

#[test]
pub fn simple_hashmap_to_appender() {
    let config = map_of(vec![("type", ConfValue::Str(s("console")))]);
    assert!(hashmap_to_appender(&config).is_ok());

    let config = map_of(vec![
        ("type", ConfValue::Str(s("file"))),
        ("filename", ConfValue::Str(s("log_file.log"))),
    ]);
    assert!(hashmap_to_appender(&config).is_ok());

    let config = map_of(vec![("not_even_an_option", ConfValue::Str(s("it's a trap!")))]);
    assert!(hashmap_to_appender(&config).is_err());

    let config = map_of(vec![("type", ConfValue::Str(s("it's a trap!")))]);
    assert!(hashmap_to_appender(&config).is_err());
}

#[test]
pub fn appender_console_simple_str_to_hashmap() {
    let map = appender_str_to_hashmap("1,3,,e", None).unwrap();
    assert_eq!(
        map,
        map_of(vec![
            ("type", ConfValue::Str(s("console"))),
            ("level", ConfValue::Str(s("INFO"))),
            ("color_map", ConfValue::Table(vec![])),
            ("target", ConfValue::Str(s("stderr"))),
        ])
    );

    let map = appender_str_to_hashmap("1", None).unwrap();
    assert_eq!(
        map,
        map_of(vec![
            ("type", ConfValue::Str(s("console"))),
            ("level", ConfValue::Str(s("DEBUG"))),
            ("target", ConfValue::Str(s("stdout"))),
        ])
    );

    let map = appender_str_to_hashmap("1,warn", None).unwrap();
    assert_eq!(
        map,
        map_of(vec![
            ("type", ConfValue::Str(s("console"))),
            ("level", ConfValue::Str(s("WARN"))),
            ("target", ConfValue::Str(s("stdout"))),
        ])
    );

    let map = appender_str_to_hashmap("1,trace,9 11 12 5 2,o", None).unwrap();
    assert_eq!(
        map,
        map_of(vec![
            ("type", ConfValue::Str(s("console"))),
            ("level", ConfValue::Str(s("TRACE"))),
            (
                "color_map",
                ConfValue::Table(vec![
                    (s("ERROR"), 9),
                    (s("WARN"), 11),
                    (s("INFO"), 12),
                    (s("DEBUG"), 5),
                    (s("TRACE"), 2),
                ])
            ),
            ("target", ConfValue::Str(s("stdout"))),
        ])
    );

    let e = appender_str_to_hashmap("1,12", None).expect_err("Expected error");
    assert_eq!(e.to_string(), r#"Invalid level "12" specified"#);

    let e = appender_str_to_hashmap("1,not_a_level", None).expect_err("Expected error");
    assert_eq!(e.to_string(), r#"Invalid level "not_a_level" specified"#);

    let e = appender_str_to_hashmap("1,2,,x", None).expect_err("Expected error");
    assert_eq!(e.to_string(), r#"Invalid target "x""#);
}

#[test]
pub fn appender_file_simple_str_to_hashmap() {
    let map = appender_str_to_hashmap("2,error,file_error.log", None).unwrap();
    assert_eq!(
        map,
        map_of(vec![
            ("type", ConfValue::Str(s("file"))),
            ("level", ConfValue::Str(s("ERROR"))),
            ("filename", ConfValue::Str(s("file_error.log"))),
            ("append", ConfValue::Bool(true)),
        ])
    );

    let map = appender_str_to_hashmap("2,4,file_error.log,w", None).unwrap();
    assert_eq!(
        map,
        map_of(vec![
            ("type", ConfValue::Str(s("file"))),
            ("level", ConfValue::Str(s("WARN"))),
            ("filename", ConfValue::Str(s("file_error.log"))),
            ("append", ConfValue::Bool(false)),
        ])
    );

    let map = appender_str_to_hashmap("2,4,file_error.log,w,1024000", None).unwrap();
    assert_eq!(
        map,
        map_of(vec![
            ("type", ConfValue::Str(s("file"))),
            ("level", ConfValue::Str(s("WARN"))),
            ("filename", ConfValue::Str(s("file_error.log"))),
            ("append", ConfValue::Bool(false)),
            ("max_file_size", ConfValue::Int(1024000)),
        ])
    );

    let e = appender_str_to_hashmap("2,2", None).expect_err("Expected error");
    assert_eq!(e.to_string(), r#"No filename has been specified"#);

    let e = appender_str_to_hashmap("2,2,file.log,x", None).expect_err("Expected error");
    assert_eq!(e.to_string(), r#"Invalid file mode "x" specified"#);

    let e = appender_str_to_hashmap("2,12,file.log", None).expect_err("Expected error");
    assert_eq!(e.to_string(), r#"Invalid level "12" specified"#);

    let e = appender_str_to_hashmap("2,not_a_level,file.log", None).expect_err("Expected error");
    assert_eq!(e.to_string(), r#"Invalid level "not_a_level" specified"#);
}

#[test]
pub fn simple_hashmap_to_logger() {
    let config = map_of(vec![("appenders", ConfValue::List(vec![s("console")]))]);
    assert!(hashmap_to_logger("test", &config).is_ok());

    let config = map_of(vec![
        ("level", ConfValue::Str(s("DEBUG"))),
        ("appenders", ConfValue::List(vec![s("console")])),
    ]);
    assert!(hashmap_to_logger("test", &config).is_ok());

    let config = map_of(vec![("not_even_an_option", ConfValue::Str(s("it's a trap!")))]);
    assert!(hashmap_to_logger("test", &config).is_err());

    let config = map_of(vec![("level", ConfValue::Str(s("it's a trap!")))]);
    assert!(hashmap_to_logger("test", &config).is_err());

    let config = map_of(vec![("appenders", ConfValue::List(vec![]))]);
    assert!(hashmap_to_logger("test", &config).is_err());
}

#[test]
pub fn logger_simple_str_to_hashmap() {
    let e = logger_str_to_hashmap("12", None).expect_err("Expected error");
    assert_eq!(e.to_string(), r#"Invalid level "12" specified"#);

    let e = logger_str_to_hashmap("not_a_level", None).expect_err("Expected error");
    assert_eq!(e.to_string(), r#"Invalid level "not_a_level" specified"#);

    let e = logger_str_to_hashmap("2", None).expect_err("Expected error");
    assert_eq!(e.to_string(), "Appender list is empty");

    let e = logger_str_to_hashmap("2,", None).expect_err("Expected error");
    assert_eq!(e.to_string(), "Appender list is empty");

    let map = logger_str_to_hashmap("3,Console Auth", None).unwrap();
    assert_eq!(
        map,
        map_of(vec![
            ("level", ConfValue::Str(s("INFO"))),
            ("appenders", ConfValue::List(vec![s("console"), s("auth")])),
        ])
    );
}
