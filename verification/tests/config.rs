use node_info_aggregator::config::{
    get_level_filter, get_log_format, Args, LevelFilter, LogFormat, DEFAULT_LOG_FORMAT,
    DEFAULT_LOG_LEVEL, DEFAULT_NAMESPACE, DEFAULT_PORT, DEFAULT_TIMEOUT,
};

#[test]
fn default_configuration_is_the_documented_one() {
    let args = Args::default();
    assert_eq!(args.port, 8000);
    assert_eq!(args.namespace, "default");
    assert_eq!(args.log_level, "info");
    assert_eq!(args.log_format, "info");
    assert_eq!(args.timeout, 5);
    assert_eq!(DEFAULT_PORT, 8000);
    assert_eq!(DEFAULT_NAMESPACE, "default");
    assert_eq!(DEFAULT_LOG_LEVEL, "info");
    assert_eq!(DEFAULT_LOG_FORMAT, "info");
    assert_eq!(DEFAULT_TIMEOUT, 5);
}

#[test]
fn each_level_name_gives_its_level() {
    assert_eq!(get_level_filter("error"), LevelFilter::Error);
    assert_eq!(get_level_filter("warn"), LevelFilter::Warn);
    assert_eq!(get_level_filter("info"), LevelFilter::Info);
    assert_eq!(get_level_filter("debug"), LevelFilter::Debug);
    assert_eq!(get_level_filter("trace"), LevelFilter::Trace);
}

#[test]
fn unknown_level_name_gives_info() {
    assert_eq!(get_level_filter(""), LevelFilter::Info);
    assert_eq!(get_level_filter("DEBUG"), LevelFilter::Info);
    assert_eq!(get_level_filter("Error"), LevelFilter::Info);
    assert_eq!(get_level_filter("warning"), LevelFilter::Info);
    assert_eq!(get_level_filter("trace "), LevelFilter::Info);
    assert_eq!(get_level_filter("off"), LevelFilter::Info);
}

#[test]
fn default_level_name_gives_info() {
    assert_eq!(get_level_filter(&Args::default().log_level), LevelFilter::Info);
}

#[test]
fn log_format_is_json_or_info() {
    assert_eq!(get_log_format("json"), Some(LogFormat::Json));
    assert_eq!(get_log_format("info"), Some(LogFormat::Info));
    assert_eq!(get_log_format(&Args::default().log_format), Some(LogFormat::Info));
}

#[test]
fn other_log_format_is_none() {
    assert_eq!(get_log_format(""), None);
    assert_eq!(get_log_format("JSON"), None);
    assert_eq!(get_log_format("text"), None);
    assert_eq!(get_log_format("json "), None);
}
