use sidebar_os::logging::{
    level_from_lowercase, parse_log_level, webview_log_entry, LogLevel, WEBVIEW_TARGET,
};

#[test]
fn lowercase_names_map_to_their_level() {
    assert_eq!(level_from_lowercase("error"), LogLevel::Error);
    assert_eq!(level_from_lowercase("warn"), LogLevel::Warn);
    assert_eq!(level_from_lowercase("debug"), LogLevel::Debug);
    assert_eq!(level_from_lowercase("trace"), LogLevel::Trace);
    assert_eq!(level_from_lowercase("info"), LogLevel::Info);
}

#[test]
fn unknown_names_mean_info() {
    assert_eq!(level_from_lowercase(""), LogLevel::Info);
    assert_eq!(level_from_lowercase("warning"), LogLevel::Info);
    assert_eq!(level_from_lowercase("verbose"), LogLevel::Info);
    assert_eq!(level_from_lowercase(" error"), LogLevel::Info);
    assert_eq!(level_from_lowercase("ERROR"), LogLevel::Info);
}

#[test]
fn level_names_are_read_in_any_case() {
    assert_eq!(parse_log_level("ERROR"), LogLevel::Error);
    assert_eq!(parse_log_level("Warn"), LogLevel::Warn);
    assert_eq!(parse_log_level("dEbUg"), LogLevel::Debug);
    assert_eq!(parse_log_level("TRACE"), LogLevel::Trace);
    assert_eq!(parse_log_level("INFO"), LogLevel::Info);
    assert_eq!(parse_log_level("error"), LogLevel::Error);
    assert_eq!(parse_log_level("Fatal"), LogLevel::Info);
}

#[test]
fn level_names_are_not_trimmed() {
    assert_eq!(parse_log_level(" error "), LogLevel::Info);
}

#[test]
fn entry_message_loses_surrounding_whitespace() {
    let entry = webview_log_entry("WARN", "  bridge ready \n");
    assert_eq!(entry.level, LogLevel::Warn);
    assert_eq!(entry.message, "bridge ready");
}

#[test]
fn entry_message_keeps_inner_whitespace() {
    let entry = webview_log_entry("other", "\t a  b \u{a0}");
    assert_eq!(entry.level, LogLevel::Info);
    assert_eq!(entry.message, "a  b");
    let empty = webview_log_entry("trace", "   ");
    assert_eq!(empty.level, LogLevel::Trace);
    assert_eq!(empty.message, "");
}

#[test]
fn webview_target_name() {
    assert_eq!(WEBVIEW_TARGET, "webview");
}
