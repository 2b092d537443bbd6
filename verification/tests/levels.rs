use telemetrio::Level;
use telemetrio::parse_level;
use telemetrio::resolve_level;

#[test]
fn parse_each_severity_word() {
    assert_eq!(parse_level("trace"), Some(Level::Trace));
    assert_eq!(parse_level("debug"), Some(Level::Debug));
    assert_eq!(parse_level("info"), Some(Level::Info));
    assert_eq!(parse_level("warn"), Some(Level::Warn));
    assert_eq!(parse_level("error"), Some(Level::Error));
}

#[test]
fn parse_rejects_other_expressions() {
    assert_eq!(parse_level(""), None);
    assert_eq!(parse_level("INFO"), None);
    assert_eq!(parse_level("verbose"), None);
    assert_eq!(parse_level("info,warn"), None);
}

#[test]
fn invalid_expression_falls_back_to_default() {
    assert_eq!(resolve_level("not a level", Level::Info), Level::Info);
    assert_eq!(resolve_level("", Level::Warn), Level::Warn);
    assert_eq!(resolve_level("warn", Level::Info), Level::Warn);
}

#[test]
fn severity_order_at_info() {
    assert!(!Level::Trace.passes(Level::Info));
    assert!(!Level::Debug.passes(Level::Info));
    assert!(Level::Info.passes(Level::Info));
    assert!(Level::Warn.passes(Level::Info));
    assert!(Level::Error.passes(Level::Info));
}
