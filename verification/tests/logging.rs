use rand_guard::logging::{directives_are_safe, env_filter_from, log_filter_result};
use tracing_subscriber::EnvFilter;

#[test]
fn builds_default_filter_when_rust_log_is_absent() {
    assert!(env_filter_from(None, "info").is_ok());
    assert!(env_filter_from(Some(""), "debug").is_ok());
    assert!(env_filter_from(Some("   "), "warn").is_ok());
}

#[test]
fn rejects_invalid_default_filter() {
    assert!(env_filter_from(None, "edr_user=notalevel").is_err());
}

#[test]
fn rejects_invalid_filter() {
    assert!(env_filter_from(Some("edr_user=notalevel"), "info").is_err());
}

#[test]
fn blank_environment_value_falls_back_to_the_default() {
    // The blank value is skipped, so the refused default is what fails.
    let err = env_filter_from(Some(" \t "), "edr_user=notalevel").err().expect("refused");
    assert_eq!(err.directives, "edr_user=notalevel");
    // A set value wins over a refused default.
    assert!(env_filter_from(Some("debug"), "edr_user=notalevel").is_ok());
    // An empty default parses.
    assert!(env_filter_from(None, "").is_ok());
}

#[test]
fn refused_directives_are_named_in_the_error() {
    let err = env_filter_from(Some("edr=nope"), "info").err().expect("refused");
    assert_eq!(err.directives, "edr=nope");
    assert!(!err.cause.expect("parser error").to_string().is_empty());
    let parsed = EnvFilter::try_new("x=notalevel");
    let mapped = log_filter_result("x=notalevel", parsed);
    assert_eq!(mapped.err().expect("refused").directives, "x=notalevel");
    assert!(log_filter_result("info", EnvFilter::try_new("info")).is_ok());
}

#[test]
fn directives_that_would_abort_the_parser_are_refused() {
    let err = env_filter_from(Some(" \u{e9}=info"), "info").err().expect("refused");
    assert_eq!(err.directives, " \u{e9}=info");
    assert!(err.cause.is_none());
    let err = env_filter_from(Some("info, \u{e9}=debug"), "info").err().expect("refused");
    assert!(err.cause.is_none());
    let err = env_filter_from(Some("\u{3000}a=info"), "info").err().expect("refused");
    assert!(err.cause.is_none());
    // Leading white space before ASCII only, and non-ASCII without leading
    // white space, go to the parser.
    assert!(env_filter_from(Some("info, debug"), "warn").is_ok());
    assert!(directives_are_safe("\u{e9}=info, warn"));
    assert!(!directives_are_safe(",  x\u{e9}"));
    assert!(directives_are_safe(""));
}
