use sentry_mcp::error::ResolveError;
use sentry_mcp::progress::{Progress, Request};
use sentry_mcp::settings::{load_settings, required_access_token, SentryMcpSettings, StoredSettings};

fn settings_with(token: &str) -> SentryMcpSettings {
    SentryMcpSettings { sentry_access_token: token.to_string() }
}

#[test]
fn default_settings_have_empty_token() {
    assert_eq!(SentryMcpSettings::default(), settings_with(""));
}

#[test]
fn settings_are_asked_for_first() {
    assert_eq!(
        load_settings(&None),
        Progress::Ask(Request::Settings { server_id: "sentry-mcp".to_string() })
    );
}

#[test]
fn absent_settings_are_the_defaults() {
    assert_eq!(load_settings(&Some(Ok(StoredSettings::Absent))), Progress::Ready(settings_with("")));
}

#[test]
fn decoded_settings_are_kept() {
    let stored = StoredSettings::Decoded(settings_with("sntrys_abc"));
    assert_eq!(load_settings(&Some(Ok(stored))), Progress::Ready(settings_with("sntrys_abc")));
}

#[test]
fn decoded_settings_are_not_trimmed_on_loading() {
    let stored = StoredSettings::Decoded(settings_with("  padded  "));
    assert_eq!(load_settings(&Some(Ok(stored))), Progress::Ready(settings_with("  padded  ")));
}

#[test]
fn malformed_settings_are_rejected() {
    let stored = StoredSettings::Malformed("invalid type: integer `3`, expected a string".to_string());
    let outcome = load_settings(&Some(Ok(stored)));
    assert_eq!(
        outcome,
        Progress::Failed(ResolveError::InvalidSettings {
            detail: "invalid type: integer `3`, expected a string".to_string()
        })
    );
    match outcome {
        Progress::Failed(error) => assert_eq!(
            error.message(),
            "Invalid settings for `sentry-mcp`: invalid type: integer `3`, expected a string"
        ),
        _ => unreachable!(),
    }
}

#[test]
fn settings_fetch_failure_is_passed_on() {
    assert_eq!(
        load_settings(&Some(Err("settings unavailable".to_string()))),
        Progress::Failed(ResolveError::Host { message: "settings unavailable".to_string() })
    );
}

#[test]
fn token_is_trimmed() {
    assert_eq!(required_access_token(&settings_with(" my-token ")), Ok("my-token".to_string()));
}

#[test]
fn trimmed_token_is_unchanged() {
    assert_eq!(required_access_token(&settings_with("my-token")), Ok("my-token".to_string()));
}

#[test]
fn token_keeps_inner_spaces() {
    assert_eq!(required_access_token(&settings_with("\tmy token\n")), Ok("my token".to_string()));
}

#[test]
fn empty_token_is_missing() {
    assert_eq!(required_access_token(&settings_with("")), Err(ResolveError::MissingAccessToken));
}

#[test]
fn whitespace_token_is_missing() {
    assert_eq!(
        required_access_token(&settings_with(" \t\n ")),
        Err(ResolveError::MissingAccessToken)
    );
    assert_eq!(
        required_access_token(&settings_with("\u{a0}\u{2003}")),
        Err(ResolveError::MissingAccessToken)
    );
}

#[test]
fn default_settings_hold_no_token() {
    assert_eq!(
        required_access_token(&SentryMcpSettings::default()),
        Err(ResolveError::MissingAccessToken)
    );
}
