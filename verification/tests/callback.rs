use eliza_desktop::callback::{
    callback_from_query, emission_outcome, last_value, parse_callback, CallbackError,
    OAuthCallbackData, OAUTH_CALLBACK_EVENT,
};

fn pair(name: &str, value: &str) -> (String, String) {
    (name.to_string(), value.to_string())
}

fn data(code: &str, state: &str) -> OAuthCallbackData {
    OAuthCallbackData { code: code.to_string(), state: state.to_string() }
}

#[test]
fn parses_code_and_state() {
    assert_eq!(
        parse_callback("https://app.test/cb?code=abc&state=xyz"),
        Ok(data("abc", "xyz"))
    );
}

#[test]
fn parses_a_deep_link_with_a_custom_scheme() {
    assert_eq!(
        parse_callback("elizaos://auth/callback?state=s1&code=c1"),
        Ok(data("c1", "s1"))
    );
}

#[test]
fn missing_code_is_reported() {
    assert_eq!(parse_callback("https://app.test/cb?state=xyz"), Err(CallbackError::MissingCode));
}

#[test]
fn missing_state_is_reported() {
    assert_eq!(parse_callback("https://app.test/cb?code=abc"), Err(CallbackError::MissingState));
}

#[test]
fn missing_code_comes_before_missing_state() {
    assert_eq!(parse_callback("https://app.test/cb"), Err(CallbackError::MissingCode));
    assert_eq!(parse_callback("https://app.test/cb?other=1"), Err(CallbackError::MissingCode));
}

#[test]
fn malformed_url_is_reported_with_the_parser_text() {
    assert_eq!(
        parse_callback("not a url"),
        Err(CallbackError::InvalidUrl("relative URL without a base".to_string()))
    );
    assert_eq!(
        parse_callback(""),
        Err(CallbackError::InvalidUrl("relative URL without a base".to_string()))
    );
    assert_eq!(
        parse_callback("https://app.test:99999/cb?code=abc&state=xyz"),
        Err(CallbackError::InvalidUrl("invalid port number".to_string()))
    );
}

#[test]
fn the_three_failures_are_distinct() {
    let malformed = parse_callback("::::").unwrap_err();
    let no_code = parse_callback("https://app.test/cb?state=xyz").unwrap_err();
    let no_state = parse_callback("https://app.test/cb?code=abc").unwrap_err();
    assert!(matches!(malformed, CallbackError::InvalidUrl(_)));
    assert_ne!(malformed, no_code);
    assert_ne!(malformed, no_state);
    assert_ne!(no_code, no_state);
    assert_ne!(malformed.message(), no_code.message());
    assert_ne!(malformed.message(), no_state.message());
    assert_ne!(no_code.message(), no_state.message());
}

#[test]
fn last_value_wins_on_duplicate_names() {
    assert_eq!(
        parse_callback("https://app.test/cb?code=first&state=s&code=second"),
        Ok(data("second", "s"))
    );
    assert_eq!(
        parse_callback("https://app.test/cb?state=a&code=c&state=b&state=z"),
        Ok(data("c", "z"))
    );
}

#[test]
fn query_values_are_decoded() {
    assert_eq!(
        parse_callback("https://app.test/cb?code=a%20b%26c&state=x+y%3D"),
        Ok(data("a b&c", "x y="))
    );
}

#[test]
fn query_names_are_decoded() {
    assert_eq!(
        parse_callback("https://app.test/cb?c%6Fde=abc&st%61te=xyz"),
        Ok(data("abc", "xyz"))
    );
}

#[test]
fn empty_values_are_present() {
    assert_eq!(parse_callback("https://app.test/cb?code=&state"), Ok(data("", "")));
}

#[test]
fn names_are_case_sensitive() {
    assert_eq!(
        parse_callback("https://app.test/cb?Code=abc&state=xyz"),
        Err(CallbackError::MissingCode)
    );
}

#[test]
fn the_fragment_is_no_part_of_the_query() {
    assert_eq!(
        parse_callback("https://app.test/cb?code=abc#state=xyz"),
        Err(CallbackError::MissingState)
    );
}

#[test]
fn state_is_not_checked_against_anything() {
    assert_eq!(
        parse_callback("https://app.test/cb?code=abc&state=anything-at-all"),
        Ok(data("abc", "anything-at-all"))
    );
}

#[test]
fn callback_from_a_parsed_query() {
    let query = vec![pair("state", "xyz"), pair("code", "abc")];
    assert_eq!(callback_from_query(Ok(query)), Ok(data("abc", "xyz")));
}

#[test]
fn callback_from_a_query_without_code() {
    assert_eq!(
        callback_from_query(Ok(vec![pair("state", "xyz")])),
        Err(CallbackError::MissingCode)
    );
    assert_eq!(callback_from_query(Ok(Vec::new())), Err(CallbackError::MissingCode));
}

#[test]
fn callback_from_a_query_without_state() {
    assert_eq!(
        callback_from_query(Ok(vec![pair("code", "abc")])),
        Err(CallbackError::MissingState)
    );
}

#[test]
fn callback_from_a_rejected_text() {
    assert_eq!(
        callback_from_query(Err("empty host".to_string())),
        Err(CallbackError::InvalidUrl("empty host".to_string()))
    );
}

#[test]
fn callback_from_a_query_with_duplicates() {
    let query = vec![pair("code", "1"), pair("state", "a"), pair("code", "2"), pair("state", "b")];
    assert_eq!(callback_from_query(Ok(query)), Ok(data("2", "b")));
}

#[test]
fn last_value_of_a_name() {
    let query = vec![pair("a", "1"), pair("b", "2"), pair("a", "3")];
    assert_eq!(last_value(&query, "a"), Some("3".to_string()));
    assert_eq!(last_value(&query, "b"), Some("2".to_string()));
    assert_eq!(last_value(&query, "c"), None);
    assert_eq!(last_value(&query, ""), None);
    assert_eq!(last_value(&Vec::new(), "a"), None);
}

#[test]
fn error_messages() {
    assert_eq!(
        CallbackError::InvalidUrl("empty host".to_string()).message(),
        "Invalid OAuth callback URL: empty host"
    );
    assert_eq!(CallbackError::MissingCode.message(), "Missing authorization code in callback URL");
    assert_eq!(CallbackError::MissingState.message(), "Missing state parameter in callback URL");
    assert_eq!(
        CallbackError::EmitFailed("window is gone".to_string()).message(),
        "Failed to emit OAuth callback event: window is gone"
    );
}

#[test]
fn message_of_a_malformed_url() {
    assert_eq!(
        parse_callback("https://").unwrap_err().message(),
        "Invalid OAuth callback URL: empty host"
    );
}

#[test]
fn emission_success_is_success() {
    assert_eq!(emission_outcome(Ok(())), Ok(()));
}

#[test]
fn emission_failure_is_an_error_of_the_command() {
    assert_eq!(
        emission_outcome(Err("no webview".to_string())),
        Err(CallbackError::EmitFailed("no webview".to_string()))
    );
}

#[test]
fn event_name() {
    assert_eq!(OAUTH_CALLBACK_EVENT, "oauth-callback");
}
