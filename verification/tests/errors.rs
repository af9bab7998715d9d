use gateway_auth::error::RestError;
use gateway_auth::queries::{ExplainFormat, Formats, QueriesFormat};
use gateway_auth::store::{check_writable, is_canonical};
use gateway_auth::text::{str_eq, to_chars};

#[test]
fn error_messages() {
    assert_eq!(RestError::BadStatusCode.message(), "{\"error\": \"Bad status code\"}");
    assert_eq!(RestError::KeySourceUnavailable.message(), "{\"error\": \"Key source unavailable\"}");
    assert_eq!(RestError::MalformedToken.message(), "{\"error\": \"Malformed token\"}");
    assert_eq!(RestError::UnknownKey.message(), "{\"error\": \"Unknown key\"}");
    assert_eq!(RestError::UnsupportedAlgorithm.message(), "{\"error\": \"Unsupported algorithm\"}");
    assert_eq!(RestError::InvalidToken.message(), "{\"error\": \"Unable to decode JWT\"}");
    assert_eq!(RestError::UnauthorizedClient.message(), "{\"error\": \"Unauthorized\"}");
    assert_eq!(RestError::ReadOnly.message(), "{\"error\": \"Readonly cluster\"}");
}

#[test]
fn error_status_codes() {
    assert_eq!(RestError::ReadOnly.status_code(), 403);
    assert_eq!(RestError::UnauthorizedClient.status_code(), 403);
    for e in [
        RestError::BadStatusCode,
        RestError::KeySourceUnavailable,
        RestError::MalformedToken,
        RestError::UnknownKey,
        RestError::UnsupportedAlgorithm,
        RestError::InvalidToken,
    ] {
        assert_eq!(e.status_code(), 500);
    }
}

#[test]
fn query_defaults() {
    assert_eq!(Formats::default(), Formats::Json);
    assert_eq!(QueriesFormat::default().format, Some(Formats::Json));
    let explain = ExplainFormat::default();
    assert_eq!(explain.format, Some(Formats::Json));
    assert_eq!(explain.verbosity, Some("allPlansExecution".to_string()));
}

#[test]
fn str_eq_compares_text() {
    assert!(str_eq("", ""));
    assert!(str_eq("role", "role"));
    assert!(!str_eq("role", "rule"));
    assert!(!str_eq("role", "roles"));
    assert!(!str_eq("roles", "role"));
    assert!(str_eq("données", "données"));
    assert!(!str_eq("données", "donnees"));
}

#[test]
fn to_chars_lists_the_characters() {
    assert_eq!(to_chars(""), Vec::<char>::new());
    assert_eq!(to_chars("a:b"), vec!['a', ':', 'b']);
    assert_eq!(to_chars("né"), vec!['n', 'é']);
}

#[test]
fn read_only_deployment_refuses_changes() {
    assert_eq!(check_writable(true, true), Err(RestError::ReadOnly));
    assert_eq!(check_writable(true, false), Ok(()));
    assert_eq!(check_writable(false, true), Ok(()));
    assert_eq!(check_writable(false, false), Ok(()));
}

#[test]
fn canonical_json_only_on_request() {
    assert!(is_canonical(&Some(Formats::Ejson)));
    assert!(!is_canonical(&Some(Formats::Json)));
    assert!(!is_canonical(&None));
}
