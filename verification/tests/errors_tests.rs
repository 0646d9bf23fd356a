use rookrant_serv::errors::{AppError, ErrorKind};
use rookrant_serv::mongo_ext::{single_or_none_result, single_result};

#[test]
fn display_text_has_kind_label() {
    assert_eq!(AppError::DatabaseError("down".to_string()).to_string(), "Database error: down");
    assert_eq!(AppError::IOError("x".to_string()).to_string(), "IO error: x");
    assert_eq!(AppError::ParseError("x".to_string()).to_string(), "Parse error: x");
    assert_eq!(AppError::ConfigurationError("x".to_string()).to_string(), "Configuration error: x");
    assert_eq!(AppError::ConcurrencyError("x".to_string()).to_string(), "Concurrency error: x");
    assert_eq!(AppError::HttpError("x".to_string()).to_string(), "Http error: x");
    assert_eq!(AppError::RequestInputError("x".to_string()).to_string(), "Request input error: x");
    assert_eq!(AppError::AuthenticationError("x".to_string()).to_string(), "Authentication error: x");
    assert_eq!(AppError::SystemError("x".to_string()).to_string(), "System error: x");
    assert_eq!(AppError::CryptoError("x".to_string()).to_string(), "Crypto error: x");
}

#[test]
fn bad_input_is_answered_with_400_and_bare_message() {
    let e = AppError::RequestInputError("missing code".to_string());
    assert_eq!(e.status_code(), 400);
    assert_eq!(e.response_text(), "missing code");
}

#[test]
fn other_errors_are_answered_with_500_and_display_text() {
    let e = AppError::AuthenticationError("Unable to authenticate user.".to_string());
    assert_eq!(e.status_code(), 500);
    assert_eq!(e.response_text(), "Authentication error: Unable to authenticate user.");
    assert_eq!(AppError::DatabaseError(String::new()).status_code(), 500);
}

#[test]
fn new_builds_the_variant_of_the_kind() {
    let e = AppError::new(ErrorKind::Http, "Missing scheme".to_string());
    assert!(matches!(e, AppError::HttpError(ref m) if m == "Missing scheme"));
    assert_eq!(e.kind(), ErrorKind::Http);
}

#[test]
fn single_or_none_outcomes() {
    assert_eq!(single_or_none_result::<i32>(None, false).unwrap(), None);
    assert_eq!(single_or_none_result(Some(5), false).unwrap(), Some(5));
    let e = single_or_none_result(Some(5), true).unwrap_err();
    assert_eq!(e.kind(), ErrorKind::Database);
    assert_eq!(e.message(), "More than 1 result found for query.");
}

#[test]
fn single_outcomes() {
    assert_eq!(single_result(Ok(Some(7))).unwrap(), 7);
    let e = single_result::<i32>(Ok(None)).unwrap_err();
    assert_eq!(e.kind(), ErrorKind::Database);
    assert_eq!(e.message(), "No result found for query.");
    let e = single_result::<i32>(Err(AppError::IOError("io".to_string()))).unwrap_err();
    assert_eq!(e.kind(), ErrorKind::IO);
    assert_eq!(e.message(), "io");
}
