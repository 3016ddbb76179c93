use eft_companion::error::{AppError, MAX_RETRIES};

#[test]
fn new_error_is_recoverable() {
    let e = AppError::new("CODE", "msg");
    assert_eq!(e.code, "CODE");
    assert_eq!(e.message, "msg");
    assert_eq!(e.details, None);
    assert!(e.recoverable);
    assert_eq!(e.retry_count, 0);
}

#[test]
fn builders() {
    let e = AppError::new("C", "m").with_details("d").non_recoverable();
    assert_eq!(e.details, Some("d".to_string()));
    assert!(!e.recoverable);
    assert_eq!(e.code, "C");
}

#[test]
fn retries() {
    let mut e = AppError::timeout_error();
    for _ in 0..4 {
        e.increment_retry();
    }
    assert_eq!(e.retry_count, 4);
    assert!(!e.max_retries_exceeded());
    e.increment_retry();
    assert_eq!(MAX_RETRIES, 5);
    assert!(e.max_retries_exceeded());
}

#[test]
fn kinds() {
    let e = AppError::file_not_found("C:\\x");
    assert_eq!((e.code.as_str(), e.message.as_str()), ("FILE_NOT_FOUND", "File or directory not found"));
    assert_eq!(e.details, Some("C:\\x".to_string()));
    assert!(!e.recoverable);

    let e = AppError::file_read_error("a.log", "denied");
    assert_eq!(e.code, "FILE_READ_ERROR");
    assert_eq!(e.message, "Failed to read file");
    assert_eq!(e.details, Some("a.log: denied".to_string()));
    assert!(e.recoverable);

    let e = AppError::network_error("reset");
    assert_eq!((e.code.as_str(), e.message.as_str()), ("NETWORK_ERROR", "Network connection failed"));
    assert_eq!(e.details, Some("reset".to_string()));
    assert!(e.recoverable);

    let e = AppError::timeout_error();
    assert_eq!((e.code.as_str(), e.message.as_str()), ("TIMEOUT", "Operation timed out"));
    assert_eq!(e.details, None);

    let e = AppError::auth_error("bad key");
    assert_eq!((e.code.as_str(), e.message.as_str()), ("AUTH_ERROR", "Authentication failed"));
    assert_eq!(e.details, Some("bad key".to_string()));
    assert!(!e.recoverable);

    let e = AppError::database_error("locked");
    assert_eq!((e.code.as_str(), e.message.as_str()), ("DATABASE_ERROR", "Database operation failed"));
    assert!(e.recoverable);

    let e = AppError::quest_not_found("q1");
    assert_eq!((e.code.as_str(), e.message.as_str()), ("QUEST_NOT_FOUND", "Quest not found in database"));
    assert_eq!(e.details, Some("q1".to_string()));
    assert!(!e.recoverable);

    let e = AppError::rate_limited();
    assert_eq!(e.code, "RATE_LIMITED");
    assert_eq!(e.message, "API rate limit exceeded, please try again later");
    assert!(e.recoverable);

    let e = AppError::invalid_config("remote_url");
    assert_eq!((e.code.as_str(), e.message.as_str()), ("INVALID_CONFIG", "Invalid configuration"));
    assert_eq!(e.details, Some("remote_url".to_string()));
    assert!(!e.recoverable);
}
