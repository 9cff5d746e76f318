use async_listener::error::AsyncListenerError;

#[test]
fn network_error_is_classified_with_message() {
    let e = AsyncListenerError::network_error("connection refused");
    assert!(matches!(e, AsyncListenerError::NetworkError(_)));
    assert_eq!(e.message(), "connection refused");
}

#[test]
fn file_system_error_is_classified_with_message() {
    let e = AsyncListenerError::file_system_error("watch root vanished");
    assert!(matches!(e, AsyncListenerError::FileSystemError(_)));
    assert_eq!(e.message(), "watch root vanished");
}

#[test]
fn describe_prefixes_the_classification() {
    let n = AsyncListenerError::network_error("boom");
    assert_eq!(n.describe(), "Network port error: boom");
    let f = AsyncListenerError::file_system_error("gone");
    assert_eq!(f.describe(), "File system error: gone");
}
