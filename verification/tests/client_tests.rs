use krates::handle_error;
use krates::has_empty_user_agent;
use krates::is_success_status;
use krates::request_url;
use krates::KrateClientBuilder;
use krates::KrateError;

#[test]
fn builder_accepts_visible_identification() {
    let builder = KrateClientBuilder::new("Test Mocks for TheLarkInn/krate");
    let header = builder.operator_user_agent().unwrap();
    assert_eq!(
        header,
        "Test Mocks for TheLarkInn/krate - Brought to you by: krates/0.3.0"
    );
}

#[test]
fn builder_keeps_surrounding_whitespace_of_valid_identification() {
    let builder = KrateClientBuilder::new(" a ");
    let header = builder.operator_user_agent().unwrap();
    assert_eq!(header, " a  - Brought to you by: krates/0.3.0");
}

#[test]
fn builder_rejects_all_whitespace_identification() {
    let builder = KrateClientBuilder::new("     ");
    let err = builder.operator_user_agent().unwrap_err();
    assert_eq!(err, KrateError::ConfigError);
    assert_eq!(
        err.message(),
        "User Agent must be a string with at least one character"
    );
}

#[test]
fn builder_rejects_empty_identification() {
    let builder = KrateClientBuilder::new("");
    assert_eq!(builder.operator_user_agent().unwrap_err(), KrateError::ConfigError);
}

#[test]
fn empty_user_agent_detection() {
    assert!(has_empty_user_agent(""));
    assert!(has_empty_user_agent("     "));
    assert!(has_empty_user_agent("\t\r\n"));
    assert!(has_empty_user_agent("\u{3000}\u{a0}\u{2003}"));
    assert!(!has_empty_user_agent("a"));
    assert!(!has_empty_user_agent("  x  "));
    assert!(!has_empty_user_agent("_"));
}

#[test]
fn not_found_classification() {
    let err = handle_error(Some(404), "HTTP status client error (404 Not Found)".to_string());
    assert_eq!(err, KrateError::KrateNotFound);
    assert_eq!(
        err.message(),
        "Crate name is not found. Did you mispell the crate name?"
    );
}

#[test]
fn other_status_classification() {
    let err = handle_error(Some(500), "HTTP status server error (500)".to_string());
    assert_eq!(
        err,
        KrateError::OtherKrateError("HTTP status server error (500)".to_string())
    );
    assert_eq!(err.message(), "Server Status Error: HTTP status server error (500)");
}

#[test]
fn network_failure_classification() {
    let err = handle_error(None, "connection refused".to_string());
    assert_eq!(err, KrateError::OtherKrateError("connection refused".to_string()));
}

#[test]
fn success_status_decides_decoding() {
    assert!(is_success_status(200));
    assert!(is_success_status(204));
    assert!(is_success_status(299));
    assert!(!is_success_status(199));
    assert!(!is_success_status(300));
    assert!(!is_success_status(404));
    assert!(!is_success_status(500));
}

#[test]
fn request_url_formula() {
    assert_eq!(request_url("is-wsl"), "https://crates.io/api/v1/crates/is-wsl");
    assert_eq!(request_url("tokio"), "https://crates.io/api/v1/crates/tokio");
}
