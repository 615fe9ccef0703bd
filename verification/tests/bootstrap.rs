//! Bootstrap: configuration validation, the fatal failure paths, and the
//! once-only publication of the session.

use session_core::config::{validate_configuration, Config, RawConfig};
use session_core::session::{DbHandle, SessionCell, UserInfo};
use session_core::InitError;

fn raw(db: Option<&str>, base: Option<&str>) -> RawConfig {
    RawConfig {
        database_url: db.map(|s| s.to_string()),
        backend_base_url: base.map(|s| s.to_string()),
    }
}

fn valid_config() -> Config {
    validate_configuration(&raw(Some("sqlite://app.db"), Some("https://backend.example")))
        .expect("complete configuration must validate")
}

#[test]
fn missing_database_field_yields_config_error() {
    let r = validate_configuration(&raw(None, Some("https://backend.example")));
    assert_eq!(r.unwrap_err(), InitError::ConfigError);
}

#[test]
fn missing_backend_field_yields_config_error() {
    let r = validate_configuration(&raw(Some("sqlite://app.db"), None));
    assert_eq!(r.unwrap_err(), InitError::ConfigError);
}

#[test]
fn empty_configuration_yields_config_error() {
    let r = validate_configuration(&raw(None, None));
    assert_eq!(r.unwrap_err(), InitError::ConfigError);
}

#[test]
fn complete_configuration_validates_unchanged() {
    let c = valid_config();
    assert_eq!(c.database_url, "sqlite://app.db");
    assert_eq!(c.backend_base_url, "https://backend.example");
}

#[test]
fn config_error_is_never_published() {
    let mut cell = SessionCell::new();
    let r = validate_configuration(&raw(None, Some("https://backend.example")));
    let err = r.unwrap_err();
    assert!(cell.mark_failed(err));
    assert!(cell.try_state().is_none());
    // The failure is terminal: no later attempt publishes anything.
    assert!(!cell.mark_failed(InitError::ConnectionError));
    assert!(cell.try_state().is_none());
}

#[test]
fn connection_failure_is_fatal() {
    let mut cell = SessionCell::new();
    let config = valid_config();
    let r = session_core::session::finish_bootstrap(&mut cell, &config, None, true);
    assert_eq!(r.unwrap_err(), InitError::ConnectionError);
    assert!(cell.try_state().is_none());
}

#[test]
fn successful_bootstrap_publishes_initial_session() {
    let mut cell = SessionCell::new();
    let config = valid_config();
    let db = DbHandle { descriptor: "sqlite://app.db".to_string() };
    let r = session_core::session::finish_bootstrap(&mut cell, &config, Some(db), true);
    assert!(r.is_ok());
    let data = cell.try_state().expect("session must be published");
    assert_eq!(data.db_conn.descriptor, "sqlite://app.db");
    assert_eq!(data.request_client.base_url, "https://backend.example");
    assert_eq!(data.request_client.token, None);
    assert_eq!(data.request_client.refresh_token, None);
    // Step (5): the identity starts fresh and empty.
    assert_eq!(data.user_info, UserInfo::default());
    assert_eq!(data.user_info.uid, "");
}

#[test]
fn migration_failure_is_not_fatal() {
    let mut cell = SessionCell::new();
    let config = valid_config();
    let db = DbHandle { descriptor: "sqlite://app.db".to_string() };
    let r = session_core::session::finish_bootstrap(&mut cell, &config, Some(db), false);
    assert!(r.is_ok());
    assert!(cell.try_state().is_some());
}

#[test]
fn second_publication_is_refused() {
    let mut cell = SessionCell::new();
    let config = valid_config();
    let db = DbHandle { descriptor: "sqlite://app.db".to_string() };
    session_core::session::finish_bootstrap(&mut cell, &config, Some(db), true).unwrap();

    // A second session, however it was assembled, is not accepted.
    let other_db = DbHandle { descriptor: "sqlite://other.db".to_string() };
    let build = session_core::session::build_request_client();
    let other = session_core::session::assemble_session(&config, other_db, build).unwrap();
    assert!(!cell.publish(other));
    let data = cell.try_state().unwrap();
    assert_eq!(data.db_conn.descriptor, "sqlite://app.db");
}
