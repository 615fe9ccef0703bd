//! The credential-change listener: discarded events, full application,
//! torn updates, and the last-applied-wins non-determinism.

use session_core::backfill::{check_backfill, complete_backfill, BackfillCheck, InitFlags};
use session_core::config::{validate_configuration, RawConfig};
use session_core::listener::{handle_event, EventOutcome};
use session_core::session::{finish_bootstrap, DbHandle, SessionCell, UserInfo};

fn payload(uid: &str, token: &str, refresh_token: &str) -> UserInfo {
    UserInfo {
        token: token.to_string(),
        refresh_token: refresh_token.to_string(),
        uid: uid.to_string(),
    }
}

fn ready_cell() -> SessionCell {
    let raw = RawConfig {
        database_url: Some("sqlite://app.db".to_string()),
        backend_base_url: Some("https://backend.example".to_string()),
    };
    let config = validate_configuration(&raw).unwrap();
    let db = DbHandle { descriptor: "sqlite://app.db".to_string() };
    let mut cell = SessionCell::new();
    finish_bootstrap(&mut cell, &config, Some(db), true).unwrap();
    cell
}

#[test]
fn event_before_bootstrap_has_no_effect() {
    let mut cell = SessionCell::new();
    let outcome = handle_event(&mut cell, Some(payload("u1", "t1", "r1")), true, true);
    assert_eq!(outcome, EventOutcome::DiscardedStateUnavailable);
    // No crash, no deferred application: the cell is still empty.
    assert!(cell.try_state().is_none());
    // Even a session published afterwards shows no trace of the event.
    let ready = ready_cell();
    assert_eq!(ready.try_state().unwrap().user_info, UserInfo::default());
}

#[test]
fn event_after_failed_bootstrap_has_no_effect() {
    let mut cell = SessionCell::new();
    cell.mark_failed(session_core::InitError::ConnectionError);
    let outcome = handle_event(&mut cell, Some(payload("u1", "t1", "r1")), true, true);
    assert_eq!(outcome, EventOutcome::DiscardedStateUnavailable);
    assert!(cell.try_state().is_none());
}

#[test]
fn malformed_event_is_discarded() {
    let mut cell = ready_cell();
    let outcome = handle_event(&mut cell, None, true, true);
    assert_eq!(outcome, EventOutcome::DiscardedDeserialization);
    let data = cell.try_state().unwrap();
    assert_eq!(data.user_info, UserInfo::default());
    assert_eq!(data.request_client.token, None);
}

#[test]
fn well_formed_event_updates_identity_and_client() {
    // Scenario: {uid:"u1", token:"t1", refreshToken:"r1"} after a successful
    // bootstrap.
    let mut cell = ready_cell();
    let outcome = handle_event(&mut cell, Some(payload("u1", "t1", "r1")), true, true);
    assert_eq!(outcome, EventOutcome::Applied { uid: "u1".to_string() });
    let data = cell.try_state().unwrap();
    assert_eq!(data.user_info, payload("u1", "t1", "r1"));
    assert_eq!(data.request_client.token, Some("t1".to_string()));
    assert_eq!(data.request_client.refresh_token, Some("r1".to_string()));

    // ... and the backfill trigger runs exactly once for "u1".
    let mut flags = InitFlags::new();
    let uid = "u1".to_string();
    assert_eq!(check_backfill(&flags, &uid), BackfillCheck::FetchRequired);
    assert!(complete_backfill(&mut flags, &uid, true, true).is_ok());
    assert_eq!(check_backfill(&flags, &uid), BackfillCheck::AlreadyInitialized);
}

#[test]
fn failed_token_lock_leaves_torn_pair() {
    let mut cell = ready_cell();
    handle_event(&mut cell, Some(payload("u1", "t1", "r1")), true, true);
    // The second event manages only the refresh-token lock: the pair tears.
    let outcome = handle_event(&mut cell, Some(payload("u1", "t2", "r2")), false, true);
    assert_eq!(outcome, EventOutcome::Applied { uid: "u1".to_string() });
    let data = cell.try_state().unwrap();
    assert_eq!(data.request_client.token, Some("t1".to_string()));
    assert_eq!(data.request_client.refresh_token, Some("r2".to_string()));
    // The identity record itself is updated as one atomic unit regardless.
    assert_eq!(data.user_info, payload("u1", "t2", "r2"));
}

#[test]
fn overlapping_events_last_applied_wins() {
    // Two events for the same uid with different tokens arrive close
    // together. No order is enforced between them: the surviving identity is
    // whichever update completed last in real time, not necessarily the one
    // emitted last. That non-determinism is expected; here both completion
    // orders are exercised.
    let a = payload("u1", "ta", "ra");
    let b = payload("u1", "tb", "rb");

    let mut cell = ready_cell();
    handle_event(&mut cell, Some(a.clone()), true, true);
    handle_event(&mut cell, Some(b.clone()), true, true);
    let data = cell.try_state().unwrap();
    assert_eq!(data.user_info, b);
    assert_eq!(data.request_client.token, Some("tb".to_string()));

    let mut cell = ready_cell();
    handle_event(&mut cell, Some(b.clone()), true, true);
    handle_event(&mut cell, Some(a.clone()), true, true);
    let data = cell.try_state().unwrap();
    assert_eq!(data.user_info, a);
    assert_eq!(data.request_client.token, Some("ta".to_string()));
}
