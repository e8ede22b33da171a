use kotoba_core::session::{RecordingState, SessionError, SessionStore};

#[test]
fn new_store_is_idle_with_no_session() {
    let store = SessionStore::new();
    let current = store.current();
    assert_eq!(current.state, RecordingState::Idle);
    assert!(current.session_id.is_none());
}

#[test]
fn start_assigns_fresh_id_and_records() {
    let mut store = SessionStore::new();
    let update = store.start().expect("start from idle must succeed");
    assert_eq!(update.state, RecordingState::Recording);
    let id = update.session_id.expect("a live session carries an id");
    assert_eq!(id.len(), 36);
    let current = store.current();
    assert_eq!(current.state, RecordingState::Recording);
    assert_eq!(current.session_id.as_deref(), Some(id.as_str()));
}

#[test]
fn second_start_fails_and_never_overwrites_the_id() {
    // Two start requests racing against an idle store are serialized by the
    // store's single owner; the loser observes the mutated state.
    let mut store = SessionStore::new();
    let first = store.start().expect("first start succeeds");
    let first_id = first.session_id.expect("id assigned");
    let second = store.start();
    assert_eq!(second.unwrap_err(), SessionError::AlreadyActive);
    let current = store.current();
    assert_eq!(current.state, RecordingState::Recording);
    assert_eq!(current.session_id.as_deref(), Some(first_id.as_str()));
}

#[test]
fn stop_on_idle_fails_with_not_active_and_mutates_nothing() {
    let mut store = SessionStore::new();
    let r = store.stop();
    assert_eq!(r.unwrap_err(), SessionError::NotActive);
    let current = store.current();
    assert_eq!(current.state, RecordingState::Idle);
    assert!(current.session_id.is_none());
}

#[test]
fn stop_keeps_the_identifier_and_moves_to_processing() {
    let mut store = SessionStore::new();
    let started = store.start().expect("start succeeds");
    let id = started.session_id.expect("id assigned");
    let stopped = store.stop().expect("stop from recording succeeds");
    assert_eq!(stopped.state, RecordingState::Processing);
    assert_eq!(stopped.session_id.as_deref(), Some(id.as_str()));
    let current = store.current();
    assert_eq!(current.state, RecordingState::Processing);
    assert_eq!(current.session_id.as_deref(), Some(id.as_str()));
}

#[test]
fn second_stop_fails_one_stop_per_session() {
    let mut store = SessionStore::new();
    store.start().expect("start succeeds");
    store.stop().expect("first stop succeeds");
    let r = store.stop();
    assert_eq!(r.unwrap_err(), SessionError::NotActive);
    assert_eq!(store.current().state, RecordingState::Processing);
}

#[test]
fn cancel_discards_any_in_flight_session() {
    let mut store = SessionStore::new();
    store.start().expect("start succeeds");
    let update = store.cancel();
    assert_eq!(update.state, RecordingState::Idle);
    assert!(update.session_id.is_none());
    let current = store.current();
    assert_eq!(current.state, RecordingState::Idle);
    assert!(current.session_id.is_none());
}

#[test]
fn cancel_is_idempotent_from_idle() {
    let mut store = SessionStore::new();
    let first = store.cancel();
    assert_eq!(first.state, RecordingState::Idle);
    assert!(first.session_id.is_none());
    let second = store.cancel();
    assert_eq!(second.state, RecordingState::Idle);
    assert!(second.session_id.is_none());
    let current = store.current();
    assert_eq!(current.state, RecordingState::Idle);
    assert!(current.session_id.is_none());
}

#[test]
fn fresh_sessions_get_distinct_identifiers() {
    let mut store = SessionStore::new();
    let a = store.start().unwrap().session_id.unwrap();
    store.cancel();
    let b = store.start().unwrap().session_id.unwrap();
    assert_ne!(a, b);
}

#[test]
fn session_errors_carry_the_caller_facing_messages() {
    assert_eq!(
        SessionError::AlreadyActive.message(),
        "Recording already in progress"
    );
    assert_eq!(SessionError::NotActive.message(), "No recording in progress");
}

#[test]
fn audio_chunks_are_acknowledged_with_an_empty_partial_result() {
    assert_eq!(kotoba_core::session::process_audio_chunk(), "");
}
