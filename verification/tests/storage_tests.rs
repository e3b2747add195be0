use matrix_bot::errors::StateError;
use matrix_bot::storage::{
    cooldown_elapsed, load_step, save_step, u64_to_dec_string, LoadEvent, LoadOutcome,
    ListenerStorage, ResponderStorage, SessionStorage, COOLDOWN_SECONDS, LISTENER_RECORD_NAME,
    RESPONDER_RECORD_NAME, SESSION_RECORD_NAME,
};

#[test]
fn defaults_are_empty() {
    let session = SessionStorage::default();
    assert!(session.access_token.is_none());
    let listener = ListenerStorage::default();
    assert!(listener.last_sync.is_none());
    assert!(listener.last_correction_time.is_empty());
    let responder = ResponderStorage::default();
    assert_eq!(responder.last_txn_id, 0);
}

#[test]
fn record_names_are_fixed() {
    assert_eq!(SESSION_RECORD_NAME, "session.ron");
    assert_eq!(LISTENER_RECORD_NAME, "matrix_listener.ron");
    assert_eq!(RESPONDER_RECORD_NAME, "matrix_responder.ron");
}

#[test]
fn missing_record_establishes_default_and_reads_it_back() {
    // First load: nothing on disk; the default must be handed out and
    // persisted at once.
    let first = load_step(LoadEvent::<SessionStorage>::Missing, SessionStorage::default());
    let established = match first {
        LoadOutcome::EstablishDefault(d) => d,
        _ => panic!("a missing record must establish the default"),
    };
    assert!(established.access_token.is_none());
    // Second load: the record now parses to that same default.
    let second = load_step(LoadEvent::Parsed(established), SessionStorage::default());
    match second {
        LoadOutcome::Ready(v) => assert!(v.access_token.is_none()),
        _ => panic!("a parsed record must be handed out unchanged"),
    }
}

#[test]
fn corrupt_record_is_fatal_never_a_default() {
    let r = load_step(LoadEvent::<SessionStorage>::Corrupt, SessionStorage::default());
    assert!(matches!(r, LoadOutcome::Fail(StateError::CorruptPersistedState)));
}

#[test]
fn access_denied_is_distinguished_from_not_found() {
    let r = load_step(LoadEvent::<SessionStorage>::Denied, SessionStorage::default());
    assert!(matches!(r, LoadOutcome::Fail(StateError::AccessDenied)));
    let r = load_step(LoadEvent::<SessionStorage>::Unreadable, SessionStorage::default());
    assert!(matches!(r, LoadOutcome::Fail(StateError::Io)));
}

#[test]
fn save_passes_serialized_text_through() {
    match save_step(Some("(last_txn_id:7)".to_string())) {
        Ok(s) => assert_eq!(s, "(last_txn_id:7)".to_string()),
        Err(_) => panic!("a serialized value must be written"),
    }
}

#[test]
fn save_surfaces_serialization_failure_as_typed_error() {
    assert!(matches!(
        save_step(None),
        Err(StateError::SerializationInvariantViolation)
    ));
}

#[test]
fn cooldown_cases() {
    assert_eq!(COOLDOWN_SECONDS, 300);
    let now: u64 = 1_000;
    // Never corrected: allowed.
    assert!(cooldown_elapsed(None, now));
    // 400 seconds ago: allowed.
    assert!(cooldown_elapsed(Some(600), now));
    // Exactly at the boundary: allowed.
    assert!(cooldown_elapsed(Some(700), now));
    // 100 seconds ago: not yet.
    assert!(!cooldown_elapsed(Some(900), now));
    // In the future (clock anomaly): never, and no error.
    assert!(!cooldown_elapsed(Some(1_100), now));
}

#[test]
fn stored_correction_time_finds_the_room() {
    let listener = ListenerStorage {
        last_sync: None,
        last_correction_time: vec![
            ("!a:example.com".to_string(), 100),
            ("!b:example.com".to_string(), 200),
        ],
    };
    assert_eq!(listener.stored_correction_time(&"!a:example.com".to_string()), Some(100));
    assert_eq!(listener.stored_correction_time(&"!b:example.com".to_string()), Some(200));
    assert_eq!(listener.stored_correction_time(&"!c:example.com".to_string()), None);
}

#[test]
fn cooldown_is_true_for_a_room_never_corrected() {
    let listener = ListenerStorage::default();
    assert!(listener.correction_time_cooldown(&"!a:example.com".to_string()));
}

#[test]
fn cooldown_is_false_right_after_a_correction() {
    // A stored timestamp far in the future stands in for "just corrected":
    // whatever the wall clock reads, the cooldown cannot have passed.
    let listener = ListenerStorage {
        last_sync: None,
        last_correction_time: vec![("!a:example.com".to_string(), u64::MAX)],
    };
    assert!(!listener.correction_time_cooldown(&"!a:example.com".to_string()));
}

#[test]
fn txn_ids_count_up_from_one() {
    let mut responder = ResponderStorage::default();
    assert_eq!(responder.next_txn_id(), "1".to_string());
    assert_eq!(responder.next_txn_id(), "2".to_string());
    assert_eq!(responder.last_txn_id, 2);
}

#[test]
fn txn_ids_continue_from_persisted_counter() {
    let mut responder = ResponderStorage { last_txn_id: 41 };
    assert_eq!(responder.next_txn_id(), "42".to_string());
}

#[test]
fn decimal_rendering_is_exact() {
    assert_eq!(u64_to_dec_string(0), "0".to_string());
    assert_eq!(u64_to_dec_string(7), "7".to_string());
    assert_eq!(u64_to_dec_string(10), "10".to_string());
    assert_eq!(u64_to_dec_string(1_234_567_890), "1234567890".to_string());
    assert_eq!(u64_to_dec_string(u64::MAX), u64::MAX.to_string());
}
