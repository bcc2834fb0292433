use event_store::handler::{
    append_event, append_event_at, health, malformed_payload, respond, AppendOutcome, STATUS_BAD_REQUEST, STATUS_OK,
};
use event_store::registry::{IdempotencyRegistry, Reservation};
use event_store::time::{abs_seconds_between, Timestamp, SECS_PER_DAY};
use event_store::validation::{validate_event, validate_event_at, EconomicEvent, ValidationError};

fn now() -> Timestamp {
    let t = chrono::Utc::now();
    Timestamp { secs: t.timestamp(), nanos: t.timestamp_subsec_nanos() }
}

fn event_at(event_id: &str, timestamp: Timestamp) -> EconomicEvent {
    EconomicEvent {
        event_id: event_id.to_string(),
        event_type: "transfer".to_string(),
        aggregate_id: "a1".to_string(),
        timestamp,
        participants: vec!["p1".to_string(), "p2".to_string()],
        amount_cents: 500,
        currency: "USD".to_string(),
    }
}

fn shifted(t: Timestamp, days: i64) -> Timestamp {
    Timestamp { secs: t.secs + days * SECS_PER_DAY, nanos: t.nanos }
}

#[test]
fn scenario_a_untokened_valid_event_accepted() {
    let mut reg = IdempotencyRegistry::new();
    let out = append_event(&mut reg, None, &event_at("e1", now()));
    let resp = respond(out);
    assert_eq!(resp.status, 200);
    assert!(resp.ok);
    assert_eq!(resp.event_id, Some("e1".to_string()));
    assert!(!resp.idempotent);
    assert_eq!(resp.error, None);
}

#[test]
fn scenario_b_negative_amount_rejected() {
    let mut reg = IdempotencyRegistry::new();
    let mut e = event_at("e1", now());
    e.amount_cents = -5;
    let resp = respond(append_event(&mut reg, None, &e));
    assert_eq!(resp.status, 400);
    assert!(!resp.ok);
    assert_eq!(resp.error, Some("amount_cents must be non-negative".to_string()));
    assert_eq!(resp.event_id, None);
}

#[test]
fn scenario_c_empty_participants_rejected() {
    let mut reg = IdempotencyRegistry::new();
    let mut e = event_at("e1", now());
    e.participants = vec![];
    let resp = respond(append_event(&mut reg, None, &e));
    assert_eq!(resp.status, 400);
    assert!(!resp.ok);
    assert_eq!(resp.error, Some("participants must not be empty".to_string()));
}

#[test]
fn scenario_d_duplicate_token_echoes_current_event() {
    let mut reg = IdempotencyRegistry::new();
    let first = respond(append_event(&mut reg, Some("k1".to_string()), &event_at("e1", now())));
    assert_eq!(first.status, 200);
    assert!(first.ok);
    assert_eq!(first.event_id, Some("e1".to_string()));
    assert!(!first.idempotent);
    let second = respond(append_event(&mut reg, Some("k1".to_string()), &event_at("e2", now())));
    assert_eq!(second.status, 200);
    assert!(second.ok);
    assert_eq!(second.event_id, Some("e2".to_string()));
    assert!(second.idempotent);
}

#[test]
fn scenario_e_health_ok() {
    assert!(health().ok);
}

#[test]
fn valid_event_at_thirty_day_edges_passes() {
    let t = Timestamp { secs: 1_700_000_000, nanos: 0 };
    assert_eq!(validate_event_at(&event_at("e", shifted(t, -30)), t), Ok(()));
    assert_eq!(validate_event_at(&event_at("e", shifted(t, 30)), t), Ok(()));
    assert_eq!(validate_event_at(&event_at("e", t), t), Ok(()));
    let mut zero = event_at("e", t);
    zero.amount_cents = 0;
    zero.participants = vec!["only".to_string()];
    assert_eq!(validate_event_at(&zero, t), Ok(()));
}

#[test]
fn negative_amount_rejected_whatever_the_rest() {
    let t = Timestamp { secs: 1_700_000_000, nanos: 0 };
    let mut e = event_at("e", shifted(t, -400));
    e.amount_cents = -1;
    e.currency = String::new();
    assert_eq!(validate_event_at(&e, t), Err(ValidationError::NegativeAmount));
}

#[test]
fn empty_participants_checked_first() {
    let t = Timestamp { secs: 1_700_000_000, nanos: 0 };
    let mut e = event_at("e", shifted(t, 400));
    e.participants = vec![];
    e.amount_cents = -1;
    assert_eq!(validate_event_at(&e, t), Err(ValidationError::EmptyParticipants));
}

#[test]
fn skew_window_is_symmetric() {
    let t = Timestamp { secs: 1_700_000_000, nanos: 123 };
    let stale = Err(ValidationError::StaleOrFutureTimestamp);
    assert_eq!(validate_event_at(&event_at("e", shifted(t, -31)), t), stale);
    assert_eq!(validate_event_at(&event_at("e", shifted(t, 31)), t), stale);
    assert_eq!(validate_event_at(&event_at("e", shifted(t, -29)), t), Ok(()));
    assert_eq!(validate_event_at(&event_at("e", shifted(t, 29)), t), Ok(()));
}

#[test]
fn skew_counts_whole_seconds_only() {
    let t = Timestamp { secs: 1_700_000_000, nanos: 0 };
    let edge = Timestamp { secs: t.secs - 30 * SECS_PER_DAY - 1, nanos: 1 };
    assert_eq!(validate_event_at(&event_at("e", edge), t), Ok(()));
    let past = Timestamp { secs: t.secs - 30 * SECS_PER_DAY - 1, nanos: 0 };
    assert_eq!(validate_event_at(&event_at("e", past), t), Err(ValidationError::StaleOrFutureTimestamp));
}

#[test]
fn abs_seconds_between_truncates() {
    let a = Timestamp { secs: 10, nanos: 500_000_000 };
    let b = Timestamp { secs: 7, nanos: 900_000_000 };
    assert_eq!(abs_seconds_between(a, b), 2);
    assert_eq!(abs_seconds_between(b, a), 2);
    assert_eq!(abs_seconds_between(a, a), 0);
    let far = Timestamp { secs: i64::MIN, nanos: 0 };
    let late = Timestamp { secs: i64::MAX, nanos: 999_999_999 };
    assert_eq!(abs_seconds_between(late, far), u64::MAX as u128);
}

#[test]
fn timestamp_from_parts_bounds_nanos() {
    assert_eq!(Timestamp::from_parts(5, 1_999_999_999), Some(Timestamp { secs: 5, nanos: 1_999_999_999 }));
    assert_eq!(Timestamp::from_parts(5, 2_000_000_000), None);
}

#[test]
fn validate_event_uses_current_time() {
    assert_eq!(validate_event(&event_at("e", now())), Ok(()));
    let epoch = Timestamp { secs: 0, nanos: 0 };
    assert_eq!(validate_event(&event_at("e", epoch)), Err(ValidationError::StaleOrFutureTimestamp));
    let mut e = event_at("e", epoch);
    e.amount_cents = -3;
    assert_eq!(validate_event(&e), Err(ValidationError::NegativeAmount));
}

#[test]
fn error_messages() {
    assert_eq!(ValidationError::EmptyParticipants.message(), "participants must not be empty");
    assert_eq!(ValidationError::NegativeAmount.message(), "amount_cents must be non-negative");
    assert_eq!(ValidationError::StaleOrFutureTimestamp.message(), "timestamp must be within ±30 days");
}

#[test]
fn untokened_identical_requests_both_accepted() {
    let mut reg = IdempotencyRegistry::new();
    let e = event_at("e1", now());
    let a = append_event(&mut reg, None, &e);
    let b = append_event(&mut reg, None, &e);
    assert_eq!(a, AppendOutcome::Accepted { event_id: "e1".to_string() });
    assert_eq!(b, AppendOutcome::Accepted { event_id: "e1".to_string() });
    assert_eq!(reg.reserve(None), Reservation::Fresh);
}

#[test]
fn shared_token_exactly_one_fresh() {
    let mut reg = IdempotencyRegistry::new();
    let outcomes: Vec<Reservation> = (0..8).map(|_| reg.reserve(Some("k".to_string()))).collect();
    assert_eq!(outcomes[0], Reservation::Fresh);
    assert_eq!(outcomes.iter().filter(|r| **r == Reservation::Fresh).count(), 1);
    assert_eq!(outcomes.iter().filter(|r| **r == Reservation::Duplicate).count(), 7);
}

#[test]
fn distinct_tokens_are_independent() {
    let mut reg = IdempotencyRegistry::new();
    assert_eq!(reg.reserve(Some("a".to_string())), Reservation::Fresh);
    assert_eq!(reg.reserve(Some("b".to_string())), Reservation::Fresh);
    assert_eq!(reg.reserve(Some("a".to_string())), Reservation::Duplicate);
    assert!(reg.contains(&"b".to_string()));
    assert!(!reg.contains(&"c".to_string()));
    assert_eq!(reg.reserve(Some(String::new())), Reservation::Fresh);
    assert_eq!(reg.reserve(Some(String::new())), Reservation::Duplicate);
}

#[test]
fn token_stays_reserved_after_rejection() {
    let mut reg = IdempotencyRegistry::new();
    let t = Timestamp { secs: 1_700_000_000, nanos: 0 };
    let mut bad = event_at("e1", t);
    bad.amount_cents = -1;
    let first = append_event_at(&mut reg, Some("k".to_string()), &bad, t);
    assert_eq!(first, AppendOutcome::Rejected { error: ValidationError::NegativeAmount });
    let retry = append_event_at(&mut reg, Some("k".to_string()), &event_at("e1", t), t);
    assert_eq!(retry, AppendOutcome::Duplicate { event_id: "e1".to_string() });
}

#[test]
fn stale_timestamp_response() {
    let resp = respond(AppendOutcome::Rejected { error: ValidationError::StaleOrFutureTimestamp });
    assert_eq!(resp.status, STATUS_BAD_REQUEST);
    assert_eq!(resp.error, Some("timestamp must be within ±30 days".to_string()));
}

#[test]
fn malformed_payload_is_client_error() {
    let resp = malformed_payload("expected value".to_string());
    assert_eq!(resp.status, STATUS_BAD_REQUEST);
    assert!(!resp.ok);
    assert_eq!(resp.error, Some("expected value".to_string()));
    assert_eq!(resp.event_id, None);
    assert_ne!(resp.status, STATUS_OK);
}
