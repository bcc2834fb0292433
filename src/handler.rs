//! The append entry point: reservation, validation, and the acknowledgment.
use vstd::prelude::*;
use crate::registry::{reserve_spec, token_key, IdempotencyRegistry, Reservation};
use crate::time::{current_time, Timestamp};
use crate::validation::{validate_event_at, validation_result, EconomicEvent, ValidationError};

verus! {

/// HTTP status of a success.
pub const STATUS_OK: u16 = 200;

/// HTTP status of a client error.
pub const STATUS_BAD_REQUEST: u16 = 400;

/// What became of one append request.
#[derive(Clone, Debug, PartialEq, Eq)]
pub enum AppendOutcome {
    /// The event passed validation and is to be stored and recorded.
    Accepted { event_id: String },
    /// The idempotency token was seen before; the event was neither checked nor stored.
    Duplicate { event_id: String },
    /// The event failed validation; nothing is stored.
    Rejected { error: ValidationError },
}

/// The outcome of a request whose reservation gave `reservation`, for
/// `event` validated at `now`.
pub open spec fn outcome_spec(reservation: Reservation, event: EconomicEvent, now: Timestamp) -> AppendOutcome {
    match reservation {
        Reservation::Duplicate => AppendOutcome::Duplicate { event_id: event.event_id },
        Reservation::Fresh => match validation_result(event, now) {
            Ok(_) => AppendOutcome::Accepted { event_id: event.event_id },
            Err(e) => AppendOutcome::Rejected { error: e },
        },
    }
}

/// Handling one append request against the token set `keys`: the new set
/// and the outcome.
pub open spec fn append_spec(
    keys: Set<Seq<char>>,
    token: Option<Seq<char>>,
    event: EconomicEvent,
    now: Timestamp,
) -> (Set<Seq<char>>, AppendOutcome) {
    let (k, r) = reserve_spec(keys, token);
    (k, outcome_spec(r, event, now))
}

/// Completes a request once its reservation is known: a duplicate is
/// acknowledged at once; otherwise `event` is validated as of `now`.
pub fn conclude_at(reservation: Reservation, event: &EconomicEvent, now: Timestamp) -> (r: AppendOutcome)
    ensures
        r == outcome_spec(reservation, *event, now),
{
    match reservation {
        Reservation::Duplicate => AppendOutcome::Duplicate { event_id: event.event_id.clone() },
        Reservation::Fresh => match validate_event_at(event, now) {
            Ok(()) => AppendOutcome::Accepted { event_id: event.event_id.clone() },
            Err(e) => AppendOutcome::Rejected { error: e },
        },
    }
}

/// Completes a request once its reservation is known, validating against
/// the current time.
pub fn conclude(reservation: Reservation, event: &EconomicEvent) -> (r: AppendOutcome)
    ensures
        exists|now: Timestamp| now.wf() && r == outcome_spec(reservation, *event, now),
        reservation == Reservation::Duplicate ==> r == (AppendOutcome::Duplicate { event_id: event.event_id }),
        reservation == Reservation::Fresh && event.participants@.len() == 0 ==> r
            == (AppendOutcome::Rejected { error: ValidationError::EmptyParticipants }),
        reservation == Reservation::Fresh && event.participants@.len() > 0 && event.amount_cents < 0 ==> r
            == (AppendOutcome::Rejected { error: ValidationError::NegativeAmount }),
        reservation == Reservation::Fresh && event.participants@.len() > 0 && event.amount_cents >= 0 ==> (r
            == (AppendOutcome::Accepted { event_id: event.event_id }) || r == (AppendOutcome::Rejected {
            error: ValidationError::StaleOrFutureTimestamp,
        })),
{
    let now = current_time();
    let r = conclude_at(reservation, event, now);
    assert(now.wf() && r == outcome_spec(reservation, *event, now));
    r
}

/// Handles an append request carrying the optional idempotency `token` and
/// the parsed `event`, validating as of `now`. A reserved token is kept even
/// when validation then fails.
pub fn append_event_at(
    registry: &mut IdempotencyRegistry,
    token: Option<String>,
    event: &EconomicEvent,
    now: Timestamp,
) -> (r: AppendOutcome)
    ensures
        (final(registry)@, r) == append_spec(old(registry)@, token_key(token), *event, now),
{
    let reservation = registry.reserve(token);
    conclude_at(reservation, event, now)
}

/// Handles an append request, validating against the current time.
pub fn append_event(registry: &mut IdempotencyRegistry, token: Option<String>, event: &EconomicEvent) -> (r:
    AppendOutcome)
    ensures
        exists|now: Timestamp|
            now.wf() && (final(registry)@, r) == append_spec(old(registry)@, token_key(token), *event, now),
        final(registry)@ == reserve_spec(old(registry)@, token_key(token)).0,
        ({
            let res = reserve_spec(old(registry)@, token_key(token)).1;
            &&& res == Reservation::Duplicate ==> r == AppendOutcome::Duplicate { event_id: event.event_id }
            &&& res == Reservation::Fresh && event.participants@.len() == 0 ==> r
                == AppendOutcome::Rejected { error: ValidationError::EmptyParticipants }
            &&& res == Reservation::Fresh && event.participants@.len() > 0 && event.amount_cents < 0 ==> r
                == AppendOutcome::Rejected { error: ValidationError::NegativeAmount }
            &&& res == Reservation::Fresh && event.participants@.len() > 0 && event.amount_cents >= 0 ==> (r
                == AppendOutcome::Accepted { event_id: event.event_id } || r == AppendOutcome::Rejected {
                error: ValidationError::StaleOrFutureTimestamp,
            })
        }),
{
    let now = current_time();
    let r = append_event_at(registry, token, event, now);
    assert(now.wf() && (registry@, r) == append_spec(old(registry)@, token_key(token), *event, now));
    r
}

/// Two requests without a token, each carrying the same event that passes
/// validation, are both accepted: neither is deduplicated, and the token set
/// is left as it was.
pub proof fn lemma_untokened_requests_both_accepted(
    keys: Set<Seq<char>>,
    event: EconomicEvent,
    now1: Timestamp,
    now2: Timestamp,
)
    requires
        validation_result(event, now1) is Ok,
        validation_result(event, now2) is Ok,
    ensures
        ({
            let (k1, o1) = append_spec(keys, None, event, now1);
            let (k2, o2) = append_spec(k1, None, event, now2);
            &&& k1 == keys
            &&& k2 == keys
            &&& o1 == AppendOutcome::Accepted { event_id: event.event_id }
            &&& o2 == AppendOutcome::Accepted { event_id: event.event_id }
        }),
{
}

/// The acknowledgment sent back for an append request.
#[derive(Clone, Debug, PartialEq, Eq)]
pub struct AppendResponse {
    pub status: u16,
    pub ok: bool,
    pub event_id: Option<String>,
    pub idempotent: bool,
    pub error: Option<String>,
}

/// Builds the acknowledgment for `outcome`: 200 with the event id on
/// success, marked idempotent for a duplicate token; 400 with the reason on
/// rejection.
pub fn respond(outcome: AppendOutcome) -> (r: AppendResponse)
    ensures
        match outcome {
            AppendOutcome::Accepted { event_id } => r.status == STATUS_OK && r.ok && r.event_id == Some(event_id)
                && !r.idempotent && r.error is None,
            AppendOutcome::Duplicate { event_id } => r.status == STATUS_OK && r.ok && r.event_id == Some(event_id)
                && r.idempotent && r.error is None,
            AppendOutcome::Rejected { error } => r.status == STATUS_BAD_REQUEST && !r.ok && r.event_id is None
                && !r.idempotent && r.error is Some && r.error->Some_0@ == error.message_spec(),
        },
{
    match outcome {
        AppendOutcome::Accepted { event_id } => AppendResponse {
            status: STATUS_OK,
            ok: true,
            event_id: Some(event_id),
            idempotent: false,
            error: None,
        },
        AppendOutcome::Duplicate { event_id } => AppendResponse {
            status: STATUS_OK,
            ok: true,
            event_id: Some(event_id),
            idempotent: true,
            error: None,
        },
        AppendOutcome::Rejected { error } => AppendResponse {
            status: STATUS_BAD_REQUEST,
            ok: false,
            event_id: None,
            idempotent: false,
            error: Some(error.message()),
        },
    }
}

/// The acknowledgment for a body that could not be read as an event: 400
/// with `detail` as the reason.
pub fn malformed_payload(detail: String) -> (r: AppendResponse)
    ensures
        r.status == STATUS_BAD_REQUEST,
        !r.ok,
        r.event_id is None,
        !r.idempotent,
        r.error == Some(detail),
{
    AppendResponse { status: STATUS_BAD_REQUEST, ok: false, event_id: None, idempotent: false, error: Some(detail) }
}

/// The body of a health check.
#[derive(Clone, Copy, Debug, PartialEq, Eq, Structural)]
pub struct Health {
    pub ok: bool,
}

/// The health check: always reports ok.
pub fn health() -> (r: Health)
    ensures
        r.ok,
{
    Health { ok: true }
}

} // verus!
