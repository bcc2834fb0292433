//! Schema checks on a candidate economic event.
use vstd::prelude::*;
use crate::time::{abs_delta_secs, abs_int, abs_seconds_between, current_time, instant_nanos, Timestamp, NANOS_PER_SEC, SECS_PER_DAY};

verus! {

/// Largest distance, in whole seconds, allowed between an event's timestamp
/// and the time of validation: thirty days, past or future.
pub const MAX_SKEW_SECS: i64 = 30 * SECS_PER_DAY;

/// A client-submitted record of a value movement between participants.
#[derive(Clone, Debug, PartialEq, Eq)]
pub struct EconomicEvent {
    pub event_id: String,
    pub event_type: String,
    pub aggregate_id: String,
    pub timestamp: Timestamp,
    pub participants: Vec<String>,
    pub amount_cents: i64,
    pub currency: String,
}

/// Why an event was rejected.
#[derive(Clone, Copy, Debug, PartialEq, Eq, Structural)]
pub enum ValidationError {
    EmptyParticipants,
    NegativeAmount,
    StaleOrFutureTimestamp,
}

/// Whether `ts` lies within the allowed skew of `now`.
pub open spec fn within_skew(ts: Timestamp, now: Timestamp) -> bool {
    abs_delta_secs(now, ts) <= MAX_SKEW_SECS as int
}

/// The outcome of validating `event` at time `now`: the checks run in order
/// and the first that fails decides.
pub open spec fn validation_result(event: EconomicEvent, now: Timestamp) -> Result<(), ValidationError> {
    if event.participants@.len() == 0 {
        Err(ValidationError::EmptyParticipants)
    } else if event.amount_cents < 0 {
        Err(ValidationError::NegativeAmount)
    } else if !within_skew(event.timestamp, now) {
        Err(ValidationError::StaleOrFutureTimestamp)
    } else {
        Ok(())
    }
}

impl ValidationError {
    /// The human-readable text of the reason.
    pub open spec fn message_spec(self) -> Seq<char> {
        match self {
            ValidationError::EmptyParticipants => "participants must not be empty"@,
            ValidationError::NegativeAmount => "amount_cents must be non-negative"@,
            ValidationError::StaleOrFutureTimestamp => "timestamp must be within ±30 days"@,
        }
    }

    /// The reason rendered as human-readable text.
    pub fn message(&self) -> (r: String)
        ensures
            r@ == self.message_spec(),
    {
        match self {
            ValidationError::EmptyParticipants => "participants must not be empty".to_owned(),
            ValidationError::NegativeAmount => "amount_cents must be non-negative".to_owned(),
            ValidationError::StaleOrFutureTimestamp => "timestamp must be within ±30 days".to_owned(),
        }
    }
}

/// Validates `event` as of the instant `now`.
pub fn validate_event_at(event: &EconomicEvent, now: Timestamp) -> (r: Result<(), ValidationError>)
    ensures
        r == validation_result(*event, now),
{
    if event.participants.len() == 0 {
        return Err(ValidationError::EmptyParticipants);
    }
    if event.amount_cents < 0 {
        return Err(ValidationError::NegativeAmount);
    }
    let delta: u128 = abs_seconds_between(now, event.timestamp);
    if delta > MAX_SKEW_SECS as u128 {
        return Err(ValidationError::StaleOrFutureTimestamp);
    }
    Ok(())
}

/// Validates `event` against the current time.
pub fn validate_event(event: &EconomicEvent) -> (r: Result<(), ValidationError>)
    ensures
        exists|now: Timestamp| now.wf() && r == validation_result(*event, now),
        event.participants@.len() == 0 ==> r == Err::<(), ValidationError>(ValidationError::EmptyParticipants),
        event.participants@.len() > 0 && event.amount_cents < 0 ==> r == Err::<(), ValidationError>(ValidationError::NegativeAmount),
        event.participants@.len() > 0 && event.amount_cents >= 0 ==> (r is Ok || r == Err::<(), ValidationError>(ValidationError::StaleOrFutureTimestamp)),
{
    let now = current_time();
    let r = validate_event_at(event, now);
    assert(now.wf() && r == validation_result(*event, now));
    r
}

/// Nanoseconds in `days` days.
pub open spec fn days_nanos(days: int) -> int {
    days * (SECS_PER_DAY as int) * (NANOS_PER_SEC as int)
}

/// An event with participants, a non-negative amount and a timestamp no more
/// than thirty days from `now`, in either direction, passes validation.
pub proof fn lemma_well_formed_event_passes(event: EconomicEvent, now: Timestamp)
    requires
        event.participants@.len() > 0,
        event.amount_cents >= 0,
        abs_int(instant_nanos(now) - instant_nanos(event.timestamp)) <= days_nanos(30),
    ensures
        validation_result(event, now) == Ok::<(), ValidationError>(()),
{
    let d = abs_int(instant_nanos(now) - instant_nanos(event.timestamp));
    assert(d / 1_000_000_000 <= 2_592_000) by (nonlinear_arith)
        requires
            0 <= d <= 2_592_000_000_000_000,
    ;
}

/// A negative amount is rejected as such whatever the other fields hold,
/// once the participants check has passed.
pub proof fn lemma_negative_amount_rejected(event: EconomicEvent, now: Timestamp)
    requires
        event.participants@.len() > 0,
        event.amount_cents < 0,
    ensures
        validation_result(event, now) == Err::<(), ValidationError>(ValidationError::NegativeAmount),
{
}

/// An event without participants is rejected for that reason, whatever else it holds.
pub proof fn lemma_empty_participants_rejected(event: EconomicEvent, now: Timestamp)
    requires
        event.participants@.len() == 0,
    ensures
        validation_result(event, now) == Err::<(), ValidationError>(ValidationError::EmptyParticipants),
{
}

/// The skew window is symmetric: an otherwise valid event stamped 31 days
/// before or after `now` is rejected, one stamped 29 days before or after
/// passes.
pub proof fn lemma_skew_window_symmetric(event: EconomicEvent, now: Timestamp)
    requires
        event.participants@.len() > 0,
        event.amount_cents >= 0,
    ensures
        instant_nanos(event.timestamp) == instant_nanos(now) - days_nanos(31) ==> validation_result(event, now)
            == Err::<(), ValidationError>(ValidationError::StaleOrFutureTimestamp),
        instant_nanos(event.timestamp) == instant_nanos(now) + days_nanos(31) ==> validation_result(event, now)
            == Err::<(), ValidationError>(ValidationError::StaleOrFutureTimestamp),
        instant_nanos(event.timestamp) == instant_nanos(now) - days_nanos(29) ==> validation_result(event, now)
            == Ok::<(), ValidationError>(()),
        instant_nanos(event.timestamp) == instant_nanos(now) + days_nanos(29) ==> validation_result(event, now)
            == Ok::<(), ValidationError>(()),
{
    assert(days_nanos(31) == 2_678_400_000_000_000);
    assert(days_nanos(29) == 2_505_600_000_000_000);
    assert(2_678_400_000_000_000int / 1_000_000_000int == 2_678_400);
    assert(2_505_600_000_000_000int / 1_000_000_000int == 2_505_600);
}

} // verus!
