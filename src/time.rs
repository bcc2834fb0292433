//! UTC instants held as plain values, and the distance between two of them.
use vstd::prelude::*;

verus! {

/// Nanoseconds in one second.
pub const NANOS_PER_SEC: u32 = 1_000_000_000;

/// Seconds in one day.
pub const SECS_PER_DAY: i64 = 86_400;

/// A point in time (UTC): whole seconds since the Unix epoch and the
/// nanoseconds past that second. As in chrono, a leap second is carried as
/// a nanosecond count of one second or more.
#[derive(Clone, Copy, Debug, PartialEq, Eq, Structural)]
pub struct Timestamp {
    pub secs: i64,
    pub nanos: u32,
}

/// The instant as a count of nanoseconds since the Unix epoch.
pub open spec fn instant_nanos(t: Timestamp) -> int {
    t.secs * (NANOS_PER_SEC as int) + t.nanos
}

pub open spec fn abs_int(x: int) -> int {
    if x < 0 {
        -x
    } else {
        x
    }
}

/// Whole seconds between two instants, in absolute value; a partial
/// second is dropped.
pub open spec fn abs_delta_secs(a: Timestamp, b: Timestamp) -> int {
    abs_int(instant_nanos(a) - instant_nanos(b)) / (NANOS_PER_SEC as int)
}

impl Timestamp {
    pub open spec fn wf(self) -> bool {
        self.nanos < 2 * NANOS_PER_SEC
    }

    /// Builds an instant from seconds and nanoseconds since the Unix epoch.
    pub fn from_parts(secs: i64, nanos: u32) -> (r: Option<Timestamp>)
        ensures
            r is Some <==> nanos < 2 * NANOS_PER_SEC,
            r is Some ==> r->Some_0.secs == secs && r->Some_0.nanos == nanos,
    {
        if nanos < 2 * NANOS_PER_SEC {
            Some(Timestamp { secs, nanos })
        } else {
            None
        }
    }
}

proof fn lemma_scaled_secs_fit(s: i64)
    ensures
        -0x1_0000_0000_0000_0000_0000_0000 < s * (NANOS_PER_SEC as int) < 0x1_0000_0000_0000_0000_0000_0000,
{
    assert(-0x8000_0000_0000_0000 <= s <= 0x7fff_ffff_ffff_ffff);
    assert(-0x1_0000_0000_0000_0000_0000_0000 < s * 1_000_000_000 < 0x1_0000_0000_0000_0000_0000_0000)
        by (nonlinear_arith)
        requires
            -0x8000_0000_0000_0000 <= s <= 0x7fff_ffff_ffff_ffff,
    ;
}

/// Whole seconds between `a` and `b`, in absolute value, truncated toward zero.
pub fn abs_seconds_between(a: Timestamp, b: Timestamp) -> (r: u128)
    ensures
        r as int == abs_delta_secs(a, b),
{
    proof {
        lemma_scaled_secs_fit(a.secs);
        lemma_scaled_secs_fit(b.secs);
    }
    let na: i128 = a.secs as i128 * NANOS_PER_SEC as i128 + a.nanos as i128;
    let nb: i128 = b.secs as i128 * NANOS_PER_SEC as i128 + b.nanos as i128;
    let d: i128 = na - nb;
    let abs_d: u128 = if d < 0 {
        (-d) as u128
    } else {
        d as u128
    };
    abs_d / NANOS_PER_SEC as u128
}

/// Relies on chrono's `Utc::now`, read back through `DateTime::timestamp` and
/// `DateTime::timestamp_subsec_nanos`: the current time, whose sub-second
/// part stays under two seconds (chrono's leap-second encoding). `Utc::now`
/// panics only if the system clock reads before the Unix epoch.
#[verifier::external_body]
pub(crate) fn current_time() -> (r: Timestamp)
    ensures
        r.wf(),
{
    let now = chrono::Utc::now();
    Timestamp { secs: now.timestamp(), nanos: now.timestamp_subsec_nanos() }
}

} // verus!
