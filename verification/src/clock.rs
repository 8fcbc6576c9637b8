//! The clock of the machine.
use std::time::{Duration, Instant};
use vstd::prelude::*;

verus! {

/// Declares `std::time::Instant`, a point in time that only the clock can read.
#[verifier::external_type_specification]
#[verifier::external_body]
pub struct ExInstant(Instant);

/// Calls `Instant::now`. Nothing is claimed of the result: it is the time of the call.
#[verifier::external_body]
pub(crate) fn now() -> Instant {
    Instant::now()
}

/// The span from one point in time to a later one.
pub uninterp spec fn span(later: Instant, earlier: Instant) -> Duration;

/// Calls `Instant::saturating_duration_since`. Claimed of it: the span depends on the two
/// points in time alone.
#[verifier::external_body]
fn span_between(later: &Instant, earlier: &Instant) -> (r: Duration)
    ensures
        r == span(*later, *earlier),
{
    later.saturating_duration_since(*earlier)
}

/// The whole seconds in a span of time.
pub uninterp spec fn seconds_in(span: Duration) -> u64;

/// Calls `Duration::as_secs`. Claimed of it: the number of seconds depends on the span
/// alone.
#[verifier::external_body]
fn whole_seconds(span: &Duration) -> (r: u64)
    ensures
        r == seconds_in(*span),
{
    span.as_secs()
}

/// The whole seconds from one point in time to a later one.
pub open spec fn seconds_between(later: Instant, earlier: Instant) -> u64 {
    seconds_in(span(later, earlier))
}

/// Computes [`seconds_between`].
pub fn count_seconds(later: &Instant, earlier: &Instant) -> (r: u64)
    ensures
        r == seconds_between(*later, *earlier),
{
    whole_seconds(&span_between(later, earlier))
}

} // verus!
