//! What the library takes from outside: Sentry's identifiers and the clock.

use vstd::prelude::*;

verus! {

#[verifier::external_type_specification]
#[verifier::external_body]
pub struct ExSpanId(sentry::protocol::SpanId);

#[verifier::external_type_specification]
#[verifier::external_body]
pub struct ExTraceId(sentry::protocol::TraceId);

/// Relies on sentry-types deriving `Clone` beside `Copy` on `SpanId`: a copy.
pub assume_specification[ <sentry::protocol::SpanId as Clone>::clone ](
    id: &sentry::protocol::SpanId,
) -> (r: sentry::protocol::SpanId)
    ensures
        r == *id,
;

/// Relies on sentry-types deriving `Clone` beside `Copy` on `TraceId`: a copy.
pub assume_specification[ <sentry::protocol::TraceId as Clone>::clone ](
    id: &sentry::protocol::TraceId,
) -> (r: sentry::protocol::TraceId)
    ensures
        r == *id,
;

/// Relies on sentry-types' `Default` for `SpanId`: eight fresh random bytes
/// from the system, which panics only where the system offers none. Nothing
/// can be said of the value.
#[verifier::external_body]
pub(crate) fn fresh_span_id() -> (r: sentry::protocol::SpanId) {
    sentry::protocol::SpanId::default()
}

/// Relies on sentry-types' `Default` for `TraceId`: sixteen fresh random bytes
/// from the system, which panics only where the system offers none. Nothing
/// can be said of the value.
#[verifier::external_body]
pub(crate) fn fresh_trace_id() -> (r: sentry::protocol::TraceId) {
    sentry::protocol::TraceId::default()
}

/// Relies on chrono's `Utc::now` and `DateTime::timestamp_micros`: the current
/// time in microseconds since the Unix epoch. It depends on the clock alone.
#[verifier::external_body]
pub(crate) fn now_micros() -> (r: i64) {
    chrono::Utc::now().timestamp_micros()
}

} // verus!
