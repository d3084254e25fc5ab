//! Spans of time in whole milliseconds.

use std::time::Duration;

use vstd::prelude::*;

verus! {

/// The number of whole milliseconds in a span, as `Duration::as_millis` gives it.
pub uninterp spec fn duration_millis(span: Duration) -> u128;

/// `Duration::as_millis`: its result is a function of the span alone, and has the name
/// `duration_millis`.
pub assume_specification[ Duration::as_millis ](span: &Duration) -> (millis: u128)
    ensures
        millis == duration_millis(*span),
;

/// The span that `Duration::from_millis` makes of a number of milliseconds.
pub uninterp spec fn millis_span(millis: u64) -> Duration;

/// `Duration::from_millis`: its result is a function of the number alone, has the name
/// `millis_span`, and holds exactly the given number of milliseconds.
pub assume_specification[ Duration::from_millis ](millis: u64) -> (span: Duration)
    ensures
        span == millis_span(millis),
        duration_millis(span) == millis,
;

} // verus!
