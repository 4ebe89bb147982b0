//! Time spans as the player measures them.
//!
//! `std::time::Duration` is opaque to the verifier. The two functions without
//! a body below name what a span holds; the contracts given to its accessors
//! and to its constructor are taken on trust from the standard library's
//! documentation.

use std::time::Duration;
use vstd::prelude::*;

verus! {

/// Nanoseconds in one second.
pub const NANOS_PER_SEC: u32 = 1_000_000_000;

/// Nanoseconds in one millisecond.
pub const NANOS_PER_MILLI: u32 = 1_000_000;

/// Milliseconds in one second.
pub const MILLIS_PER_SEC: u64 = 1_000;

/// The whole seconds of a span.
pub uninterp spec fn span_secs(span: Duration) -> u64;

/// The part of a span below one second, in nanoseconds.
pub uninterp spec fn span_subsec_nanos(span: Duration) -> u32;

/// The length of a span in nanoseconds.
pub open spec fn span_nanos(span: Duration) -> nat {
    (span_secs(span) * NANOS_PER_SEC + span_subsec_nanos(span)) as nat
}

/// The length of a span in whole milliseconds, rounded down.
pub open spec fn span_millis(span: Duration) -> nat {
    (span_secs(span) * MILLIS_PER_SEC + span_subsec_nanos(span) / NANOS_PER_MILLI) as nat
}

/// The longest span a `Duration` can hold, in nanoseconds.
pub open spec fn max_span_nanos() -> nat {
    (u64::MAX * NANOS_PER_SEC + (NANOS_PER_SEC - 1)) as nat
}

/// `Duration::as_secs` returns the number of whole seconds in the span.
pub assume_specification[ Duration::as_secs ](span: &Duration) -> (secs: u64)
    ensures
        secs == span_secs(*span),
;

/// `Duration::subsec_nanos` returns the fractional part of the span in
/// nanoseconds, which is always less than one second.
pub assume_specification[ Duration::subsec_nanos ](span: &Duration) -> (nanos: u32)
    ensures
        nanos == span_subsec_nanos(*span),
        nanos < NANOS_PER_SEC,
;

/// `Duration::new` builds the span of the given seconds and nanoseconds. It
/// carries whole seconds out of the nanoseconds and panics when that carry
/// overflows; with less than a second of nanoseconds there is no carry.
pub assume_specification[ Duration::new ](secs: u64, nanos: u32) -> (span: Duration)
    requires
        nanos < NANOS_PER_SEC,
    ensures
        span_secs(span) == secs,
        span_subsec_nanos(span) == nanos,
;

/// Whole milliseconds are the nanoseconds divided by a million, rounded down.
pub proof fn lemma_millis_from_nanos(span: Duration)
    ensures
        span_millis(span) == span_nanos(span) / (NANOS_PER_MILLI as nat),
{
    let s = span_secs(span) as int;
    let n = span_subsec_nanos(span) as int;
    assert(s * 1_000_000_000 == (s * 1_000) * 1_000_000) by (nonlinear_arith);
    assert(((s * 1_000) * 1_000_000 + n) / 1_000_000 == s * 1_000 + n / 1_000_000) by (nonlinear_arith)
        requires 0 <= n;
}

/// The sum of two spans, or `None` where no `Duration` can hold it.
pub fn add_spans(first: Duration, second: Duration) -> (sum: Option<Duration>)
    ensures
        match sum {
            Some(total) => span_nanos(total) == span_nanos(first) + span_nanos(second),
            None => span_nanos(first) + span_nanos(second) > max_span_nanos(),
        },
{
    let first_secs: u64 = first.as_secs();
    let second_secs: u64 = second.as_secs();
    let mut nanos: u32 = first.subsec_nanos() + second.subsec_nanos();
    let mut carry: u64 = 0;
    if nanos >= NANOS_PER_SEC {
        nanos = nanos - NANOS_PER_SEC;
        carry = 1;
    }
    assert(span_nanos(first) + span_nanos(second) == (first_secs + second_secs + carry)
        * NANOS_PER_SEC + nanos) by (nonlinear_arith)
        requires
            span_nanos(first) == first_secs * NANOS_PER_SEC + span_subsec_nanos(first),
            span_nanos(second) == second_secs * NANOS_PER_SEC + span_subsec_nanos(second),
            span_subsec_nanos(first) + span_subsec_nanos(second) == carry * NANOS_PER_SEC + nanos,
    ;
    let secs: Option<u64> = match first_secs.checked_add(second_secs) {
        Some(whole) => whole.checked_add(carry),
        None => None,
    };
    match secs {
        Some(secs) => Some(Duration::new(secs, nanos)),
        None => {
            assert((first_secs + second_secs + carry) * NANOS_PER_SEC + nanos > max_span_nanos())
                by (nonlinear_arith)
                requires
                    first_secs + second_secs + carry > u64::MAX,
                    nanos >= 0,
                    max_span_nanos() == u64::MAX * NANOS_PER_SEC + (NANOS_PER_SEC - 1),
                    NANOS_PER_SEC == 1_000_000_000,
            ;
            None
        },
    }
}

} // verus!
