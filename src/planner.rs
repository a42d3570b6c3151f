//! The window planner: from a request shape to store bounds and window width.

use vstd::prelude::*;
use crate::error::QueryError;

verus! {

/// The narrowest aggregation window that is ever requested, in milliseconds.
pub const MIN_WINDOW_MS: u64 = 30_000;

/// The window width for a span of `duration_ms` milliseconds.
pub open spec fn window_for(duration_ms: int) -> int {
    if duration_ms / 1000 > MIN_WINDOW_MS as int {
        duration_ms / 1000
    } else {
        MIN_WINDOW_MS as int
    }
}

/// Aggregation window width for a span of `duration_ms` milliseconds:
/// one thousandth of the span, but never under thirty seconds.
pub fn window_ms(duration_ms: u64) -> (r: u64)
    ensures
        r == window_for(duration_ms as int),
        r >= MIN_WINDOW_MS,
{
    let scaled = duration_ms / 1000;
    if scaled > MIN_WINDOW_MS {
        scaled
    } else {
        MIN_WINDOW_MS
    }
}

} // verus!

verus! {

/// First second of the store's range for an explicit start, in whole seconds.
pub open spec fn store_start_s(start_ms: int) -> int {
    start_ms / 1000
}

/// End second of the store's range for an explicit stop: the stop is moved up
/// by one second before it is cut to whole seconds, so that no millisecond of
/// the request falls out of the range.
pub open spec fn store_stop_s(stop_ms: int) -> int {
    (stop_ms + 1000) / 1000
}

/// The time bounds of a query, as the store is given them.
#[derive(Debug, Clone, Copy, PartialEq, Eq)]
pub enum StoreBounds {
    /// The last `duration_ms` milliseconds before the store's own "now".
    Lookback { duration_ms: u64 },
    /// The seconds `start_s` (inclusive) to `stop_s` (exclusive) since the epoch.
    Seconds { start_s: u64, stop_s: u64 },
}

/// The bounds and aggregation window of one range query.
#[derive(Debug, Clone, Copy, PartialEq, Eq)]
pub struct QueryPlan {
    pub bounds: StoreBounds,
    pub window_ms: u64,
}

/// Plans a query for the explicit span `[start_ms, stop_ms)`.
///
/// The span must not be empty; the window is sized after its length.
pub fn plan_range(start_ms: u64, stop_ms: u64) -> (r: Result<QueryPlan, QueryError>)
    ensures
        stop_ms <= start_ms ==> r == Err::<QueryPlan, QueryError>(QueryError::InvalidRange),
        start_ms < stop_ms ==> r == Ok::<QueryPlan, QueryError>(
            QueryPlan {
                bounds: StoreBounds::Seconds {
                    start_s: store_start_s(start_ms as int) as u64,
                    stop_s: store_stop_s(stop_ms as int) as u64,
                },
                window_ms: window_for(stop_ms - start_ms) as u64,
            },
        ),
{
    if stop_ms <= start_ms {
        return Err(QueryError::InvalidRange);
    }
    let window = window_ms(stop_ms - start_ms);
    let start_s = start_ms / 1000;
    let stop_s = stop_ms / 1000 + 1;
    assert(stop_s == store_stop_s(stop_ms as int)) by (nonlinear_arith)
        requires stop_s == stop_ms / 1000 + 1;
    Ok(QueryPlan { bounds: StoreBounds::Seconds { start_s, stop_s }, window_ms: window })
}

/// The plan for the last `duration_ms` milliseconds: an empty span is
/// refused, the window is sized after the span.
pub open spec fn span_plan(duration_ms: u64) -> Result<QueryPlan, QueryError> {
    if duration_ms == 0 {
        Err(QueryError::InvalidRange)
    } else {
        Ok(
            QueryPlan {
                bounds: StoreBounds::Lookback { duration_ms },
                window_ms: window_for(duration_ms as int) as u64,
            },
        )
    }
}

/// Plans a query for the last `duration_ms` milliseconds.
pub fn plan_span(duration_ms: u64) -> (r: Result<QueryPlan, QueryError>)
    ensures
        r == span_plan(duration_ms),
{
    if duration_ms == 0 {
        return Err(QueryError::InvalidRange);
    }
    Ok(QueryPlan { bounds: StoreBounds::Lookback { duration_ms }, window_ms: window_ms(duration_ms) })
}

/// What duration_string makes of a text: the duration in whole
/// milliseconds, or the message of its error.
pub uninterp spec fn parsed_duration(text: Seq<char>) -> Result<u128, Seq<char>>;

/// Relies on duration_string's `FromStr` for `DurationString`, which reads a
/// text such as `1h30m` as a duration or refuses it; its result depends on
/// the text alone.
#[verifier::external_body]
fn parse_duration_ms(text: &str) -> (r: Result<u128, String>)
    ensures
        parsed_duration(text@) == (match r {
            Ok(ms) => Ok::<u128, Seq<char>>(ms),
            Err(m) => Err::<u128, Seq<char>>(m@),
        }),
{
    match text.parse::<duration_string::DurationString>() {
        Ok(d) => Ok(std::time::Duration::from(d).as_millis()),
        Err(e) => Err(e.to_string()),
    }
}

/// The message for a lookback that does not fit in 64 bits of milliseconds.
pub const TOO_LONG: &'static str = "duration is too long";

/// Plans a query for a lookback written as text, such as `1h` or `7d`.
///
/// A text that is no duration, or a duration too long to count in 64 bits of
/// milliseconds, is refused with `InvalidDuration`.
pub fn plan_span_text(text: &str) -> (r: Result<QueryPlan, QueryError>)
    ensures
        (match parsed_duration(text@) {
            Err(m) => r matches Err(QueryError::InvalidDuration(msg)) && msg@ == m,
            Ok(ms) => if ms > u64::MAX {
                r matches Err(QueryError::InvalidDuration(msg)) && msg@ == TOO_LONG@
            } else {
                r == span_plan(ms as u64)
            },
        }),
{
    match parse_duration_ms(text) {
        Ok(ms) => {
            if ms > u64::MAX as u128 {
                Err(QueryError::InvalidDuration(String::from_str(TOO_LONG)))
            } else {
                plan_span(ms as u64)
            }
        },
        Err(m) => Err(QueryError::InvalidDuration(m)),
    }
}

/// The window never shrinks as the span grows.
pub proof fn lemma_window_monotone(a: u64, b: u64)
    requires
        a <= b,
    ensures
        window_for(a as int) <= window_for(b as int),
        window_for(a as int) >= MIN_WINDOW_MS,
{
    assert(a as int / 1000 <= b as int / 1000) by (nonlinear_arith)
        requires a <= b;
}

/// For every non-empty explicit span the store's range holds at least one
/// second, and lengthening the span by a millisecond never pulls the store's
/// end second back.
pub proof fn lemma_store_bounds_nonempty(start_ms: u64, stop_ms: u64)
    requires
        start_ms < stop_ms,
    ensures
        store_start_s(start_ms as int) < store_stop_s(stop_ms as int),
        store_stop_s(stop_ms as int) <= store_stop_s(stop_ms as int + 1),
{
    assert(start_ms as int / 1000 <= stop_ms as int / 1000) by (nonlinear_arith)
        requires start_ms < stop_ms;
    assert((stop_ms as int + 1000) / 1000 == stop_ms as int / 1000 + 1) by (nonlinear_arith);
    assert((stop_ms as int + 1000) / 1000 <= (stop_ms as int + 1001) / 1000) by (nonlinear_arith);
}

} // verus!
