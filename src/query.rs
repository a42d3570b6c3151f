//! The text of the queries that are sent to the store.

use vstd::prelude::*;
use crate::planner::{QueryPlan, StoreBounds};

verus! {

/// The bucket that holds the sensor's readings.
pub const BUCKET: &'static str = "Temperature";

/// The measurement under which the sensor writes its readings.
pub const MEASUREMENT: &'static str = "aht10";

/// The function by which a window's readings are reduced to one point.
pub const AGGREGATE: &'static str = "mean";

/// A single measured quantity, for the endpoints that serve one of them.
#[derive(Debug, Clone, Copy, PartialEq, Eq)]
pub enum Field {
    Temperature,
    Humidity,
}

/// The column name under which the store keeps a field.
pub open spec fn field_name(f: Field) -> Seq<char> {
    match f {
        Field::Temperature => "temperature"@,
        Field::Humidity => "humidity"@,
    }
}

impl Field {
    /// The column name of this field.
    pub fn name(&self) -> (r: &'static str)
        ensures
            r@ == field_name(*self),
    {
        match self {
            Field::Temperature => "temperature",
            Field::Humidity => "humidity",
        }
    }
}

/// The character of a decimal digit.
pub open spec fn digit_char(d: nat) -> char {
    if d == 0 { '0' }
    else if d == 1 { '1' }
    else if d == 2 { '2' }
    else if d == 3 { '3' }
    else if d == 4 { '4' }
    else if d == 5 { '5' }
    else if d == 6 { '6' }
    else if d == 7 { '7' }
    else if d == 8 { '8' }
    else { '9' }
}

/// The decimal notation of `n`, without sign or leading zeros.
pub open spec fn decimal(n: nat) -> Seq<char>
    decreases n,
{
    if n < 10 {
        seq![digit_char(n)]
    } else {
        decimal(n / 10).push(digit_char(n % 10))
    }
}

fn digit_text(d: u64) -> (r: &'static str)
    requires
        d < 10,
    ensures
        r@ == seq![digit_char(d as nat)],
{
    proof {
        reveal_strlit("0");
        reveal_strlit("1");
        reveal_strlit("2");
        reveal_strlit("3");
        reveal_strlit("4");
        reveal_strlit("5");
        reveal_strlit("6");
        reveal_strlit("7");
        reveal_strlit("8");
        reveal_strlit("9");
    }
    if d == 0 { "0" }
    else if d == 1 { "1" }
    else if d == 2 { "2" }
    else if d == 3 { "3" }
    else if d == 4 { "4" }
    else if d == 5 { "5" }
    else if d == 6 { "6" }
    else if d == 7 { "7" }
    else if d == 8 { "8" }
    else { "9" }
}

/// Appends the decimal notation of `n` to `s`.
pub fn push_decimal(s: &mut String, n: u64)
    ensures
        final(s)@ == old(s)@ + decimal(n as nat),
    decreases n,
{
    if n >= 10 {
        push_decimal(s, n / 10);
    }
    s.append(digit_text(n % 10));
    assert(s@ =~= old(s)@ + decimal(n as nat));
}

/// How the store is told the time bounds of a query.
pub open spec fn bounds_text(b: StoreBounds) -> Seq<char> {
    match b {
        StoreBounds::Lookback { duration_ms } => "start: -"@ + decimal(duration_ms as nat) + "ms"@,
        StoreBounds::Seconds { start_s, stop_s } => "start: "@ + decimal(start_s as nat) + ", stop: "@
            + decimal(stop_s as nat),
    }
}

/// The stage that keeps one field only, or nothing where all fields are wanted.
pub open spec fn field_filter_text(field: Option<Field>) -> Seq<char> {
    match field {
        Some(f) => "  |> filter(fn: (r) => r[\"_field\"] == \""@ + field_name(f) + "\")\n"@,
        None => Seq::empty(),
    }
}

/// The opening of every query, up to where its time bounds go.
pub open spec fn source_head() -> Seq<char> {
    "from(bucket: \""@ + BUCKET@ + "\")\n  |> range("@
}

/// What follows the time bounds in every query: the measurement and, where
/// one is asked for, the field.
pub open spec fn source_tail(field: Option<Field>) -> Seq<char> {
    ")\n  |> filter(fn: (r) => r[\"_measurement\"] == \""@ + MEASUREMENT@ + "\")\n"@
        + field_filter_text(field)
}

/// The text of a range query: bucket, time bounds, measurement and field,
/// then windows of the planned width reduced by the mean, with empty windows
/// left out.
pub open spec fn range_query_spec(plan: QueryPlan, field: Option<Field>) -> Seq<char> {
    source_head() + bounds_text(plan.bounds) + source_tail(field) + "  |> aggregateWindow(every: "@
        + decimal(plan.window_ms as nat) + "ms, fn: "@ + AGGREGATE@
        + ", createEmpty: false)\n  |> yield(name: \""@ + AGGREGATE@ + "\")"@
}

/// The text of a latest-value query: bucket, the last day, measurement and
/// field, then the last row only.
pub open spec fn latest_query_spec(field: Option<Field>) -> Seq<char> {
    source_head() + "start: -1d"@ + source_tail(field) + "  |> last()"@
}

fn push_bounds(s: &mut String, b: &StoreBounds)
    ensures
        final(s)@ == old(s)@ + bounds_text(*b),
{
    match b {
        StoreBounds::Lookback { duration_ms } => {
            s.append("start: -");
            push_decimal(s, *duration_ms);
            s.append("ms");
            assert(s@ =~= old(s)@ + bounds_text(*b));
        },
        StoreBounds::Seconds { start_s, stop_s } => {
            s.append("start: ");
            push_decimal(s, *start_s);
            s.append(", stop: ");
            push_decimal(s, *stop_s);
            assert(s@ =~= old(s)@ + bounds_text(*b));
        },
    }
}

fn start_source() -> (s: String)
    ensures
        s@ == source_head(),
{
    let mut s = String::new();
    s.append("from(bucket: \"");
    s.append(BUCKET);
    s.append("\")\n  |> range(");
    assert(s@ =~= source_head());
    s
}

fn push_source_tail(s: &mut String, field: Option<Field>)
    ensures
        final(s)@ == old(s)@ + source_tail(field),
{
    s.append(")\n  |> filter(fn: (r) => r[\"_measurement\"] == \"");
    s.append(MEASUREMENT);
    s.append("\")\n");
    match field {
        Some(f) => {
            s.append("  |> filter(fn: (r) => r[\"_field\"] == \"");
            s.append(f.name());
            s.append("\")\n");
        },
        None => {},
    }
    assert(s@ =~= old(s)@ + source_tail(field));
}

/// The query for a planned range, over one field or, with no field given,
/// over all of them.
pub fn range_query_text(plan: &QueryPlan, field: Option<Field>) -> (r: String)
    ensures
        r@ == range_query_spec(*plan, field),
{
    let mut s = start_source();
    push_bounds(&mut s, &plan.bounds);
    push_source_tail(&mut s, field);
    s.append("  |> aggregateWindow(every: ");
    push_decimal(&mut s, plan.window_ms);
    s.append("ms, fn: ");
    s.append(AGGREGATE);
    s.append(", createEmpty: false)\n  |> yield(name: \"");
    s.append(AGGREGATE);
    s.append("\")");
    s
}

/// The query for the most recent row of one field or, with no field given,
/// of all of them, within the last day.
pub fn latest_query_text(field: Option<Field>) -> (r: String)
    ensures
        r@ == latest_query_spec(field),
{
    let mut s = start_source();
    s.append("start: -1d");
    push_source_tail(&mut s, field);
    s.append("  |> last()");
    s
}

} // verus!
