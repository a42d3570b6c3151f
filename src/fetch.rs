//! What a range query or a latest-value query yields, from the rows that the
//! store returned or the failure that it reported.

use vstd::prelude::*;
use crate::error::QueryError;
use crate::order::{is_time_sorted, sort_by_time, sorted_by_time, with_time};
use crate::query::Field;
use crate::row::{FieldValue, Row};
use crate::sample::{point_of, raw_point_of, reading_of, DataPoint, DataPointWithOffset, Reading};

verus! {

/// The rows as column maps.
pub open spec fn rows_view(rows: Seq<Row>) -> Seq<Map<Seq<char>, FieldValue>> {
    rows.map_values(|r: Row| r@)
}

/// Whether every row reads as a combined sample.
pub open spec fn all_points_ok(rows: Seq<Map<Seq<char>, FieldValue>>) -> bool {
    forall|i: int| 0 <= i < rows.len() ==> (#[trigger] raw_point_of(rows[i])) is Ok
}

/// The combined samples of the rows, in the rows' order.
pub open spec fn points_of(rows: Seq<Map<Seq<char>, FieldValue>>) -> Seq<DataPoint> {
    rows.map_values(|r: Map<Seq<char>, FieldValue>| point_of(raw_point_of(r)->Ok_0))
}

/// Whether every row holds a reading of `field`.
pub open spec fn all_readings_ok(rows: Seq<Map<Seq<char>, FieldValue>>, field: Field) -> bool {
    forall|i: int| 0 <= i < rows.len() ==> (#[trigger] reading_of(rows[i], field)) is Ok
}

/// The readings of `field` in the rows, in the rows' order.
pub open spec fn readings_of(rows: Seq<Map<Seq<char>, FieldValue>>, field: Field) -> Seq<Reading> {
    rows.map_values(|r: Map<Seq<char>, FieldValue>| reading_of(r, field)->Ok_0)
}

/// A result list as a sequence.
pub open spec fn result_view<T>(r: Result<Vec<T>, QueryError>) -> Result<Seq<T>, QueryError> {
    match r {
        Ok(v) => Ok(v@),
        Err(e) => Err(e),
    }
}

/// What a range query over all fields yields for these rows: the combined
/// samples ordered by time, or a malformed-row failure.
pub open spec fn points_result(rows: Seq<Map<Seq<char>, FieldValue>>) -> Result<Seq<DataPoint>, QueryError> {
    if all_points_ok(rows) {
        Ok(sorted_by_time(points_of(rows)))
    } else {
        Err(QueryError::MalformedRow)
    }
}

/// What a range query over `field` yields for these rows: the readings
/// ordered by time, or a malformed-row failure.
pub open spec fn readings_result(rows: Seq<Map<Seq<char>, FieldValue>>, field: Field) -> Result<
    Seq<Reading>,
    QueryError,
> {
    if all_readings_ok(rows, field) {
        Ok(sorted_by_time(readings_of(rows, field)))
    } else {
        Err(QueryError::MalformedRow)
    }
}

/// The combined samples of a result set, ordered by time.
///
/// One malformed row fails the whole set.
pub fn sorted_points(rows: &Vec<Row>) -> (r: Result<Vec<DataPoint>, QueryError>)
    ensures
        result_view(r) == points_result(rows_view(rows@)),
        r is Ok <==> all_points_ok(rows_view(rows@)),
        r is Err ==> r == Err::<Vec<DataPoint>, QueryError>(QueryError::MalformedRow),
        r matches Ok(v) ==> v@ == sorted_by_time(points_of(rows_view(rows@))),
        r matches Ok(v) ==> is_time_sorted(v@),
        r matches Ok(v) ==> forall|t: int| #[trigger] with_time(v@, t) == with_time(
            points_of(rows_view(rows@)),
            t,
        ),
{
    let ghost view = rows_view(rows@);
    let mut out: Vec<DataPoint> = Vec::new();
    for i in 0..rows.len()
        invariant
            view == rows_view(rows@),
            out@ == points_of(view.take(i as int)),
            forall|k: int| 0 <= k < i ==> (#[trigger] raw_point_of(view[k])) is Ok,
    {
        assert(view[i as int] == rows@[i as int]@);
        match DataPointWithOffset::from_row(&rows[i]) {
            Ok(raw) => {
                out.push(DataPoint::from(raw));
                assert(points_of(view.take(i + 1)) =~= points_of(view.take(i as int)).push(point_of(raw)));
            },
            Err(e) => {
                assert(!all_points_ok(view));
                return Err(e);
            },
        }
    }
    assert(view.take(rows.len() as int) =~= view);
    Ok(sort_by_time(out))
}

/// The readings of `field` in a result set, ordered by time.
///
/// One row without a reading fails the whole set.
pub fn sorted_readings(rows: &Vec<Row>, field: Field) -> (r: Result<Vec<Reading>, QueryError>)
    ensures
        result_view(r) == readings_result(rows_view(rows@), field),
        r is Ok <==> all_readings_ok(rows_view(rows@), field),
        r is Err ==> r == Err::<Vec<Reading>, QueryError>(QueryError::MalformedRow),
        r matches Ok(v) ==> v@ == sorted_by_time(readings_of(rows_view(rows@), field)),
        r matches Ok(v) ==> is_time_sorted(v@),
        r matches Ok(v) ==> forall|t: int| #[trigger] with_time(v@, t) == with_time(
            readings_of(rows_view(rows@), field),
            t,
        ),
{
    let ghost view = rows_view(rows@);
    let mut out: Vec<Reading> = Vec::new();
    for i in 0..rows.len()
        invariant
            view == rows_view(rows@),
            out@ == readings_of(view.take(i as int), field),
            forall|k: int| 0 <= k < i ==> (#[trigger] reading_of(view[k], field)) is Ok,
    {
        assert(view[i as int] == rows@[i as int]@);
        match Reading::from_row(&rows[i], field) {
            Ok(reading) => {
                out.push(reading);
                assert(readings_of(view.take(i + 1), field) =~= readings_of(view.take(i as int), field).push(reading));
            },
            Err(e) => {
                assert(!all_readings_ok(view, field));
                return Err(e);
            },
        }
    }
    assert(view.take(rows.len() as int) =~= view);
    Ok(sort_by_time(out))
}

/// The answer to a range query over all fields: the store's failure is
/// passed on as it is, its rows become samples ordered by time.
pub fn points_from_outcome(outcome: &Result<Vec<Row>, String>) -> (r: Result<Vec<DataPoint>, QueryError>)
    ensures
        outcome matches Err(m) ==> r == Err::<Vec<DataPoint>, QueryError>(QueryError::QueryFailed(*m)),
        outcome matches Ok(rows) ==> result_view(r) == points_result(rows_view(rows@)),
        r matches Ok(v) ==> is_time_sorted(v@),
{
    match outcome {
        Ok(rows) => sorted_points(rows),
        Err(m) => Err(QueryError::QueryFailed(m.clone())),
    }
}

/// The answer to a range query over `field`: the store's failure is passed on
/// as it is, its rows become readings ordered by time.
pub fn readings_from_outcome(outcome: &Result<Vec<Row>, String>, field: Field) -> (r: Result<
    Vec<Reading>,
    QueryError,
>)
    ensures
        outcome matches Err(m) ==> r == Err::<Vec<Reading>, QueryError>(QueryError::QueryFailed(*m)),
        outcome matches Ok(rows) ==> result_view(r) == readings_result(rows_view(rows@), field),
        r matches Ok(v) ==> is_time_sorted(v@),
{
    match outcome {
        Ok(rows) => sorted_readings(rows, field),
        Err(m) => Err(QueryError::QueryFailed(m.clone())),
    }
}

/// The answer to a latest-value query.
///
/// A missing reading is an ordinary state of a sensor that is offline, so
/// callers usually take [`Latest::value`] and report failures on the side.
#[derive(Debug, Clone, PartialEq, Eq)]
pub enum Latest {
    /// The most recent reading.
    Found(Reading),
    /// The store holds no reading in the period looked at.
    NoData,
    /// The store could not be asked, or its row could not be read.
    Failed(QueryError),
}

/// The latest-value answer for these rows: the first row's reading, if any.
pub open spec fn latest_of(rows: Seq<Map<Seq<char>, FieldValue>>, field: Field) -> Latest {
    if rows.len() == 0 {
        Latest::NoData
    } else {
        match reading_of(rows[0], field) {
            Ok(r) => Latest::Found(r),
            Err(e) => Latest::Failed(e),
        }
    }
}

/// The answer to a latest-value query over `field`, from what the store
/// returned.
pub fn latest_reading(outcome: &Result<Vec<Row>, String>, field: Field) -> (r: Latest)
    ensures
        outcome matches Err(m) ==> r == Latest::Failed(QueryError::QueryFailed(*m)),
        outcome matches Ok(rows) ==> r == latest_of(rows_view(rows@), field),
{
    match outcome {
        Ok(rows) => {
            if rows.len() == 0 {
                Latest::NoData
            } else {
                assert(rows_view(rows@)[0] == rows@[0]@);
                match Reading::from_row(&rows[0], field) {
                    Ok(reading) => Latest::Found(reading),
                    Err(e) => Latest::Failed(e),
                }
            }
        },
        Err(m) => Latest::Failed(QueryError::QueryFailed(m.clone())),
    }
}

impl Latest {
    /// The reading, where there is one; no data and failures both give none.
    pub fn value(&self) -> (r: Option<Reading>)
        ensures
            r == (match *self {
                Latest::Found(x) => Some(x),
                _ => None::<Reading>,
            }),
    {
        match self {
            Latest::Found(x) => Some(*x),
            _ => None,
        }
    }
}

} // verus!
