//! The domain values that rows are turned into.

use vstd::prelude::*;
use crate::error::QueryError;
use crate::order::Timed;
use crate::query::{field_name, Field};
use crate::row::{column, FieldValue, Row, StoreTime};

verus! {

/// The column that holds a row's timestamp.
pub const TIME_COLUMN: &'static str = "_time";

/// The column of the optional CO2 reading.
pub const CO2_COLUMN: &'static str = "co2";

/// The timestamp of a row, if its time column holds one.
pub open spec fn row_time(row: Map<Seq<char>, FieldValue>) -> Option<StoreTime> {
    match column(row, TIME_COLUMN@) {
        Some(FieldValue::Time(t)) => Some(t),
        _ => None,
    }
}

/// The number in column `name` of a row, if it holds one.
pub open spec fn row_number(row: Map<Seq<char>, FieldValue>, name: Seq<char>) -> Option<i64> {
    match column(row, name) {
        Some(FieldValue::Number(n)) => Some(n),
        _ => None,
    }
}

/// An optional number column: absent is no reading, a number is a reading,
/// anything else makes the row malformed.
pub open spec fn row_optional_number(row: Map<Seq<char>, FieldValue>, name: Seq<char>) -> Result<
    Option<i64>,
    QueryError,
> {
    match column(row, name) {
        None => Ok(None),
        Some(FieldValue::Number(n)) => Ok(Some(n)),
        Some(_) => Err(QueryError::MalformedRow),
    }
}

/// A row read as a combined sample, still with the store's timestamp.
#[derive(Debug, Clone, Copy, PartialEq, Eq)]
pub struct DataPointWithOffset {
    pub time: StoreTime,
    /// Temperature, in hundredths of a degree.
    pub temperature: i64,
    /// Relative humidity, in hundredths of a percent.
    pub humidity: i64,
    /// CO2 concentration, in hundredths of a ppm, where the row has one.
    pub co2: Option<i64>,
}

/// The combined sample that a row holds: time, temperature and humidity are
/// required, CO2 may be absent.
pub open spec fn raw_point_of(row: Map<Seq<char>, FieldValue>) -> Result<DataPointWithOffset, QueryError> {
    match (
        row_time(row),
        row_number(row, field_name(Field::Temperature)),
        row_number(row, field_name(Field::Humidity)),
        row_optional_number(row, CO2_COLUMN@),
    ) {
        (Some(time), Some(temperature), Some(humidity), Ok(co2)) => Ok(
            DataPointWithOffset { time, temperature, humidity, co2 },
        ),
        _ => Err(QueryError::MalformedRow),
    }
}

impl DataPointWithOffset {
    /// Reads a combined sample from a row.
    pub fn from_row(row: &Row) -> (r: Result<DataPointWithOffset, QueryError>)
        ensures
            r == raw_point_of(row@),
    {
        let time = match row.get(TIME_COLUMN) {
            Some(FieldValue::Time(t)) => t,
            _ => return Err(QueryError::MalformedRow),
        };
        let temperature = match row.get(Field::Temperature.name()) {
            Some(FieldValue::Number(n)) => n,
            _ => return Err(QueryError::MalformedRow),
        };
        let humidity = match row.get(Field::Humidity.name()) {
            Some(FieldValue::Number(n)) => n,
            _ => return Err(QueryError::MalformedRow),
        };
        let co2 = match row.get(CO2_COLUMN) {
            None => None,
            Some(FieldValue::Number(n)) => Some(n),
            Some(_) => return Err(QueryError::MalformedRow),
        };
        Ok(DataPointWithOffset { time, temperature, humidity, co2 })
    }
}

/// A combined sample as it leaves the library.
#[derive(Debug, Clone, Copy, PartialEq, Eq)]
pub struct DataPoint {
    /// Milliseconds since the epoch.
    pub time: i64,
    /// Relative humidity, in hundredths of a percent.
    pub humidity: i64,
    /// Temperature, in hundredths of a degree.
    pub temperature: i64,
    /// CO2 concentration, in hundredths of a ppm, where it was measured.
    pub co2: Option<i64>,
}

/// The sample with the timestamp given as milliseconds since the epoch.
pub open spec fn point_of(raw: DataPointWithOffset) -> DataPoint {
    DataPoint {
        time: raw.time.epoch_ms() as i64,
        humidity: raw.humidity,
        temperature: raw.temperature,
        co2: raw.co2,
    }
}

impl From<DataPointWithOffset> for DataPoint {
    fn from(value: DataPointWithOffset) -> (r: DataPoint)
        ensures
            r == point_of(value),
    {
        DataPoint {
            time: value.time.timestamp_millis(),
            humidity: value.humidity,
            temperature: value.temperature,
            co2: value.co2,
        }
    }
}

impl vstd::std_specs::convert::FromSpecImpl<DataPointWithOffset> for DataPoint {
    open spec fn obeys_from_spec() -> bool {
        true
    }

    open spec fn from_spec(v: DataPointWithOffset) -> DataPoint {
        point_of(v)
    }
}

impl Timed for DataPoint {
    open spec fn time_key(&self) -> int {
        self.time as int
    }

    fn time(&self) -> (r: i64) {
        self.time
    }
}

/// One field's value at one time, as it leaves the library.
#[derive(Debug, Clone, Copy, PartialEq, Eq)]
pub struct Reading {
    /// Milliseconds since the epoch.
    pub time: i64,
    /// The value, in hundredths of the field's unit.
    pub value: i64,
}

/// The reading of `field` that a row holds: its time and that field are
/// required.
pub open spec fn reading_of(row: Map<Seq<char>, FieldValue>, field: Field) -> Result<Reading, QueryError> {
    match (row_time(row), row_number(row, field_name(field))) {
        (Some(t), Some(value)) => Ok(Reading { time: t.epoch_ms() as i64, value }),
        _ => Err(QueryError::MalformedRow),
    }
}

impl Reading {
    /// Reads the value of `field` from a row.
    pub fn from_row(row: &Row, field: Field) -> (r: Result<Reading, QueryError>)
        ensures
            r == reading_of(row@, field),
    {
        let time = match row.get(TIME_COLUMN) {
            Some(FieldValue::Time(t)) => t.timestamp_millis(),
            _ => return Err(QueryError::MalformedRow),
        };
        match row.get(field.name()) {
            Some(FieldValue::Number(value)) => Ok(Reading { time, value }),
            _ => Err(QueryError::MalformedRow),
        }
    }
}

impl Timed for Reading {
    open spec fn time_key(&self) -> int {
        self.time as int
    }

    fn time(&self) -> (r: i64) {
        self.time
    }
}

/// A row that lacks only the CO2 column still reads as a combined sample,
/// with no CO2 reading; a row that lacks the temperature or the humidity is
/// malformed.
pub proof fn lemma_co2_optional(row: Map<Seq<char>, FieldValue>)
    ensures
        row_time(row) is Some && row_number(row, field_name(Field::Temperature)) is Some
            && row_number(row, field_name(Field::Humidity)) is Some && !row.contains_key(CO2_COLUMN@)
            ==> (raw_point_of(row) matches Ok(p) && p.co2 is None),
        !row.contains_key(field_name(Field::Temperature)) || !row.contains_key(field_name(Field::Humidity))
            ==> raw_point_of(row) == Err::<DataPointWithOffset, QueryError>(QueryError::MalformedRow),
{
}

} // verus!
