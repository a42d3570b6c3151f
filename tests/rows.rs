use sensor_query::error::QueryError;
use sensor_query::query::Field;
use sensor_query::row::{FieldValue, Row, StoreTime};
use sensor_query::sample::{DataPoint, DataPointWithOffset, Reading};

fn utc(secs: i64) -> FieldValue {
    FieldValue::Time(StoreTime::new(secs, 0, 0).unwrap())
}

fn row(entries: &[(&str, FieldValue)]) -> Row {
    let mut r = Row::new();
    for (name, value) in entries {
        r.insert(name.to_string(), *value);
    }
    r
}

#[test]
fn store_time_counts_from_the_offset() {
    // 01:00:00.123 at UTC+01:00 is midnight UTC.
    let t = StoreTime::new(3_600, 123_456_789, 3_600).unwrap();
    assert_eq!(t.timestamp_millis(), 123);
    let t = StoreTime::new(1_700_000_000, 0, -18_000).unwrap();
    assert_eq!(t.timestamp_millis(), 1_700_018_000_000);
}

#[test]
fn store_time_leap_second_nanos() {
    let t = StoreTime::new(59, 1_500_000_000, 0).unwrap();
    assert_eq!(t.timestamp_millis(), 60_500);
}

#[test]
fn store_time_out_of_range_parts_are_refused() {
    assert!(StoreTime::new(0, 2_000_000_000, 0).is_none());
    assert!(StoreTime::new(0, 0, 86_400).is_none());
    assert!(StoreTime::new(0, 0, -86_400).is_none());
    assert!(StoreTime::new(i64::MAX, 0, 0).is_none());
    assert!(StoreTime::new(-10_000_000_000_000, 1_999_999_999, -86_399).is_some());
}

#[test]
fn row_insert_replaces_a_column() {
    let mut r = Row::new();
    assert_eq!(r.get("temperature"), None);
    r.insert("temperature".to_string(), FieldValue::Number(1));
    r.insert("humidity".to_string(), FieldValue::Number(2));
    r.insert("temperature".to_string(), FieldValue::Number(3));
    assert_eq!(r.get("temperature"), Some(FieldValue::Number(3)));
    assert_eq!(r.get("humidity"), Some(FieldValue::Number(2)));
    assert_eq!(r.get("co2"), None);
}

#[test]
fn full_row_reads_as_a_combined_sample() {
    let r = row(&[
        ("_time", utc(1_000)),
        ("temperature", FieldValue::Number(2_123)),
        ("humidity", FieldValue::Number(4_550)),
        ("co2", FieldValue::Number(41_200)),
        ("_measurement", FieldValue::Other),
    ]);
    let raw = DataPointWithOffset::from_row(&r).unwrap();
    assert_eq!(raw.temperature, 2_123);
    assert_eq!(raw.co2, Some(41_200));
    let point = DataPoint::from(raw);
    assert_eq!(point, DataPoint { time: 1_000_000, humidity: 4_550, temperature: 2_123, co2: Some(41_200) });
}

#[test]
fn row_without_co2_has_no_co2_reading() {
    let r = row(&[
        ("_time", utc(5)),
        ("temperature", FieldValue::Number(-150)),
        ("humidity", FieldValue::Number(9_999)),
    ]);
    let point = DataPoint::from(DataPointWithOffset::from_row(&r).unwrap());
    assert_eq!(point, DataPoint { time: 5_000, humidity: 9_999, temperature: -150, co2: None });
}

#[test]
fn row_without_temperature_is_malformed() {
    let r = row(&[("_time", utc(5)), ("humidity", FieldValue::Number(1)), ("co2", FieldValue::Number(1))]);
    assert_eq!(DataPointWithOffset::from_row(&r), Err(QueryError::MalformedRow));
}

#[test]
fn row_without_humidity_is_malformed() {
    let r = row(&[("_time", utc(5)), ("temperature", FieldValue::Number(1))]);
    assert_eq!(DataPointWithOffset::from_row(&r), Err(QueryError::MalformedRow));
}

#[test]
fn row_without_time_is_malformed() {
    let r = row(&[("temperature", FieldValue::Number(1)), ("humidity", FieldValue::Number(1))]);
    assert_eq!(DataPointWithOffset::from_row(&r), Err(QueryError::MalformedRow));
}

#[test]
fn column_of_the_wrong_kind_is_malformed() {
    let r = row(&[
        ("_time", FieldValue::Number(5)),
        ("temperature", FieldValue::Number(1)),
        ("humidity", FieldValue::Number(1)),
    ]);
    assert_eq!(DataPointWithOffset::from_row(&r), Err(QueryError::MalformedRow));
    let r = row(&[
        ("_time", utc(5)),
        ("temperature", FieldValue::Number(1)),
        ("humidity", FieldValue::Number(1)),
        ("co2", FieldValue::Other),
    ]);
    assert_eq!(DataPointWithOffset::from_row(&r), Err(QueryError::MalformedRow));
}

#[test]
fn reading_takes_only_its_field() {
    let r = row(&[("_time", utc(7)), ("humidity", FieldValue::Number(5_012))]);
    assert_eq!(Reading::from_row(&r, Field::Humidity), Ok(Reading { time: 7_000, value: 5_012 }));
    assert_eq!(Reading::from_row(&r, Field::Temperature), Err(QueryError::MalformedRow));
}
