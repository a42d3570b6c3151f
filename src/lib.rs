//! Query planning and result normalisation for a sensor telemetry store.
//!
//! The library decides how wide the aggregation windows of a range query
//! are, writes the store's query text, turns the rows that the store returns
//! into time-sorted domain values, and tells the "latest value" lookups apart
//! from range lookups. Talking to the store itself is left to the caller.

pub mod error;
pub mod fetch;
pub mod planner;
pub mod order;
pub mod query;
pub mod row;
pub mod sample;
