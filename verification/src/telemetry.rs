//! Requests on the telemetry history.
use vstd::prelude::*;

verus! {

/// The history of one key of one entity over a time range.
#[derive(Debug, Clone)]
pub struct HistoryQuery {
    pub entity_id: i64,
    pub key: String,
    pub start_ts: i64,
    pub end_ts: i64,
}

} // verus!
