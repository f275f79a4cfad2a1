//! Realtime transit departures: an index of the trip updates of one realtime
//! feed snapshot, answering per-stop delay queries by the rule that an update
//! applies forward to the next one given; the merge of scheduled stop times
//! with those answers inside a departure window; and the publishing of each
//! freshly built index to concurrent readers.
pub mod alert;
pub mod date;
pub mod feed;
pub mod merge;
pub mod realtime;
pub mod refresh;
pub mod trip_descriptor;
pub mod trip_table;
