//! Telemetry aggregation for a Grin node: numeric derivations, snapshot
//! state, collectors, the daily statistics series and its poll scheduler.

pub mod clock;
pub mod data;
pub mod decimal;
pub mod display;
pub mod grouping;
pub mod json;
pub mod metrics;
pub mod peers;
pub mod reading;
pub mod requests;
pub mod rpc;
pub mod statistics;
pub mod text;
pub mod worker;
