//! Capture-to-fanout telemetry pipeline: packet records, the batching
//! policy, a bounded multi-subscriber distribution bus, the binary and text
//! encodings that turn bus messages into frames, the adapters' decisions,
//! and the points that go to the time-series store.

pub mod message;
pub mod wire;
pub mod text;
pub mod aggregator;
pub mod bus;
pub mod db;
pub mod capture;
pub mod adapter;
pub mod context;

pub use crate::context::Context;
pub use crate::db::InfluxWriter;
pub use crate::message::Message;
