//! Adaptive uplink for live camera frames.
//!
//! The crate holds the decisions of a streaming pipeline: cutting frames out
//! of an encoder's byte stream, admitting them to a bounded queue, estimating
//! congestion with hysteresis, and steering the session that carries the
//! frames to the ingestion endpoint. Each decision is a function with a
//! contract over a mathematical model of its inputs.

pub mod clock;
pub mod codec;
pub mod controller;
pub mod estimator;
pub mod extractor;
pub mod identity;
pub mod json;
pub mod messages;
pub mod profile;
pub mod queue;
pub mod session;
pub mod supervisor;
pub mod telemetry;
pub mod text;
