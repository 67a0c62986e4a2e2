//! Verified core of an agentic API gateway.

pub mod handler;
pub mod storage;
pub mod telemetry;
pub mod text;
pub mod types;
