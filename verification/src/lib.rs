//! Ingestion of sensor telemetry: payload normalization, buffering with
//! volume- and time-triggered flushes, the storage actor's command protocol
//! and the shutdown sequence, each as verified code over plain values.

pub mod measurement;
pub mod row;
pub mod json;
pub mod clock;
pub mod normalize;
pub mod batch;
pub mod command;
pub mod buffer;
pub mod ingest;
pub mod actor;
pub mod handle;
pub mod shutdown;
pub mod config;
pub mod asset;
