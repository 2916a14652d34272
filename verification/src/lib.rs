//! A batch ingestion engine for a remote key-value store whose write API
//! accepts only bounded batches and may report a call as partially
//! succeeded.
//!
//! The engine splits a flat list of write requests into fixed-size chunks,
//! drives each chunk to completion against the store with exponential
//! backoff over the not-yet-accepted backlog, and aggregates per-chunk
//! outcomes either sequentially or with one task per chunk.

pub mod backoff;
pub mod chunker;
pub mod config;
pub mod coordinator;
pub mod errors;
pub mod ingestor;
pub mod models;
pub mod user_service;
pub mod view_models;
