//! A miniature columnar write path: rows of JSON-like data are validated
//! against a fixed schema, accumulated into in-memory column buffers, and
//! handed out as finished batches for durable storage, together with a typed
//! value model used to compare and combine stored data.

pub mod accumulator;
pub mod engine;
pub mod picodata;
pub mod service;
pub mod state;
