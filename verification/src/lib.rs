//! Extraction of typed records from a persisted, columnar, multi-timeline
//! event log.
//!
//! A persisted bundle holds entity databases; each database yields a stream
//! of messages from which columnar chunks are reconstructed. This library
//! classifies each chunk by the component columns it carries, decodes its
//! self-describing columns (including a tagged-union column) into flat,
//! rectangular containers, and filters the results by entity path and by
//! payload kind. Reading and decoding the persisted file is the embedding
//! application's job: the library works on already-reconstructed chunks.
#![verifier::loop_isolation(false)]

pub mod classify;
pub mod decode;
pub mod extract;
pub mod laws;
pub mod model;
pub mod query;
pub mod records;
pub mod text;
