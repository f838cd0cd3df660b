//! Lifecycle and invocation bridge for a TAPLE ledger node: a take-once cell
//! that hands the engine out to exactly one consumer, the storage adapter that
//! lets a foreign key-value backend serve the engine, the canonical
//! identifier codec, and the data model that crosses the foreign boundary.
pub mod base64;
pub mod codec;
pub mod error;
pub mod lifecycle;
pub mod models;
pub mod notification;
pub mod storage;
pub mod subject;
