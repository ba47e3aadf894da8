//! Client-facing core of a document database.
//!
//! A typed record (a "document") is identified, versioned, read, written
//! under optimistic concurrency, indexed via derived views, and atomically
//! mutated as a counter.  Contents are opaque bytes; serialization is a
//! capability of the caller.  Writes are conditioned on the revision the
//! caller believes is current; the storage side detects races by comparing
//! revisions, and the entry orchestrator retries within a caller-set budget.

pub mod bytes;
pub mod collection;
pub mod connection;
pub mod document;
pub mod entry;
pub mod error;
pub mod keyvalue;
pub mod memory;
pub mod numeric;
pub mod revision;
